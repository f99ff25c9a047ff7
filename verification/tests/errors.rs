use rusty_d3d12::{
    check_hresult, compile_shader, enumeration_step, failed, shader_compile_result, succeeded, DxError,
    EnumerationStep, DXGI_ERROR_NOT_FOUND, E_FAIL, S_OK,
};

#[test]
fn error_keeps_name_and_code() {
    let e = DxError::new("CreateDevice", E_FAIL);
    assert_eq!(&e.func_name[..12], b"CreateDevice");
    assert!(e.func_name[12..].iter().all(|b| *b == 0));
    assert_eq!(e.code(), E_FAIL);
}

#[test]
fn error_name_can_fill_the_buffer() {
    let name = "a".repeat(64);
    let e = DxError::new(&name, -1);
    assert!(e.func_name.iter().all(|b| *b == b'a'));
}

#[test]
fn error_text_formats_code_and_message() {
    let e = DxError::new("Present", E_FAIL);
    let text = e.describe(b"Unspecified\r\nerror");
    let mut expected = Vec::new();
    expected.extend_from_slice(b"Present");
    expected.extend_from_slice(&[0u8; 57]);
    expected.extend_from_slice(b" failed: [0x80004005] Unspecified  error");
    assert_eq!(text, expected);
}

#[test]
fn error_text_of_small_code() {
    let e = DxError::new("X", 0x2a);
    let text = e.describe(b"");
    assert_eq!(&text[64..], b" failed: [0x0000002a] ");
}

#[test]
fn hresult_success_and_failure() {
    assert!(succeeded(S_OK));
    assert!(succeeded(1));
    assert!(!failed(0));
    assert!(failed(E_FAIL));
    assert!(!succeeded(DXGI_ERROR_NOT_FOUND));
}

#[test]
fn enumeration_steps() {
    assert_eq!(enumeration_step("EnumAdapters1", DXGI_ERROR_NOT_FOUND), EnumerationStep::Finished);
    assert_eq!(enumeration_step("EnumAdapters1", S_OK), EnumerationStep::Next);
    match enumeration_step("EnumAdapters1", E_FAIL) {
        EnumerationStep::Failed(e) => {
            assert_eq!(e.code, E_FAIL);
            assert_eq!(&e.func_name[..13], b"EnumAdapters1");
        }
        other => panic!("unexpected step {:?}", other),
    }
}

#[test]
fn compile_result_passes_bytecode_through() {
    assert_eq!(shader_compile_result(Ok(vec![1, 2, 3])), Ok(vec![1, 2, 3]));
}

#[test]
fn compile_result_reports_failure() {
    let r = shader_compile_result(Err(hassle_rs::HassleError::CompileError("bad".to_string())));
    let e = r.unwrap_err();
    assert_eq!(e.code, E_FAIL);
    assert_eq!(&e.func_name[..12], b"compile_hlsl");
    assert!(e.func_name[12..].iter().all(|b| *b == 0));
}

#[test]
fn compile_shader_reports_missing_compiler_as_failure() {
    match compile_shader("s.hlsl", "float4 main() : SV_Target { return 0; }", "main", "ps_6_0", &[], &[]) {
        Ok(bytecode) => assert!(!bytecode.is_empty()),
        Err(e) => assert_eq!(e.code, E_FAIL),
    }
}

#[test]
fn checked_call_reports_failures_only() {
    assert_eq!(check_hresult("Present", S_OK), Ok(()));
    assert_eq!(check_hresult("Present", 1), Ok(()));
    let e = check_hresult("Present", E_FAIL).unwrap_err();
    assert_eq!(e, DxError::new("Present", E_FAIL));
    assert_eq!(&e.func_name[..7], b"Present");
    assert_eq!(e.code(), E_FAIL);
}
