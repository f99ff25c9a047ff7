//! HLSL compilation.

use vstd::prelude::*;
use vstd::string::StringSliceAdditionalSpecFns;

use crate::error::{padded_name, DxError, DxResult, E_FAIL};

verus! {

#[verifier::external_type_specification]
#[verifier::external_body]
pub struct ExHassleError(hassle_rs::HassleError);

/// No character of `s` but possibly its last one is NUL: `s` can be turned into a
/// NUL-terminated wide string.
pub open spec fn nul_free(s: Seq<char>) -> bool {
    forall|i: int| 0 <= i < s.len() - 1 ==> s[i] != '\0'
}

/// The strings that the compiler receives as wide C strings can be converted: the source
/// name, entry point and target profile, every argument, and every define's name and value.
pub open spec fn compile_inputs_nul_free(
    name: Seq<char>,
    entry_point: Seq<char>,
    shader_model: Seq<char>,
    args: Seq<&str>,
    defines: Seq<(&str, Option<&str>)>,
) -> bool {
    &&& nul_free(name)
    &&& nul_free(entry_point)
    &&& nul_free(shader_model)
    &&& forall|i: int| 0 <= i < args.len() ==> nul_free(#[trigger] args[i]@)
    &&& forall|i: int|
        0 <= i < defines.len() ==> nul_free(#[trigger] defines[i].0@) && (defines[i].1 matches Some(v)
            ==> nul_free(v@))
}

/// Calls `hassle_rs::utils::compile_hlsl`, which loads the DirectX shader compiler library from
/// the machine and compiles `source`. Its helper that turns the name, entry point, target
/// profile, arguments and defines into wide C strings unwraps the conversion, which panics on
/// a NUL before a string's last character: those inputs are left out. Nothing is claimed of the
/// outcome: whether the library can be loaded and what it produces depend on the machine.
#[verifier::external_body]
fn compile_hlsl(
    name: &str,
    source: &str,
    entry_point: &str,
    shader_model: &str,
    args: &[&str],
    defines: &[(&str, Option<&str>)],
) -> (r: Result<Vec<u8>, hassle_rs::HassleError>)
    requires
        compile_inputs_nul_free(name@, entry_point@, shader_model@, args@, defines@),
{
    hassle_rs::utils::compile_hlsl(name, source, entry_point, shader_model, args, defines)
}

/// The error that reports a failed shader compilation: `compile_hlsl` failing with `E_FAIL`.
pub open spec fn compile_failure(e: DxError) -> bool {
    &&& e.code == E_FAIL
    &&& e.func_name@ == padded_name(seq![99u8, 111u8, 109u8, 112u8, 105u8, 108u8, 101u8, 95u8, 104u8, 108u8, 115u8, 108u8])
}

/// What a shader compilation reports to its caller: the bytecode on success, the
/// `compile_hlsl` / `E_FAIL` error otherwise.
pub fn shader_compile_result(result: Result<Vec<u8>, hassle_rs::HassleError>) -> (r: DxResult<Vec<u8>>)
    ensures
        match result {
            Ok(bytecode) => r == Ok::<Vec<u8>, DxError>(bytecode),
            Err(_) => r matches Err(e) && compile_failure(e),
        },
{
    match result {
        Ok(bytecode) => Ok(bytecode),
        Err(_) => {
            let name = "compile_hlsl";
            proof {
                reveal_strlit("compile_hlsl");
                vstd::string::is_ascii_spec_bytes(name);
            }
            assert(name.spec_bytes() =~= seq![99u8, 111u8, 109u8, 112u8, 105u8, 108u8, 101u8, 95u8, 104u8, 108u8, 115u8, 108u8]);
            Err(DxError::new(name, E_FAIL))
        },
    }
}

/// Compiles the HLSL `source` for `shader_model` starting at `entry_point`, with the compiler
/// arguments `args` and the macro definitions `defines`; a failure of any kind is reported as
/// `compile_hlsl` failing with `E_FAIL`. Every string but `source` must be free of NUL before
/// its last character.
pub fn compile_shader(
    name: &str,
    source: &str,
    entry_point: &str,
    shader_model: &str,
    args: &[&str],
    defines: &[(&str, Option<&str>)],
) -> (r: DxResult<Vec<u8>>)
    requires
        compile_inputs_nul_free(name@, entry_point@, shader_model@, args@, defines@),
    ensures
        r matches Err(e) ==> compile_failure(e),
{
    let result = compile_hlsl(name, source, entry_point, shader_model, args, defines);
    shader_compile_result(result)
}

} // verus!
