//! Result codes, the library error type and its text.

use vstd::prelude::*;
use vstd::string::StringSliceAdditionalSpecFns;

verus! {

/// Result code of a COM call (`HRESULT`).
pub type HResult = i32;

/// Success (`S_OK`).
pub const S_OK: HResult = 0;

/// Unspecified failure (`E_FAIL`, `0x80004005`).
pub const E_FAIL: HResult = -2147467259;

/// An enumeration ran past its last item (`DXGI_ERROR_NOT_FOUND`, `0x887A0002`).
pub const DXGI_ERROR_NOT_FOUND: HResult = -2005270526;

/// Room for the name of the failed function in a [`DxError`].
pub const MAX_FUNC_NAME_LEN: usize = 64;

/// Room for the system's description of an error code.
pub const MAX_ERROR_MSG_LEN: usize = 512;

/// The name of a failed Direct3D call, zero-padded to [`MAX_FUNC_NAME_LEN`] bytes, and the
/// code it returned.
#[derive(Clone, Copy, Debug, PartialEq, Eq)]
pub struct DxError {
    pub func_name: [u8; 64],
    pub code: HResult,
}

/// The outcome of a fallible Direct3D call.
pub type DxResult<T> = Result<T, DxError>;

/// `code` reports success.
pub open spec fn spec_succeeded(code: HResult) -> bool {
    code >= 0
}

/// Every non-negative `HRESULT` reports success, including the success codes other than
/// `S_OK` (such as `S_FALSE` or `DXGI_STATUS_OCCLUDED`), and every negative one failure.
pub proof fn lemma_success_is_non_negative(code: HResult)
    ensures
        spec_succeeded(code) <==> code >= 0,
        spec_succeeded(S_OK),
        spec_succeeded(1),
        spec_succeeded(0x087A0001),
        !spec_succeeded(E_FAIL),
        !spec_succeeded(DXGI_ERROR_NOT_FOUND),
{
}

/// Whether `code` reports success (a non-negative `HRESULT`).
pub fn succeeded(code: HResult) -> (r: bool)
    ensures
        r == spec_succeeded(code),
        r <==> code >= 0,
{
    code >= S_OK
}

/// Whether `code` reports failure (a negative `HRESULT`).
pub fn failed(code: HResult) -> (r: bool)
    ensures
        r == !spec_succeeded(code),
        r <==> code < 0,
{
    code < S_OK
}

/// Lower-case hexadecimal digit of a value below 16.
pub open spec fn hex_digit(n: u32) -> u8 {
    if n < 10 {
        (48 + n) as u8
    } else {
        (87 + n) as u8
    }
}

/// The eight hexadecimal digits of `v`, most significant first.
pub open spec fn hex8(v: u32) -> Seq<u8> {
    Seq::new(8, |i: int| hex_digit((v >> ((28 - 4 * i) as u32)) & 0xf))
}

/// How a [`DxError`] reads: the name bytes, ` failed: [0x`, the code's eight hexadecimal digits,
/// `] ` and the system's message.
pub open spec fn error_text(func_name: Seq<u8>, code: HResult, message: Seq<u8>) -> Seq<u8> {
    func_name + seq![32u8, 102u8, 97u8, 105u8, 108u8, 101u8, 100u8, 58u8, 32u8, 91u8, 48u8, 120u8]
        + hex8(code as u32) + seq![93u8, 32u8] + message
}

/// Line feeds and carriage returns turned into spaces.
pub open spec fn without_line_breaks(message: Seq<u8>) -> Seq<u8> {
    message.map_values(|b: u8| if b == 10 || b == 13 { 32u8 } else { b })
}

/// `name` followed by zero bytes up to [`MAX_FUNC_NAME_LEN`] bytes.
pub open spec fn padded_name(name: Seq<u8>) -> Seq<u8> {
    name + Seq::new((64 - name.len()) as nat, |i: int| 0u8)
}

impl DxError {
    /// An error for `func_name` failing with `err_code`; the name is copied into a zeroed
    /// buffer of [`MAX_FUNC_NAME_LEN`] bytes, which it must fit in.
    pub fn new(func_name: &str, err_code: HResult) -> (r: Self)
        requires
            func_name.spec_bytes().len() <= 64,
        ensures
            r.code == err_code,
            r.func_name@ == padded_name(func_name.spec_bytes()),
    {
        let bytes = func_name.as_bytes();
        let mut name = [0u8; 64];
        let mut i: usize = 0;
        while i < bytes.len()
            invariant
                bytes@ == func_name.spec_bytes(),
                bytes@.len() <= 64,
                i <= bytes@.len(),
                name@.len() == 64,
                forall|j: int| 0 <= j < i ==> name@[j] == bytes@[j],
                forall|j: int| i <= j < 64 ==> name@[j] == 0u8,
            decreases bytes@.len() - i,
        {
            name[i] = bytes[i];
            i = i + 1;
        }
        proof {
            assert(name@ =~= padded_name(func_name.spec_bytes()));
        }
        DxError { func_name: name, code: err_code }
    }

    /// The code the failed call returned.
    pub fn code(&self) -> (r: HResult)
        ensures
            r == self.code,
    {
        self.code
    }

    /// The error's text: the name buffer, ` failed: [0x`, the code as eight lower-case
    /// hexadecimal digits, `] ` and `system_message` with its line breaks turned into spaces.
    pub fn describe(&self, system_message: &[u8]) -> (r: Vec<u8>)
        ensures
            r@ == error_text(self.func_name@, self.code, without_line_breaks(system_message@)),
    {
        let mut out: Vec<u8> = Vec::new();
        let mut i: usize = 0;
        while i < 64
            invariant
                i <= 64,
                out@ == self.func_name@.subrange(0, i as int),
            decreases 64 - i,
        {
            out.push(self.func_name[i]);
            i = i + 1;
        }
        let ghost name_part = out@;
        out.push(32u8);
        out.push(102u8);
        out.push(97u8);
        out.push(105u8);
        out.push(108u8);
        out.push(101u8);
        out.push(100u8);
        out.push(58u8);
        out.push(32u8);
        out.push(91u8);
        out.push(48u8);
        out.push(120u8);
        let ghost prefix = out@;
        let bits = self.code as u32;
        let mut d: u32 = 0;
        while d < 8
            invariant
                d <= 8,
                bits == self.code as u32,
                out@ == prefix + hex8(bits).subrange(0, d as int),
            decreases 8 - d,
        {
            let shift: u32 = 28 - 4 * d;
            let nibble = (bits >> shift) & 0xf;
            assert(nibble < 16) by (bit_vector)
                requires nibble == (bits >> shift) & 0xf;
            let digit: u8 = if nibble < 10 { 48 + nibble as u8 } else { 87 + nibble as u8 };
            proof {
                assert(hex8(bits)[d as int] == digit);
                assert(hex8(bits).subrange(0, d as int + 1) =~= hex8(bits).subrange(0, d as int).push(digit));
            }
            out.push(digit);
            d = d + 1;
        }
        out.push(93u8);
        out.push(32u8);
        let ghost before_message = out@;
        let mut k: usize = 0;
        while k < system_message.len()
            invariant
                k <= system_message@.len(),
                out@ == before_message + without_line_breaks(system_message@).subrange(0, k as int),
            decreases system_message@.len() - k,
        {
            let b = system_message[k];
            let c: u8 = if b == 10 || b == 13 { 32u8 } else { b };
            proof {
                assert(without_line_breaks(system_message@).subrange(0, k as int + 1)
                    =~= without_line_breaks(system_message@).subrange(0, k as int).push(c));
            }
            out.push(c);
            k = k + 1;
        }
        proof {
            assert(name_part =~= self.func_name@);
            assert(hex8(bits).subrange(0, 8) =~= hex8(bits));
            assert(without_line_breaks(system_message@).subrange(0, system_message@.len() as int)
                =~= without_line_breaks(system_message@));
            assert(out@ =~= error_text(self.func_name@, self.code, without_line_breaks(system_message@)));
        }
        out
    }
}

/// What a wrapped call reports after `method_name` returned `ret_code`: nothing on success,
/// and on failure the error that names the method and carries the code.
pub fn check_hresult(method_name: &str, ret_code: HResult) -> (r: DxResult<()>)
    requires
        method_name.spec_bytes().len() <= 64,
    ensures
        r is Ok <==> spec_succeeded(ret_code),
        r is Ok <==> ret_code >= 0,
        r matches Err(e) ==> e.code == ret_code && e.func_name@ == padded_name(method_name.spec_bytes()),
{
    if failed(ret_code) {
        Err(DxError::new(method_name, ret_code))
    } else {
        Ok(())
    }
}

/// What an adapter enumeration loop does with the code of its latest call.
#[derive(Clone, Copy, Debug, PartialEq, Eq)]
pub enum EnumerationStep {
    /// The previous index was the last one: stop with what was collected.
    Finished,
    /// The call failed: give up with this error.
    Failed(DxError),
    /// The call succeeded: keep the item and ask for the next index.
    Next,
}

/// The step an enumeration through `method_name` takes after a call returned `ret_code`.
pub fn enumeration_step(method_name: &str, ret_code: HResult) -> (r: EnumerationStep)
    requires
        method_name.spec_bytes().len() <= 64,
    ensures
        ret_code == DXGI_ERROR_NOT_FOUND ==> r == EnumerationStep::Finished,
        ret_code == S_OK ==> r == EnumerationStep::Next,
        ret_code != DXGI_ERROR_NOT_FOUND && ret_code != S_OK ==> (r matches EnumerationStep::Failed(e)
            && e.code == ret_code && e.func_name@ == padded_name(method_name.spec_bytes())),
{
    if ret_code == DXGI_ERROR_NOT_FOUND {
        EnumerationStep::Finished
    } else if ret_code != S_OK {
        EnumerationStep::Failed(DxError::new(method_name, ret_code))
    } else {
        EnumerationStep::Next
    }
}

} // verus!
