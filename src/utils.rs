use vstd::prelude::*;

verus! {

/// The signed result code returned by every native entry point.
pub type SlangResult = i32;

/// The outcome of a native call: nothing on success, the native code on failure.
pub type Result<T> = core::result::Result<T, SlangResult>;

/// The two-outcome reading of a native result code: negative codes are
/// failures and carry the code unchanged, every other code is a success.
pub open spec fn spec_result_from_ffi(code: SlangResult) -> Result<()> {
    if code < 0 {
        Err(code)
    } else {
        Ok(())
    }
}

/// Translates a native result code by its sign alone.
pub fn result_from_ffi(result: SlangResult) -> (r: Result<()>)
    ensures
        r == spec_result_from_ffi(result),
        r is Err <==> result < 0,
        r matches Err(code) ==> code == result,
{
    if result < 0 {
        Err(result)
    } else {
        Ok(())
    }
}

} // verus!
