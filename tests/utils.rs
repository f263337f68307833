use slang::utils::{result_from_ffi, SlangResult};

#[test]
fn negative_codes_fail_with_the_same_code() {
    for code in [-1, -2, -100, SlangResult::MIN, -2147467259] {
        assert_eq!(result_from_ffi(code), Err(code));
    }
}

#[test]
fn non_negative_codes_succeed() {
    for code in [0, 1, 42, SlangResult::MAX] {
        assert_eq!(result_from_ffi(code), Ok(()));
    }
}
