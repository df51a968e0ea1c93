use dpdk_bridge::result_bridge::{
    const_ptr_into_result, int_into_result, into_unified, mut_ptr_into_result,
};
use std::fmt;

#[derive(Debug, PartialEq)]
struct NativeError {
    raw: i64,
}

impl fmt::Display for NativeError {
    fn fmt(&self, f: &mut fmt::Formatter<'_>) -> fmt::Result {
        f.write_str(&format!("native call failed with {}", self.raw))
    }
}

impl std::error::Error for NativeError {}

#[test]
fn int_minus_one_fails() {
    let r = int_into_result(-1, |raw| NativeError { raw: raw as i64 });
    assert_eq!(r, Err(NativeError { raw: -1 }));
}

#[test]
fn int_zero_succeeds() {
    let r = int_into_result(0, |raw| NativeError { raw: raw as i64 });
    assert_eq!(r, Ok(0u32));
}

#[test]
fn int_forty_two_succeeds() {
    let r = int_into_result(42, |raw| NativeError { raw: raw as i64 });
    assert_eq!(r, Ok(42u32));
}

#[test]
fn int_extremes() {
    let r = int_into_result(i32::MAX, |raw| NativeError { raw: raw as i64 });
    assert_eq!(r, Ok(i32::MAX as u32));
    let r = int_into_result(i32::MIN, |raw| NativeError { raw: raw as i64 });
    assert_eq!(r, Err(NativeError { raw: i32::MIN as i64 }));
}

#[test]
fn int_success_never_builds_error() {
    let r: Result<u32, NativeError> = int_into_result(7, |_| panic!("error built on success"));
    assert_eq!(r, Ok(7));
}

#[test]
fn null_mut_pointer_fails() {
    let r = mut_ptr_into_result(0, |a| NativeError { raw: a as i64 });
    assert!(matches!(r, Err(NativeError { raw: 0 })));
}

#[test]
fn mut_pointer_keeps_address() {
    let r = mut_ptr_into_result(0x1000, |a| NativeError { raw: a as i64 });
    match r {
        Ok(p) => assert_eq!(p.addr(), 0x1000),
        Err(_) => panic!("non-null address must succeed"),
    }
}

#[test]
fn mut_pointer_success_never_builds_error() {
    let r: Result<_, NativeError> = mut_ptr_into_result(usize::MAX, |_| panic!("error built"));
    assert_eq!(r.map(|p| p.addr()).ok(), Some(usize::MAX));
}

#[test]
fn const_pointer_conversions() {
    let r = const_ptr_into_result(0, |a| NativeError { raw: a as i64 });
    assert_eq!(r, Err(NativeError { raw: 0 }));
    let r = const_ptr_into_result(0x2000, |a| NativeError { raw: a as i64 });
    assert_eq!(r, Ok(0x2000));
}

#[test]
fn unified_error_keeps_cause() {
    let r = into_unified(int_into_result(-22, |raw| NativeError { raw: raw as i64 }));
    let e = r.unwrap_err();
    assert_eq!(e.downcast_ref::<NativeError>(), Some(&NativeError { raw: -22 }));
    assert_eq!(e.to_string(), "native call failed with -22");
}

#[test]
fn unified_success_unchanged() {
    let r = into_unified(int_into_result(5, |raw| NativeError { raw: raw as i64 }));
    assert_eq!(r.unwrap(), 5);
}
