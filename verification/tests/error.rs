use mikanos_usb::error::{Error, RawError};

fn new_success() -> RawError<'static> {
    RawError { cause: 0, name: Some(b"kSuccess\0"), file: Some(b"test_cpp/test.cpp\0"), line: 6 }
}

fn new_failure() -> RawError<'static> {
    RawError {
        cause: 7,
        name: Some(b"kNoEnoughMemory\0"),
        file: Some(b"usb/xhci/xhci.cpp\0"),
        line: 212,
    }
}

#[test]
fn error_test() {
    let error = Error::from_raw(new_success()).unwrap();
    let name = error.Name();
    let file = error.File();
    let line = error.Line();
    assert_eq!(name, "kSuccess");
    assert_eq!(file, "test_cpp/test.cpp");
    assert_eq!(line, 6);
}

#[test]
fn success_has_cause_zero_and_the_sentinel_name() {
    let error = Error::from_raw(new_success()).unwrap();
    assert_eq!(error.Cause(), 0);
    assert_eq!(error.Name(), "kSuccess");
}

#[test]
fn failure_is_surfaced_unmodified() {
    let error = Error::from_raw(new_failure()).unwrap();
    assert_ne!(error.Cause(), 0);
    assert_eq!(error.Cause(), 7);
    assert_eq!(error.Name(), "kNoEnoughMemory");
    assert_eq!(error.File(), "usb/xhci/xhci.cpp");
    assert_eq!(error.Line(), 212);
}

#[test]
fn negative_cause_and_line_are_surfaced_unmodified() {
    let raw = RawError { cause: i32::MIN, name: Some(b"k\0"), file: Some(b"f\0"), line: -1 };
    let error = Error::from_raw(raw).unwrap();
    assert_eq!(error.Cause(), i32::MIN);
    assert_eq!(error.Line(), -1);
}

#[test]
fn error_is_copied_by_value() {
    let error = Error::from_raw(new_failure()).unwrap();
    let copy = error;
    assert_eq!(copy.Cause(), error.Cause());
    assert_eq!(copy.Name(), error.Name());
    assert_eq!(copy.File(), error.File());
    assert_eq!(copy.Line(), error.Line());
}

#[test]
fn null_name_is_rejected() {
    let raw = RawError { name: None, ..new_success() };
    assert!(Error::from_raw(raw).is_none());
}

#[test]
fn null_file_is_rejected() {
    let raw = RawError { file: None, ..new_failure() };
    assert!(Error::from_raw(raw).is_none());
}

#[test]
fn invalid_name_is_rejected() {
    let raw = RawError { name: Some(&[0xFF, 0x00]), ..new_success() };
    assert!(Error::from_raw(raw).is_none());
}

#[test]
fn unterminated_file_is_rejected() {
    let raw = RawError { file: Some(b"test.cpp"), ..new_success() };
    assert!(Error::from_raw(raw).is_none());
}
