use deepviewrt::engine::Engine;
use deepviewrt::error::Error;

#[test]
fn new_with_failed_allocation_is_wrapper_error() {
    let r = Engine::new(0, "missing/path", 0, None);
    assert!(matches!(r, Err(Error::WrapperError(_))));
}

#[test]
fn new_with_nul_in_path_is_wrapper_error() {
    let r = Engine::new(0x10, "bad\0path", 0, None);
    assert!(matches!(r, Err(Error::WrapperError(_))));
}

#[test]
fn new_with_failed_load_is_native_error() {
    // A backend that cannot be loaded (a missing path) surfaces as the
    // runtime's error — with its description when one is available,
    // otherwise as the message-less native failure — never a panic.
    let r = Engine::new(0x10, "missing/path", -3, Some(String::from("could not load plugin")));
    match r {
        Err(Error::NNError(m)) => assert_eq!(m, "could not load plugin"),
        _ => panic!("expected a native error"),
    }
    let r = Engine::new(0x10, "missing/path", -3, None);
    assert!(matches!(r, Err(Error::Null())));
}

#[test]
fn new_success_is_owned() {
    let e = Engine::new(0x10, "plugins/cpu.so", 0, None).unwrap();
    assert!(e.owned);
    assert_eq!(e.handle, 0x10);
}

#[test]
fn wrap_rejects_null_and_borrows() {
    assert!(matches!(Engine::wrap(0), Err(Error::Null())));
    let e = Engine::wrap(0x20).unwrap();
    assert!(!e.owned);
    assert_eq!(e.handle, 0x20);
}

#[test]
fn name_and_version_decode() {
    let e = Engine::wrap(0x20).unwrap();
    assert_eq!(e.name(None).unwrap(), None);
    assert_eq!(e.name(Some(b"cpu".to_vec())).unwrap(), Some(String::from("cpu")));
    assert!(matches!(e.name(Some(vec![0xff, 0xfe])), Err(Error::WrapperError(_))));
    assert_eq!(e.version(None).unwrap(), None);
    assert_eq!(e.version(Some(b"2.4".to_vec())).unwrap(), Some(String::from("2.4")));
    assert!(matches!(e.version(Some(vec![0xc0])), Err(Error::WrapperError(_))));
}

#[test]
fn library_version_decodes() {
    assert_eq!(deepviewrt::version(Some(b"2.4.32".to_vec())).unwrap(), "2.4.32");
    assert!(matches!(deepviewrt::version(None), Err(Error::WrapperError(_))));
    assert!(matches!(
        deepviewrt::version(Some(vec![0xff])),
        Err(Error::WrapperError(_))
    ));
}

#[test]
fn error_taxonomy() {
    let e = Error::from_native(Some(String::from("boom")));
    assert!(matches!(&e, Error::NNError(m) if m == "boom"));
    assert_eq!(e.message(), "boom");
    let e = Error::from_native(None);
    assert!(matches!(e, Error::Null()));
    assert_eq!(e.message(), "null/unknown error message unavailable");
    let e = Error::WrapperError(String::from("bad input"));
    assert!(e.is_wrapper_error());
    assert_eq!(e.message(), "bad input");
    let e = Error::IoError(12);
    assert!(!e.is_wrapper_error());
    assert_eq!(e.message(), "underlying system error");
}

#[test]
fn init_is_callable() {
    deepviewrt::init();
    let _q = deepviewrt::QuantizationType::TypeAffinePerChannel;
}
