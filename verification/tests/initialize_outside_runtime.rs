use request_tracing::{init_tracing, InitErrorKind};

#[test]
fn initialization_needs_no_runtime() {
    assert_eq!(init_tracing(Some("checkout"), None), Ok(()));
    assert_eq!(
        init_tracing(Some("checkout"), None).unwrap_err().kind,
        InitErrorKind::AlreadyInitialized
    );
}
