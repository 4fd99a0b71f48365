use request_tracing::{init_tracing, InitErrorKind};

#[test]
fn second_initialization_is_an_error() {
    let runtime = tokio::runtime::Runtime::new().unwrap();
    let _inside = runtime.enter();
    assert_eq!(init_tracing(Some("checkout"), None), Ok(()));

    let second = init_tracing(Some("checkout"), None).unwrap_err();
    assert_eq!(second.kind, InitErrorKind::AlreadyInitialized);
    assert_eq!(second.cause, "a global default trace dispatcher has already been set");

    let third = init_tracing(None, Some("http://localhost:4317")).unwrap_err();
    assert_eq!(third.kind, InitErrorKind::AlreadyInitialized);
}
