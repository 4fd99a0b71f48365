use request_tracing::{init_tracing, InitErrorKind};

#[test]
fn endpoint_that_is_no_address_is_an_error() {
    let runtime = tokio::runtime::Runtime::new().unwrap();
    let _inside = runtime.enter();
    let error = init_tracing(None, Some("no address at all")).unwrap_err();
    assert_eq!(error.kind, InitErrorKind::Exporter);
    assert!(!error.cause.is_empty());
    println!("{}", error.cause);
}
