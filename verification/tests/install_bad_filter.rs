use request_tracing::{install, InitErrorKind, TracingConfig};

#[test]
fn malformed_directives_are_an_error() {
    let runtime = tokio::runtime::Runtime::new().unwrap();
    let _inside = runtime.enter();
    let mut config = TracingConfig::resolve(None, None);
    config.filter = String::from("info,!otel");
    let error = install(&config).unwrap_err();
    assert_eq!(error.kind, InitErrorKind::Filter);
    assert_eq!(error.cause, "invalid filter directive");
}
