use request_tracing::{install, InitError, InitErrorKind, TracingConfig};

#[test]
fn directives_outside_ascii_are_an_error() {
    let runtime = tokio::runtime::Runtime::new().unwrap();
    let _inside = runtime.enter();
    let mut config = TracingConfig::resolve(None, None);
    config.filter = String::from(" \u{e9}=info");
    assert_eq!(
        install(&config),
        Err(InitError {
            kind: InitErrorKind::Filter,
            cause: String::from("the filter directives hold a character outside ASCII"),
        })
    );

    config.filter = String::from("info,caf\u{e9}=debug");
    assert_eq!(install(&config).unwrap_err().kind, InitErrorKind::Filter);
}
