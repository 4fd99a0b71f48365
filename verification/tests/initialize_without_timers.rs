use request_tracing::init_tracing;

#[test]
fn initialization_inside_a_runtime_without_timers() {
    let runtime = tokio::runtime::Builder::new_current_thread().build().unwrap();
    let _inside = runtime.enter();
    assert_eq!(init_tracing(None, None), Ok(()));
}
