use humthreads::MockThreadScope;
use humthreads::RegisteredStatus;
use humthreads::Registry;
use humthreads::ShutdownFlag;
use humthreads::ThreadScope;
use humthreads::ThreadStatus;

fn find_status(threads: Vec<ThreadStatus>, name: &str) -> Option<ThreadStatus> {
    threads.into_iter().find(|t| t.name == name)
}

#[test]
fn activity() {
    let mut registry = Registry::new();
    let status = RegisteredStatus::new("activity".into(), "activity".into());
    let mut scope = ThreadScope::new(status.activity(), ShutdownFlag::new());
    registry.register_thread(1, status);

    scope.activity("testing activity API");
    let threads = registry.registered_threads();

    let thread = find_status(threads, "activity").expect("test thread not found");
    assert_eq!(Some("testing activity API".into()), thread.activity);
}

#[test]
fn idle() {
    let mut registry = Registry::new();
    let status = RegisteredStatus::new("idle".into(), "idle".into());
    let mut scope = ThreadScope::new(status.activity(), ShutdownFlag::new());
    registry.register_thread(1, status);

    scope.activity("testing activity API");
    scope.idle();
    let threads = registry.registered_threads();

    let thread = find_status(threads, "idle").expect("test thread not found");
    assert_eq!(None, thread.activity);
}

#[test]
fn scoped_activity() {
    let mut registry = Registry::new();
    let status = RegisteredStatus::new("scoped_activity".into(), "scoped_activity".into());
    let mut scope = ThreadScope::new(status.activity(), ShutdownFlag::new());
    registry.register_thread(1, status);

    let start = registry.registered_threads();
    let scope1 = scope.scoped_activity("scope1");
    let scope1_in = registry.registered_threads();
    let scope2 = scope.scoped_activity("scope2");
    let scope2_in = registry.registered_threads();
    scope2.restore(&mut scope);
    let scope2_out = registry.registered_threads();
    scope1.restore(&mut scope);
    let scope1_out = registry.registered_threads();
    let scope3 = scope.scoped_activity("scope3");
    let scope3_in = registry.registered_threads();
    scope3.restore(&mut scope);
    let scope3_out = registry.registered_threads();

    let status = find_status(start, "scoped_activity").expect("test thread not found");
    assert_eq!(None, status.activity);
    let status = find_status(scope1_in, "scoped_activity").expect("test thread not found");
    assert_eq!(Some("scope1".into()), status.activity);
    let status = find_status(scope2_in, "scoped_activity").expect("test thread not found");
    assert_eq!(Some("scope2".into()), status.activity);
    let status = find_status(scope2_out, "scoped_activity").expect("test thread not found");
    assert_eq!(Some("scope1".into()), status.activity);
    let status = find_status(scope1_out, "scoped_activity").expect("test thread not found");
    assert_eq!(None, status.activity);
    let status = find_status(scope3_in, "scoped_activity").expect("test thread not found");
    assert_eq!(Some("scope3".into()), status.activity);
    let status = find_status(scope3_out, "scoped_activity").expect("test thread not found");
    assert_eq!(None, status.activity);
}

#[test]
fn mock_scope_shutdown() {
    let mock = MockThreadScope::new();
    let scope = mock.scope();
    assert_eq!(false, scope.should_shutdown());
    mock.set_shutdown(true);
    assert_eq!(true, scope.should_shutdown());
    mock.set_shutdown(false);
    assert_eq!(false, scope.should_shutdown());
}

#[test]
fn mock_scope_default() {
    let mock = MockThreadScope::default();
    let scope = mock.scope();
    assert_eq!(false, scope.should_shutdown());
}

#[test]
fn registry_lifecycle_sequential() {
    let mut registry = Registry::new();
    let status = RegisteredStatus::new(
        "thread registration lifecycle long".into(),
        "thread_registration_lifecycle".into(),
    );
    registry.register_thread(7, status);

    let running = registry.registered_threads();
    let entry = running
        .into_iter()
        .find(|t| t.short_name == "thread_registration_lifecycle");
    assert_eq!(true, entry.is_some());
    assert_eq!("thread registration lifecycle long", entry.unwrap().name);

    registry.deregister_thread(7);
    let stopped = registry.registered_threads();
    let entry = stopped
        .into_iter()
        .find(|t| t.short_name == "thread_registration_lifecycle");
    assert_eq!(false, entry.is_some());
}

#[test]
fn registry_replaces_same_identity() {
    let mut registry = Registry::new();
    registry.register_thread(1, RegisteredStatus::new("first".into(), "a".into()));
    registry.register_thread(1, RegisteredStatus::new("second".into(), "b".into()));
    let threads = registry.registered_threads();
    assert_eq!(1, threads.len());
    assert_eq!("second", threads[0].name);
    assert_eq!("b", threads[0].short_name);
}
