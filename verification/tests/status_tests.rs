use humthreads::ErrorKind;
use humthreads::RegisteredStatus;
use humthreads::ThreadStatus;

#[test]
fn from_register() {
    let register = RegisteredStatus::new("long name".into(), "name".into());
    let status = ThreadStatus::from(&register);
    assert_eq!(status.activity, None);
    assert_eq!(status.name, "long name");
    assert_eq!(status.short_name, "name");
}

#[test]
fn report_activity() {
    let mut register = RegisteredStatus::new("long name".into(), "name".into());
    register.set_activity(Some("test".into()));
    let status = ThreadStatus::from(&register);
    assert_eq!(status.activity, Some("test".into()));
}

#[test]
fn clear_activity() {
    let mut register = RegisteredStatus::new("long name".into(), "name".into());
    register.set_activity(Some("test".into()));
    register.set_activity(None);
    let status = ThreadStatus::from(&register);
    assert_eq!(status.activity, None);
}

#[test]
fn status_equality_is_structural() {
    let mut left = RegisteredStatus::new("long name".into(), "name".into());
    let mut right = RegisteredStatus::new("long name".into(), "name".into());
    assert_eq!(ThreadStatus::from(&left), ThreadStatus::from(&right));
    left.set_activity(Some("busy".into()));
    assert_ne!(ThreadStatus::from(&left), ThreadStatus::from(&right));
    right.set_activity(Some("busy".into()));
    assert_eq!(ThreadStatus::from(&left), ThreadStatus::from(&right));
}

#[test]
fn error_kind_messages() {
    assert_eq!(ErrorKind::Join.message(), "unable to join thread");
    assert_eq!(
        ErrorKind::JoinTimeout.message(),
        "thread did not stop within the allotted time"
    );
    assert_eq!(ErrorKind::JoinedAlready.message(), "thread already joined");
    assert_eq!(ErrorKind::Spawn.message(), "unable to spawn new thread");
}
