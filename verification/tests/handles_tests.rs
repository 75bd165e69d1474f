use std::time::Duration;

use crossbeam_channel::Select;
use crossbeam_channel::bounded;

use humthreads::ActivityCell;
use humthreads::ErrorKind;
use humthreads::ShutdownFlag;
use humthreads::Thread;
use humthreads::ThreadScope;

#[test]
fn join_is_single_use() {
    let (sender, receiver) = bounded::<()>(1);
    let mut thread = Thread::new(receiver, ShutdownFlag::new());
    sender.send(()).expect("signal send");
    assert_eq!(Ok(()), thread.join());
    assert_eq!(Err(ErrorKind::JoinedAlready), thread.join());
    assert_eq!(Err(ErrorKind::JoinedAlready), thread.join());
}

#[test]
fn join_timeout() {
    let (sender, receiver) = bounded::<()>(1);
    let mut thread = Thread::new(receiver, ShutdownFlag::new());

    // No signal yet: the wait elapses and the join capability stays intact.
    let result = thread.join_timeout(Duration::from_millis(15));
    assert_eq!(Err(ErrorKind::JoinTimeout), result);

    // Once the worker signals, the claim goes through.
    sender.send(()).expect("signal send");
    assert_eq!(Ok(()), thread.join_timeout(Duration::from_millis(15)));

    // While the sender is alive and silent, another bounded wait still times
    // out; once the sender is gone, the exhausted claim shows through.
    assert_eq!(
        Err(ErrorKind::JoinTimeout),
        thread.join_timeout(Duration::from_millis(15))
    );
    drop(sender);
    assert_eq!(
        Err(ErrorKind::JoinedAlready),
        thread.join_timeout(Duration::from_millis(15))
    );
}

#[test]
fn join_timeout_after_sender_gone() {
    let (sender, receiver) = bounded::<()>(1);
    let mut thread = Thread::new(receiver, ShutdownFlag::new());
    drop(sender);
    // A disconnected sender also means the thread exited.
    assert_eq!(Ok(()), thread.join_timeout(Duration::from_millis(15)));
}

#[test]
fn request_shutdown() {
    let (_sender, receiver) = bounded::<()>(1);
    let flag = ShutdownFlag::new();
    // The handle and the worker scope share the flag, as the spawn wiring
    // shares it between the two sides.
    let thread = Thread::new(receiver, flag.share());
    let scope = ThreadScope::new(ActivityCell::new(), flag.share());
    assert_eq!(false, scope.should_shutdown());
    thread.request_shutdown();
    assert_eq!(true, scope.should_shutdown());
    // The request is idempotent.
    thread.request_shutdown();
    assert_eq!(true, scope.should_shutdown());
}

#[test]
fn select_interface() {
    let (sender, receiver) = bounded::<()>(1);
    let mut thread = Thread::new(receiver, ShutdownFlag::new());
    sender.send(()).expect("signal send");

    let mut set = Select::new();
    let idx = thread.select_add(&mut set);
    let op = set
        .select_timeout(Duration::from_millis(30))
        .expect("selection to find the thread");
    assert_eq!(idx, op.index());
    thread.select_complete(op);
    drop(set);
    assert_eq!(Ok(()), thread.join());
    assert_eq!(0, idx);
}

#[test]
fn select_multiple_threads() {
    let (_sender1, receiver1) = bounded::<()>(1);
    let (sender2, receiver2) = bounded::<()>(1);
    let mut thread1 = Thread::new(receiver1, ShutdownFlag::new());
    let mut thread2 = Thread::new(receiver2, ShutdownFlag::new());

    // Only the second worker signals within the wait.
    sender2.send(()).expect("signal send");

    let mut set = Select::new();
    thread1.select_add(&mut set);
    thread2.select_add(&mut set);
    let op = set
        .select_timeout(Duration::from_millis(30))
        .expect("selection to find the second thread");
    let idx = op.index();
    thread2.select_complete(op);
    drop(set);
    assert_eq!(1, idx);
    assert_eq!(Ok(()), thread2.join());

    // The first handle is still unjoined: its claim is still available.
    assert_eq!(
        Err(ErrorKind::JoinTimeout),
        thread1.join_timeout(Duration::from_millis(1))
    );
    assert_eq!(Ok(()), thread1.join());
}

#[test]
fn select_ready_interface() {
    let (sender, receiver) = bounded::<()>(1);
    let mut thread = Thread::new(receiver, ShutdownFlag::new());
    sender.send(()).expect("signal send");

    let mut set = Select::new();
    thread.select_add(&mut set);
    let idx = set
        .ready_timeout(Duration::from_millis(30))
        .expect("readiness to find the thread");
    assert_eq!(0, idx);
    assert_eq!(Ok(()), thread.join_timeout(Duration::from_millis(10)));
}
