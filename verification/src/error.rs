use vstd::prelude::*;

verus! {

/// Exhaustive list of the failure kinds reported by this crate.
///
/// The cause, not the recovery, distinguishes the kinds: a `Join` is a worker
/// fault, a `JoinTimeout` is transient and the handle stays usable, a
/// `JoinedAlready` is a caller-logic error, and a `Spawn` is the operating
/// system refusing to create a thread.
#[derive(Clone, Copy, Debug, PartialEq, Eq, Hash, Structural)]
pub enum ErrorKind {
    /// The worker function ended by an unrecoverable fault instead of a
    /// normal return.
    Join,
    /// The configured wait elapsed before the worker signalled completion;
    /// a later join attempt may still succeed.
    JoinTimeout,
    /// The handle's single-use join capability was consumed by an earlier
    /// call.
    JoinedAlready,
    /// The operating system refused to create a new thread.
    Spawn,
}

impl ErrorKind {
    /// A short human-readable description of the failure kind.
    pub fn message(&self) -> (m: &'static str)
        ensures
            *self == ErrorKind::Join ==> m@ == "unable to join thread"@,
            *self == ErrorKind::JoinTimeout ==> m@ == "thread did not stop within the allotted time"@,
            *self == ErrorKind::JoinedAlready ==> m@ == "thread already joined"@,
            *self == ErrorKind::Spawn ==> m@ == "unable to spawn new thread"@,
    {
        match self {
            ErrorKind::Join => "unable to join thread",
            ErrorKind::JoinTimeout => "thread did not stop within the allotted time",
            ErrorKind::JoinedAlready => "thread already joined",
            ErrorKind::Spawn => "unable to spawn new thread",
        }
    }
}

} // verus!
