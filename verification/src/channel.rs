use vstd::prelude::*;

use core::time::Duration;
use crossbeam_channel::Receiver;
use crossbeam_channel::RecvTimeoutError;
use crossbeam_channel::Select;
use crossbeam_channel::SelectTimeoutError;
use crossbeam_channel::SelectedOperation;
use crossbeam_channel::Sender;
use crossbeam_channel::TrySendError;

verus! {

#[verifier::external_type_specification]
#[verifier::external_body]
#[verifier::reject_recursive_types(T)]
pub struct ExSender<T>(Sender<T>);

#[verifier::external_type_specification]
#[verifier::external_body]
#[verifier::reject_recursive_types(T)]
pub struct ExReceiver<T>(Receiver<T>);

#[verifier::external_type_specification]
#[verifier::external_body]
pub struct ExSelect<'a>(Select<'a>);

#[verifier::external_type_specification]
#[verifier::external_body]
pub struct ExSelectedOperation<'a>(SelectedOperation<'a>);

#[verifier::external_type_specification]
#[verifier::external_body]
pub struct ExSelectTimeoutError(SelectTimeoutError);

/// The identity of the receiving end of a join-check channel. Distinct
/// channels have distinct identities; moving or sharing a receiver keeps its
/// identity.
pub uninterp spec fn receiver_id(r: Receiver<()>) -> int;

/// The identities of the receivers registered in a wait set, in registration
/// order.
pub uninterp spec fn select_sources(select: Select) -> Seq<int>;

/// The identity of the receiver whose operation a selection completed for.
pub uninterp spec fn selected_source(operation: SelectedOperation) -> int;

/// The index of the operation a selection completed for.
pub uninterp spec fn selected_index(operation: SelectedOperation) -> int;

/// Outcome of a bounded wait on a join-check channel.
///
/// `Ready` covers both a received signal and a disconnected channel: either
/// way the worker has exited or is exiting, so a join will not block long.
pub(crate) enum WaitOutcome {
    Ready,
    TimedOut,
}

/// Relies on `Sender::try_send`: a single best-effort, non-blocking attempt
/// to signal; a full or disconnected channel is reported as `false`, never
/// raised.
#[verifier::external_body]
pub(crate) fn try_send_signal(sender: &Sender<()>) -> (sent: bool)
    opens_invariants none
    no_unwind
{
    match sender.try_send(()) {
        Ok(()) => true,
        Err(TrySendError::Full(())) => false,
        Err(TrySendError::Disconnected(())) => false,
    }
}

/// Relies on `Receiver::recv_timeout`: waits for the join-check signal up to
/// the given duration. The outcome depends on timing and on the sender side,
/// so nothing pins it.
#[verifier::external_body]
pub(crate) fn wait_join_check(receiver: &Receiver<()>, timeout: Duration) -> (w: WaitOutcome) {
    match receiver.recv_timeout(timeout) {
        Ok(()) => WaitOutcome::Ready,
        Err(RecvTimeoutError::Timeout) => WaitOutcome::TimedOut,
        Err(RecvTimeoutError::Disconnected) => WaitOutcome::Ready,
    }
}

/// Relies on `Select::recv`: adds a receive operation for the given receiver
/// and returns its index; a wait set numbers its operations upward from zero
/// in registration order.
#[verifier::external_body]
pub(crate) fn select_add_recv<'a>(select: &mut Select<'a>, receiver: &'a Receiver<()>) -> (idx:
    usize)
    ensures
        select_sources(*final(select)) == select_sources(*old(select)).push(receiver_id(*receiver)),
        idx as int == select_sources(*old(select)).len(),
{
    select.recv(receiver)
}

/// Relies on `SelectedOperation::recv`: completes the receive operation the
/// selection picked. The receiver must be the very one whose operation was
/// selected, else the callee panics, so that case is left out. The result
/// says whether a signal was received (`true`) or the channel was already
/// disconnected (`false`); either way the worker has exited or is exiting.
#[verifier::external_body]
pub(crate) fn complete_selected_recv(operation: SelectedOperation<'_>, receiver: &Receiver<()>) -> (got:
    bool)
    requires
        selected_source(operation) == receiver_id(*receiver),
{
    operation.recv(receiver).is_ok()
}

/// Relies on `Select::select_timeout`: blocks until one of the registered
/// operations becomes ready, or until the timeout elapses. Which operation
/// wins depends on timing, but a selected operation is always one of the
/// registered ones, at its registration index.
pub assume_specification<'a>[ Select::<'a>::select_timeout ](
    select: &mut Select<'a>,
    timeout: Duration,
) -> (r: Result<SelectedOperation<'a>, SelectTimeoutError>)
    ensures
        select_sources(*final(select)) == select_sources(*old(select)),
        match r {
            Ok(operation) => {
                &&& 0 <= selected_index(operation) < select_sources(*old(select)).len()
                &&& selected_source(operation) == select_sources(*old(select))[selected_index(
                    operation,
                )]
            },
            Err(timed_out) => true,
        },
;

/// Relies on `SelectedOperation::index`: the registration index of the
/// operation the selection completed for.
pub assume_specification<'a>[ SelectedOperation::<'a>::index ](
    operation: &SelectedOperation<'a>,
) -> (idx: usize)
    ensures
        idx as int == selected_index(*operation),
;

} // verus!
