use vstd::prelude::*;

use core::time::Duration;
use crossbeam_channel::Receiver;
use crossbeam_channel::Select;
use crossbeam_channel::SelectedOperation;
use crossbeam_channel::Sender;

use crate::cell::ActivityCell;
use crate::cell::ShutdownFlag;
use crate::cell::cell_activity;
use crate::channel::WaitOutcome;
use crate::channel::complete_selected_recv;
use crate::channel::receiver_id;
use crate::channel::select_add_recv;
use crate::channel::select_sources;
use crate::channel::selected_source;
use crate::channel::try_send_signal;
use crate::channel::wait_join_check;
use crate::error::ErrorKind;
use crate::registry::SharedRegistry;
use crate::status::RegisteredStatus;

verus! {

/// Additional metadata and state for a specific thread.
///
/// A [`ThreadScope`] is the handle a worker thread has on itself: through it
/// the worker polls for shutdown requests and reports what it is currently
/// doing. The scope is the only writer of its activity cell; its view
/// ([`ThreadScope::view`]) is the activity it last reported, `None` when
/// idle.
pub struct ThreadScope {
    activity: ActivityCell,
    shutdown: ShutdownFlag,
    current: Option<String>,
}

impl View for ThreadScope {
    type V = Option<Seq<char>>;

    /// The activity this scope last reported, `None` when idle.
    closed spec fn view(&self) -> Option<Seq<char>> {
        self.current.deep_view()
    }
}

impl ThreadScope {
    /// The shared cell into which this scope writes its reports.
    pub closed spec fn spec_activity_cell(&self) -> ActivityCell {
        self.activity
    }

    /// A scope over the given shared cell and flag, reporting no activity.
    pub fn new(activity: ActivityCell, shutdown: ShutdownFlag) -> (s: ThreadScope)
        ensures
            s@ is None,
            s.spec_activity_cell() == activity,
    {
        ThreadScope { activity, shutdown, current: None }
    }

    /// Report the current thread activity, overwriting the previous report.
    ///
    /// This information becomes accessible through registry snapshots, to aid
    /// the application's end users in understanding what each thread is
    /// working on.
    pub fn activity(&mut self, activity: &str)
        ensures
            final(self)@ == Some(activity@),
            cell_activity(final(self).spec_activity_cell()) == Some(activity@),
    {
        let text = activity.to_owned();
        self.activity.store(Some(text.clone()));
        self.current = Some(text);
    }

    /// Clear any previously reported activity.
    pub fn idle(&mut self)
        ensures
            final(self)@ is None,
            cell_activity(final(self).spec_activity_cell()) is None,
    {
        self.activity.store(None);
        self.current = None;
    }

    /// Report the given activity for the duration of a scope.
    ///
    /// The returned guard captures the report that was current at this call;
    /// releasing the guard with [`ThreadScopeActivityGuard::restore`] puts
    /// that report back, exactly, including `None` when the thread was idle.
    pub fn scoped_activity(&mut self, activity: &str) -> (guard: ThreadScopeActivityGuard)
        ensures
            final(self)@ == Some(activity@),
            cell_activity(final(self).spec_activity_cell()) == Some(activity@),
            guard.saved() == old(self)@,
    {
        let previous = self.current.take();
        let text = activity.to_owned();
        self.activity.store(Some(text.clone()));
        self.current = Some(text);
        ThreadScopeActivityGuard { previous }
    }

    /// Check if the thread was requested to shut down.
    ///
    /// The flag is shared with the parent-side handle, which may set it at
    /// any moment, so nothing pins the result; once the parent has requested
    /// a shutdown, polling eventually observes `true`.
    pub fn should_shutdown(&self) -> bool {
        self.shutdown.load()
    }
}

/// Token for a "scoped activity" of a thread.
///
/// Created by [`ThreadScope::scoped_activity`]; holds the report that was
/// current when the scope began. Releasing the guard through
/// [`ThreadScopeActivityGuard::restore`] reverts the thread's reported
/// activity to that value. Nesting works to arbitrary depth as long as guards
/// are released in the reverse order of their creation.
pub struct ThreadScopeActivityGuard {
    previous: Option<String>,
}

impl ThreadScopeActivityGuard {
    /// The report that was current when this guard was created.
    pub closed spec fn saved(&self) -> Option<Seq<char>> {
        self.previous.deep_view()
    }

    /// Revert the scope's reported activity to the report captured at this
    /// guard's creation.
    pub fn restore(self, scope: &mut ThreadScope)
        ensures
            final(scope)@ == self.saved(),
            cell_activity(final(scope).spec_activity_cell()) == self.saved(),
    {
        match self.previous {
            Some(text) => {
                scope.activity.store(Some(text.clone()));
                scope.current = Some(text);
            },
            None => {
                scope.activity.store(None);
                scope.current = None;
            },
        }
    }
}

/// Nested scoped activities restore in reverse order of creation.
///
/// Starting from any reported activity, opening a scope for `a` and, inside
/// it, a scope for `b`, the thread reports `b`; releasing the inner guard
/// brings the report back to `a`; releasing the outer guard brings back
/// exactly the report that was current before both, including "no activity".
/// The steps are related here as [`ThreadScope::scoped_activity`] and
/// [`ThreadScopeActivityGuard::restore`] relate them in their contracts.
pub proof fn lemma_scoped_activity_nesting(
    start: ThreadScope,
    outer_guard: ThreadScopeActivityGuard,
    in_outer: ThreadScope,
    inner_guard: ThreadScopeActivityGuard,
    in_inner: ThreadScope,
    after_inner: ThreadScope,
    after_outer: ThreadScope,
    a: Seq<char>,
    b: Seq<char>,
)
    requires
        in_outer@ == Some(a),
        outer_guard.saved() == start@,
        in_inner@ == Some(b),
        inner_guard.saved() == in_outer@,
        after_inner@ == inner_guard.saved(),
        after_outer@ == outer_guard.saved(),
    ensures
        in_inner@ == Some(b),
        after_inner@ == Some(a),
        after_outer@ == start@,
{
}

/// Thread lifecycle guard.
///
/// Created at the start of a spawned thread's body and dropped only when the
/// thread exits, whether by a normal return or by unwinding after a fault.
/// Construction registers the thread in the shared registry, when one is
/// attached; destruction removes the entry again and makes one best-effort
/// attempt to signal the
/// join-check channel, so a waiting parent can tell "exited" from "still
/// running". Because the drop runs on every exit path, the registry never
/// retains an entry for a finished thread.
pub(crate) struct ThreadGuard {
    id: u64,
    join_check: Sender<()>,
    registry: Option<SharedRegistry>,
}

impl ThreadGuard {
    pub(crate) fn new(
        join_check: Sender<()>,
        status: RegisteredStatus,
        registry: Option<SharedRegistry>,
    ) -> (g: ThreadGuard) {
        let id: u64 = match &registry {
            Some(shared) => shared.register_new(status),
            None => 0,
        };
        ThreadGuard { id, join_check, registry }
    }
}

impl Drop for ThreadGuard {
    /// Signal the parent that this thread is exiting, best-effort, then
    /// remove the thread's registry entry.
    fn drop(&mut self)
        opens_invariants none
        no_unwind
    {
        let _ = try_send_signal(&self.join_check);
        match &self.registry {
            Some(shared) => shared.deregister_thread(self.id),
            None => (),
        }
    }
}

/// Verified core of a parent-side handle on a spawned thread.
///
/// It owns the single-use join capability of the thread, the receiving end
/// of the join-check channel, and the shared shutdown flag. The blocking
/// OS-level join itself is outside work the host performs: the join methods
/// here decide, exactly once, who may perform it. `Ok(())` from a join method
/// grants the caller the exclusive right to that one OS-level join; every
/// later claim fails with `JoinedAlready`.
pub struct Thread {
    joined: bool,
    join_check: Receiver<()>,
    shutdown: ShutdownFlag,
}

impl Thread {
    /// Whether the single-use join capability has been consumed.
    pub closed spec fn joined(&self) -> bool {
        self.joined
    }

    /// The identity of this handle's join-check receiver, as registered into
    /// wait sets by [`Thread::select_add`].
    pub closed spec fn spec_check_id(&self) -> int {
        receiver_id(self.join_check)
    }

    /// A fresh handle core over the given join-check receiver and shutdown
    /// flag, its join capability unconsumed.
    pub fn new(join_check: Receiver<()>, shutdown: ShutdownFlag) -> (t: Thread)
        ensures
            !t.joined(),
            t.spec_check_id() == receiver_id(join_check),
    {
        Thread { joined: false, join_check, shutdown }
    }

    /// Claim the single-use join capability.
    ///
    /// The first call returns `Ok(())`: the caller now holds the exclusive
    /// right to perform the one blocking OS-level join and collect the
    /// worker's result. Every later call returns `JoinedAlready` and leaves
    /// the handle unchanged.
    pub fn join(&mut self) -> (r: Result<(), ErrorKind>)
        ensures
            old(self).joined() ==> *final(self) == *old(self) && r == Err::<(), ErrorKind>(
                ErrorKind::JoinedAlready,
            ),
            !old(self).joined() ==> final(self).joined() && r == Ok::<(), ErrorKind>(()),
            final(self).spec_check_id() == old(self).spec_check_id(),
    {
        if self.joined {
            Err(ErrorKind::JoinedAlready)
        } else {
            self.joined = true;
            Ok(())
        }
    }

    /// Similar to [`Thread::join`] but does not wait forever.
    ///
    /// First waits on the join-check signal up to `timeout`: if the signal
    /// does not arrive in time, returns `JoinTimeout` without consuming the
    /// join capability, so a later join may still succeed. Once the signal
    /// arrives (or its sender is gone, which also means the thread exited),
    /// the claim proceeds as in [`Thread::join`].
    pub fn join_timeout(&mut self, timeout: Duration) -> (r: Result<(), ErrorKind>)
        ensures
            match r {
                Ok(granted) => !old(self).joined() && final(self).joined(),
                Err(kind) => {
                    ||| (kind == ErrorKind::JoinTimeout && *final(self) == *old(self))
                    ||| (kind == ErrorKind::JoinedAlready && old(self).joined() && *final(self)
                        == *old(self))
                },
            },
            final(self).spec_check_id() == old(self).spec_check_id(),
    {
        match wait_join_check(&self.join_check, timeout) {
            WaitOutcome::TimedOut => Err(ErrorKind::JoinTimeout),
            WaitOutcome::Ready => self.join(),
        }
    }

    /// Signal the thread that it should terminate as soon as possible.
    ///
    /// Idempotent, non-blocking, and strictly advisory: the worker must poll
    /// [`ThreadScope::should_shutdown`] for the request to have any effect.
    pub fn request_shutdown(&self) {
        self.shutdown.request();
    }

    /// Add this handle's join-check receiver to a wait set and return the
    /// index of the added operation.
    pub fn select_add<'a>(&'a self, select: &mut Select<'a>) -> (idx: usize)
        ensures
            select_sources(*final(select)) == select_sources(*old(select)).push(
                self.spec_check_id(),
            ),
            idx as int == select_sources(*old(select)).len(),
    {
        select_add_recv(select, &self.join_check)
    }

    /// Completes a receive operation that a wait set selected for this
    /// handle.
    ///
    /// The operation must have been selected for this very handle (at the
    /// index returned by [`Thread::select_add`]). Whatever the operation's
    /// outcome — the signal, or a disconnected channel — it indicates the
    /// thread's exit; once the wait set is released, [`Thread::join`]
    /// finishes the join.
    pub fn select_complete(&self, operation: SelectedOperation<'_>)
        requires
            selected_source(operation) == self.spec_check_id(),
    {
        let _ = complete_selected_recv(operation, &self.join_check);
    }
}

} // verus!
