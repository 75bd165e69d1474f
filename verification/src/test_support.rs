use vstd::prelude::*;

use crate::cell::ActivityCell;
use crate::cell::ShutdownFlag;
use crate::cell::cell_activity;
use crate::handles::ThreadScope;

verus! {

/// Fake the state behind a [`ThreadScope`] for use in tests.
///
/// The mock owns an activity cell and a shutdown flag of its own, without any
/// spawned thread: scopes handed out by [`MockThreadScope::scope`] share
/// them, so a test can drive a worker function directly and steer what
/// `should_shutdown` reports.
pub struct MockThreadScope {
    activity: ActivityCell,
    shutdown: ShutdownFlag,
}

impl MockThreadScope {
    /// The mock's shared activity cell.
    pub closed spec fn spec_activity_cell(&self) -> ActivityCell {
        self.activity
    }

    pub fn new() -> (m: MockThreadScope)
        ensures
            cell_activity(m.spec_activity_cell()) is None,
    {
        MockThreadScope { activity: ActivityCell::new(), shutdown: ShutdownFlag::new() }
    }

    /// Returns a `ThreadScope` backed by the state of this mock.
    pub fn scope(&self) -> (s: ThreadScope)
        ensures
            s@ is None,
            cell_activity(s.spec_activity_cell()) == cell_activity(self.spec_activity_cell()),
    {
        ThreadScope::new(self.activity.share(), self.shutdown.share())
    }

    /// Set the shutdown state that `ThreadScope::should_shutdown` will
    /// report on the scopes of this mock.
    pub fn set_shutdown(&self, value: bool) {
        self.shutdown.store(value);
    }
}

impl Default for MockThreadScope {
    fn default() -> (m: MockThreadScope)
        ensures
            cell_activity(m.spec_activity_cell()) is None,
    {
        MockThreadScope::new()
    }
}

} // verus!
