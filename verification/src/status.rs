use vstd::prelude::*;

use crate::cell::ActivityCell;
use crate::cell::cell_activity;

verus! {

/// Internal status record for a registered thread, owned by the registry.
///
/// The activity cell is shared (not owned): the worker-side scope of the same
/// thread writes it, and snapshots read it.
pub struct RegisteredStatus {
    activity: ActivityCell,
    name: String,
    short_name: String,
}

impl RegisteredStatus {
    /// The full, introspection-only name of the thread.
    pub closed spec fn spec_name(&self) -> Seq<char> {
        self.name@
    }

    /// The short name of the thread, fit for the operating system's limits.
    pub closed spec fn spec_short_name(&self) -> Seq<char> {
        self.short_name@
    }

    /// The shared cell holding the thread's self-reported activity.
    pub closed spec fn spec_activity_cell(&self) -> ActivityCell {
        self.activity
    }

    pub fn new(name: String, short_name: String) -> (s: RegisteredStatus)
        ensures
            s.spec_name() == name@,
            s.spec_short_name() == short_name@,
            cell_activity(s.spec_activity_cell()) is None,
    {
        let activity = ActivityCell::new();
        RegisteredStatus { activity, name, short_name }
    }

    /// A shared handle on the thread's activity cell.
    pub fn activity(&self) -> (c: ActivityCell)
        ensures
            cell_activity(c) == cell_activity(self.spec_activity_cell()),
    {
        self.activity.share()
    }

    /// Overwrite the activity text held in the shared cell.
    pub fn set_activity(&mut self, value: Option<String>)
        ensures
            cell_activity(final(self).spec_activity_cell()) == value.deep_view(),
            final(self).spec_name() == old(self).spec_name(),
            final(self).spec_short_name() == old(self).spec_short_name(),
    {
        self.activity.store(value);
    }
}

/// Public view of a point-in-time status of a thread.
///
/// A snapshot copy with no lifecycle beyond the query that produced it:
/// registry mutations after the copy do not affect it. Equality is
/// structural.
#[derive(Clone, Debug, Eq, Hash)]
pub struct ThreadStatus {
    /// Description of the activity the thread itself last reported, if any.
    pub activity: Option<String>,

    /// Full name of the thread.
    pub name: String,

    /// Short name of the thread, the one fit to hand to the operating
    /// system.
    pub short_name: String,
}

impl ThreadStatus {
    /// Point-in-time copy of a registered thread's status.
    ///
    /// The names are copied from the record; the activity is whatever the
    /// shared cell holds at the moment of the copy, which the owning thread
    /// may overwrite at any time.
    pub fn snapshot_of(status: &RegisteredStatus) -> (s: ThreadStatus)
        ensures
            s.name@ == status.spec_name(),
            s.short_name@ == status.spec_short_name(),
    {
        let activity = status.activity.load();
        ThreadStatus { activity, name: status.name.clone(), short_name: status.short_name.clone() }
    }
}

impl PartialEq for ThreadStatus {
    fn eq(&self, other: &ThreadStatus) -> (r: bool) {
        let activity_eq: bool = match (&self.activity, &other.activity) {
            (Some(a), Some(b)) => *a == *b,
            (None, None) => true,
            _ => false,
        };
        activity_eq && self.name == other.name && self.short_name == other.short_name
    }
}

impl vstd::std_specs::cmp::PartialEqSpecImpl for ThreadStatus {
    open spec fn obeys_eq_spec() -> bool {
        true
    }

    open spec fn eq_spec(&self, other: &ThreadStatus) -> bool {
        &&& self.activity.deep_view() == other.activity.deep_view()
        &&& self.name@ == other.name@
        &&& self.short_name@ == other.short_name@
    }
}

impl From<&RegisteredStatus> for ThreadStatus {
    fn from(status: &RegisteredStatus) -> (s: ThreadStatus) {
        ThreadStatus::snapshot_of(status)
    }
}

/// The conversion cannot obey a `from_spec`: the activity field of the copy
/// is whatever the shared cell holds at the moment of the call, which no
/// function of the record alone can give. What the conversion does promise is
/// stated on [`ThreadStatus::snapshot_of`].
impl vstd::std_specs::convert::FromSpecImpl<&RegisteredStatus> for ThreadStatus {
    open spec fn obeys_from_spec() -> bool {
        false
    }

    open spec fn from_spec(status: &RegisteredStatus) -> ThreadStatus {
        vstd::pervasive::arbitrary()
    }
}

} // verus!
