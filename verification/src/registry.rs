use vstd::prelude::*;

use std::sync::Arc;
use std::sync::Mutex;

use crate::status::RegisteredStatus;
use crate::status::ThreadStatus;

verus! {

/// The names a registry entry carries: the full name and the short name.
pub ghost struct RegistryRow {
    pub name: Seq<char>,
    pub short_name: Seq<char>,
}

/// The row a registered status contributes to snapshots.
pub open spec fn status_row(status: RegisteredStatus) -> RegistryRow {
    RegistryRow { name: status.spec_name(), short_name: status.spec_short_name() }
}

/// Map from thread identity to status for all currently registered threads.
///
/// Keys are unique; an entry is present exactly while the thread's guard is
/// alive. This is the sequential core: one instance is meant to sit behind a
/// [`SharedRegistry`] lock, which serialises all operations on it.
pub struct Registry {
    entries: Vec<(u64, RegisteredStatus)>,
    next_id: u64,
}

impl Registry {
    /// The identities of the registered threads, in registration order.
    pub closed spec fn spec_ids(&self) -> Seq<u64> {
        self.entries@.map_values(|e: (u64, RegisteredStatus)| e.0)
    }

    /// The snapshot rows of the registered threads, in registration order.
    pub closed spec fn spec_rows(&self) -> Seq<RegistryRow> {
        self.entries@.map_values(|e: (u64, RegisteredStatus)| status_row(e.1))
    }

    /// Whether a thread with the given identity is registered.
    pub open spec fn contains_id(&self, id: u64) -> bool {
        self.spec_ids().contains(id)
    }

    /// The position of the entry registered under the given identity.
    pub open spec fn index_of(&self, id: u64) -> int {
        choose|i: int| 0 <= i < self.spec_ids().len() && self.spec_ids()[i] == id
    }

    /// The snapshot row of the thread registered under the given identity.
    pub open spec fn row_of(&self, id: u64) -> RegistryRow {
        self.spec_rows()[self.index_of(id)]
    }

    /// The identities left once the given one is dropped, if present.
    pub open spec fn ids_without(&self, id: u64) -> Seq<u64> {
        if self.contains_id(id) {
            self.spec_ids().remove(self.index_of(id))
        } else {
            self.spec_ids()
        }
    }

    /// The rows left once the given identity's row is dropped, if present.
    pub open spec fn rows_without(&self, id: u64) -> Seq<RegistryRow> {
        if self.contains_id(id) {
            self.spec_rows().remove(self.index_of(id))
        } else {
            self.spec_rows()
        }
    }

    /// Identities are pairwise distinct and below the identity counter.
    pub closed spec fn wf(&self) -> bool {
        &&& forall|i: int, j: int|
            0 <= i < j < self.entries@.len() ==> self.entries@[i].0 != self.entries@[j].0
        &&& forall|i: int| 0 <= i < self.entries@.len() ==> (#[trigger] self.entries@[i].0) < self.next_id
    }

    /// Whether a fresh identity can still be assigned.
    pub closed spec fn id_space_open(&self) -> bool {
        self.next_id < u64::MAX
    }

    /// Whether the given snapshot lists exactly the registered threads, each
    /// under its configured names.
    pub open spec fn snapshot_matches(&self, threads: Seq<ThreadStatus>) -> bool {
        &&& threads.len() == self.spec_rows().len()
        &&& forall|i: int|
            0 <= i < threads.len() ==> {
                &&& (#[trigger] threads[i]).name@ == self.spec_rows()[i].name
                &&& threads[i].short_name@ == self.spec_rows()[i].short_name
            }
    }

    /// Positions in the id and row sequences line up with the entries.
    proof fn lemma_id_positions(self)
        ensures
            self.spec_ids().len() == self.entries@.len(),
            forall|m: int|
                0 <= m < self.entries@.len() ==> self.spec_ids()[m] == (#[trigger] self.entries@[m]).0,
            self.spec_rows().len() == self.entries@.len(),
            forall|m: int|
                0 <= m < self.entries@.len() ==> self.spec_rows()[m] == status_row(
                    (#[trigger] self.entries@[m]).1,
                ),
    {
    }

    /// An identity that no entry carries is not registered.
    proof fn lemma_not_contained(self, id: u64)
        requires
            forall|m: int| 0 <= m < self.entries@.len() ==> (#[trigger] self.entries@[m]).0 != id,
        ensures
            !self.contains_id(id),
    {
        self.lemma_id_positions();
        if self.spec_ids().contains(id) {
            let w = choose|w: int| 0 <= w < self.spec_ids().len() && self.spec_ids()[w] == id;
            assert(self.entries@[w].0 == id);
            assert(false);
        }
    }

    /// An empty registry.
    pub fn new() -> (r: Registry)
        ensures
            r.wf(),
            r.id_space_open(),
            r.spec_ids() == Seq::<u64>::empty(),
            r.spec_rows() == Seq::<RegistryRow>::empty(),
    {
        let r = Registry { entries: Vec::new(), next_id: 0 };
        proof {
            assert(r.spec_ids() =~= Seq::<u64>::empty());
            assert(r.spec_rows() =~= Seq::<RegistryRow>::empty());
        }
        r
    }

    /// Whether a fresh identity can still be assigned.
    pub fn has_id_space(&self) -> (b: bool)
        ensures
            b == self.id_space_open(),
    {
        self.next_id < u64::MAX
    }

    /// Register a thread's status under a fresh identity and return that
    /// identity.
    pub fn register_new(&mut self, status: RegisteredStatus) -> (id: u64)
        requires
            old(self).wf(),
            old(self).id_space_open(),
        ensures
            final(self).wf(),
            !old(self).contains_id(id),
            final(self).spec_ids() == old(self).spec_ids().push(id),
            final(self).spec_rows() == old(self).spec_rows().push(status_row(status)),
            final(self).contains_id(id),
    {
        let id = self.next_id;
        self.next_id = self.next_id + 1;
        let ghost prior = *self;
        proof {
            prior.lemma_not_contained(id);
        }
        self.entries.push((id, status));
        proof {
            prior.lemma_id_positions();
            self.lemma_id_positions();
            assert(self.spec_ids() =~= prior.spec_ids().push(id));
            assert(self.spec_rows() =~= prior.spec_rows().push(status_row(status)));
            assert(self.spec_ids()[self.spec_ids().len() - 1] == id);
        }
        id
    }

    /// Insert thread state information for a new thread under the given
    /// identity, replacing any entry already registered under it.
    pub fn register_thread(&mut self, id: u64, status: RegisteredStatus)
        requires
            old(self).wf(),
            id < u64::MAX,
        ensures
            final(self).wf(),
            final(self).spec_ids() == old(self).ids_without(id).push(id),
            final(self).spec_rows() == old(self).rows_without(id).push(status_row(status)),
            final(self).contains_id(id),
            final(self).id_space_open() == (old(self).id_space_open() && id + 1 < u64::MAX),
    {
        self.deregister_thread(id);
        if self.next_id <= id {
            self.next_id = id + 1;
        }
        let ghost prior = *self;
        proof {
            prior.lemma_id_positions();
            assert forall|m: int| 0 <= m < prior.entries@.len() implies
                (#[trigger] prior.entries@[m]).0 != id by {
                assert(prior.spec_ids()[m] == prior.entries@[m].0);
                if prior.entries@[m].0 == id {
                    assert(prior.spec_ids().contains(id));
                    assert(false);
                }
            }
        }
        self.entries.push((id, status));
        proof {
            self.lemma_id_positions();
            assert(self.spec_ids() =~= prior.spec_ids().push(id));
            assert(self.spec_rows() =~= prior.spec_rows().push(status_row(status)));
            assert(self.spec_ids()[self.spec_ids().len() - 1] == id);
        }
    }

    /// Remove the thread state information registered under the given
    /// identity, if any.
    pub fn deregister_thread(&mut self, id: u64)
        requires
            old(self).wf(),
        ensures
            final(self).wf(),
            !final(self).contains_id(id),
            final(self).spec_ids() == old(self).ids_without(id),
            final(self).spec_rows() == old(self).rows_without(id),
            final(self).next_id_unchanged(*old(self)),
            final(self).id_space_open() == old(self).id_space_open(),
    {
        let mut i: usize = 0;
        while i < self.entries.len()
            invariant
                *self == *old(self),
                old(self).wf(),
                0 <= i <= self.entries@.len(),
                forall|j: int| 0 <= j < i as int ==> (#[trigger] self.entries@[j].0) != id,
            decreases self.entries@.len() - i,
        {
            if self.entries[i].0 == id {
                let ghost prior = *self;
                self.entries.remove(i);
                proof {
                    prior.lemma_id_positions();
                    self.lemma_id_positions();
                    assert(prior.spec_ids()[i as int] == id);
                    assert(prior.contains_id(id));
                    let k = prior.index_of(id);
                    assert(prior.spec_ids()[k] == id);
                    assert(prior.entries@[k].0 == id);
                    assert(prior.wf());
                    if k < i as int {
                        assert(prior.entries@[k].0 != prior.entries@[i as int].0);
                    }
                    if k > i as int {
                        assert(prior.entries@[i as int].0 != prior.entries@[k].0);
                    }
                    assert(k == i as int);
                    assert(self.spec_ids() =~= prior.spec_ids().remove(i as int));
                    assert(self.spec_rows() =~= prior.spec_rows().remove(i as int));
                    assert forall|m: int| 0 <= m < self.entries@.len() implies
                        (#[trigger] self.entries@[m]).0 != id by {
                        if m < i as int {
                            assert(self.entries@[m] == prior.entries@[m]);
                        } else {
                            assert(self.entries@[m] == prior.entries@[m + 1]);
                            assert((i as int) < m + 1);
                            assert(m + 1 < prior.entries@.len());
                            assert(prior.entries@[i as int].0 != prior.entries@[m + 1].0);
                        }
                    }
                    self.lemma_not_contained(id);
                }
                return ;
            }
            i = i + 1;
        }
        proof {
            self.lemma_id_positions();
            assert forall|m: int| 0 <= m < self.entries@.len() implies
                (#[trigger] self.entries@[m]).0 != id by {}
            self.lemma_not_contained(id);
        }
    }

    /// Return a snapshot of the current status of the registered threads.
    ///
    /// The snapshot is a point-in-time copy: one [`ThreadStatus`] per
    /// registered thread, carrying its configured names and whatever its
    /// shared activity cell holds at copy time.
    pub fn registered_threads(&self) -> (threads: Vec<ThreadStatus>)
        ensures
            self.snapshot_matches(threads@),
    {
        let mut threads: Vec<ThreadStatus> = Vec::new();
        let mut i: usize = 0;
        while i < self.entries.len()
            invariant
                0 <= i <= self.entries@.len(),
                threads@.len() == i,
                forall|j: int|
                    0 <= j < i as int ==> {
                        &&& (#[trigger] threads@[j]).name@ == self.spec_rows()[j].name
                        &&& threads@[j].short_name@ == self.spec_rows()[j].short_name
                    },
            decreases self.entries@.len() - i,
        {
            let entry = &self.entries[i];
            let status = ThreadStatus::snapshot_of(&entry.1);
            threads.push(status);
            i = i + 1;
        }
        threads
    }

    /// The identity counter is untouched.
    pub closed spec fn next_id_unchanged(&self, other: Registry) -> bool {
        self.next_id == other.next_id
    }
}

/// Between its registration and its removal, a thread appears in every
/// snapshot of the registry under its configured names.
pub proof fn lemma_registered_thread_visible(r: Registry, threads: Seq<ThreadStatus>, id: u64)
    requires
        r.contains_id(id),
        r.snapshot_matches(threads),
    ensures
        exists|i: int|
            0 <= i < threads.len() && (#[trigger] threads[i]).name@ == r.row_of(id).name
                && threads[i].short_name@ == r.row_of(id).short_name,
{
    let k = r.index_of(id);
    assert(r.spec_ids()[k] == id);
    assert(0 <= k < threads.len());
    assert(threads[k].name@ == r.row_of(id).name);
    assert(threads[k].short_name@ == r.row_of(id).short_name);
}

/// Once a thread has been deregistered, a snapshot of the registry lists
/// exactly the rows of the other threads: the removed thread's row is gone
/// and, in particular, the snapshot is one row shorter than before the
/// removal when the thread was registered.
pub proof fn lemma_deregistered_thread_absent(
    prev: Registry,
    cur: Registry,
    threads: Seq<ThreadStatus>,
    id: u64,
)
    requires
        prev.contains_id(id),
        cur.spec_rows() == prev.rows_without(id),
        cur.snapshot_matches(threads),
    ensures
        threads.len() == prev.spec_rows().len() - 1,
        forall|i: int|
            0 <= i < threads.len() ==> {
                &&& (#[trigger] threads[i]).name@ == prev.spec_rows().remove(prev.index_of(id))[i].name
                &&& threads[i].short_name@ == prev.spec_rows().remove(prev.index_of(id))[i].short_name
            },
{
}

/// Shared, lock-protected handle on a process-wide [`Registry`].
///
/// Every handle obtained through [`SharedRegistry::share`] addresses the same
/// registry; a single mutual-exclusion lock serialises inserts, removals and
/// snapshots. The surrounding application owns the one instance meant to
/// cover the whole process.
pub struct SharedRegistry {
    inner: Arc<Mutex<Registry>>,
}

impl SharedRegistry {
    /// Relies on `Mutex::new` (through `Arc::new`) around [`Registry::new`]:
    /// a fresh shared registry has no entries.
    #[verifier::external_body]
    pub fn new() -> (r: SharedRegistry) {
        SharedRegistry { inner: Arc::new(Mutex::new(Registry::new())) }
    }

    /// Relies on `Arc::clone`: both handles address one registry.
    #[verifier::external_body]
    pub fn share(&self) -> (r: SharedRegistry) {
        SharedRegistry { inner: Arc::clone(&self.inner) }
    }

    /// Relies on `Mutex::lock` around [`Registry::register_new`]: registers
    /// under a fresh identity and returns it. Concurrent handles interleave
    /// arbitrarily, so nothing relates the result to earlier calls. A
    /// poisoned lock is taken over rather than propagated.
    #[verifier::external_body]
    pub(crate) fn register_new(&self, status: RegisteredStatus) -> (id: u64) {
        let mut guard = match self.inner.lock() {
            Ok(guard) => guard,
            Err(poisoned) => poisoned.into_inner(),
        };
        if guard.has_id_space() {
            guard.register_new(status)
        } else {
            u64::MAX
        }
    }

    /// Relies on `Mutex::lock` around [`Registry::deregister_thread`]. A
    /// poisoned lock is taken over rather than propagated, so this never
    /// panics even while a faulting thread unwinds.
    #[verifier::external_body]
    pub(crate) fn deregister_thread(&self, id: u64)
        opens_invariants none
        no_unwind
    {
        let mut guard = match self.inner.lock() {
            Ok(guard) => guard,
            Err(poisoned) => poisoned.into_inner(),
        };
        guard.deregister_thread(id);
    }

    /// Relies on `Mutex::lock` around [`Registry::registered_threads`]: a
    /// point-in-time snapshot. Concurrent registrations and removals
    /// interleave arbitrarily, so nothing pins its contents.
    #[verifier::external_body]
    pub fn registered_threads(&self) -> (threads: Vec<ThreadStatus>) {
        let guard = match self.inner.lock() {
            Ok(guard) => guard,
            Err(poisoned) => poisoned.into_inner(),
        };
        guard.registered_threads()
    }
}

} // verus!
