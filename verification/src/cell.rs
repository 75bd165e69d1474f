use vstd::prelude::*;

use std::sync::Arc;
use std::sync::Mutex;
use std::sync::atomic::AtomicBool;
use std::sync::atomic::Ordering;

verus! {

#[verifier::external_type_specification]
#[verifier::external_body]
#[verifier::reject_recursive_types(T)]
pub struct ExMutex<T: ?Sized>(Mutex<T>);

/// Shared cell carrying a thread's self-reported activity text.
///
/// The cell is co-owned by the worker-side [`ThreadScope`](crate::ThreadScope)
/// (the only writer) and by the registry entry of the thread (a reader taking
/// point-in-time copies for snapshots).
pub struct ActivityCell {
    cell: Arc<Mutex<Option<String>>>,
}

/// The text the shared activity cell held when this handle value was made.
/// Another thread holding a handle of its own may overwrite the cell at any
/// later moment; only [`ActivityCell::store`] pins this for the new handle.
pub uninterp spec fn cell_activity(cell: ActivityCell) -> Option<Seq<char>>;

impl ActivityCell {
    /// Relies on `Mutex::new` (through `Arc::new`): a fresh cell holds no
    /// activity text.
    #[verifier::external_body]
    pub fn new() -> (c: ActivityCell)
        ensures
            cell_activity(c) == Option::<Seq<char>>::None,
    {
        ActivityCell { cell: Arc::new(Mutex::new(None)) }
    }

    /// Relies on `Arc::clone`: both handles address one cell, which holds one
    /// text at the moment of sharing.
    #[verifier::external_body]
    pub(crate) fn share(&self) -> (c: ActivityCell)
        ensures
            cell_activity(c) == cell_activity(*self),
    {
        ActivityCell { cell: Arc::clone(&self.cell) }
    }

    /// Relies on `Mutex::lock`: overwrites the held text. A poisoned lock is
    /// taken over rather than propagated, so this never panics.
    #[verifier::external_body]
    pub(crate) fn store(&mut self, value: Option<String>)
        ensures
            cell_activity(*final(self)) == value.deep_view(),
        no_unwind
    {
        let mut guard = match self.cell.lock() {
            Ok(guard) => guard,
            Err(poisoned) => poisoned.into_inner(),
        };
        *guard = value;
    }

    /// Relies on `Mutex::lock`: a point-in-time copy of the held text.
    /// Another thread may write the cell at any moment, so nothing relates
    /// the copy to earlier values of this handle.
    #[verifier::external_body]
    pub(crate) fn load(&self) -> (value: Option<String>) {
        let guard = match self.cell.lock() {
            Ok(guard) => guard,
            Err(poisoned) => poisoned.into_inner(),
        };
        guard.clone()
    }
}

/// Shared boolean flag through which a parent handle asks its worker thread
/// to stop.
///
/// The flag starts `false` and is only ever set by the parent side; the
/// worker polls it. It is advisory: nothing forces the worker to look. Reads
/// and writes use relaxed atomic ordering, so no visibility bound can be
/// stated; a worker observes a request eventually, assuming it polls.
pub struct ShutdownFlag {
    flag: Arc<AtomicBool>,
}

impl ShutdownFlag {
    /// Relies on `AtomicBool::new` (through `Arc::new`): a fresh flag reads
    /// `false` until some handle stores into it.
    #[verifier::external_body]
    pub fn new() -> (f: ShutdownFlag) {
        ShutdownFlag { flag: Arc::new(AtomicBool::new(false)) }
    }

    /// Relies on `Arc::clone`: both handles address one flag.
    #[verifier::external_body]
    pub fn share(&self) -> (f: ShutdownFlag) {
        ShutdownFlag { flag: Arc::clone(&self.flag) }
    }

    /// Relies on `AtomicBool::store`: every handle sharing this flag reads
    /// the stored value until the next store.
    #[verifier::external_body]
    pub(crate) fn store(&self, value: bool) {
        self.flag.store(value, Ordering::Relaxed);
    }

    /// Ask the workers sharing this flag to stop: sets it to `true`.
    /// Idempotent and non-blocking; the parent side never sets it back.
    pub fn request(&self) {
        self.store(true);
    }

    /// Relies on `AtomicBool::load`: the value most recently stored into the
    /// flag, possibly by another thread, so nothing pins the result.
    #[verifier::external_body]
    pub(crate) fn load(&self) -> (value: bool) {
        self.flag.load(Ordering::Relaxed)
    }
}

} // verus!
