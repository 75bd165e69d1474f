//! Managed OS threads with cooperative shutdown, live introspection, and
//! flexible join semantics.
//!
//! Threads managed by this library hand their worker function a
//! [`ThreadScope`]: through it the worker polls for shutdown requests
//! ([`ThreadScope::should_shutdown`]) and reports what it is currently doing
//! ([`ThreadScope::activity`], [`ThreadScope::scoped_activity`]). For as long
//! as the worker runs, it is listed in a registry whose snapshots
//! ([`Registry::registered_threads`]) expose each thread's names and reported
//! activity. The parent side keeps a [`Thread`] handle whose single-use join
//! capability, bounded-timeout join and wait-set participation are specified
//! and verified here; the blocking OS-level spawn and join themselves are the
//! host program's, wired through [`Builder`], [`run_worker`] and
//! [`SharedRegistry`].

mod builder;
mod cell;
mod channel;
mod error;
mod handles;
mod registry;
mod status;
mod test_support;

pub use crate::builder::Builder;
pub use crate::builder::run_worker;
pub use crate::cell::ActivityCell;
pub use crate::cell::ShutdownFlag;
pub use crate::cell::cell_activity;
pub use crate::channel::receiver_id;
pub use crate::channel::select_sources;
pub use crate::channel::selected_index;
pub use crate::channel::selected_source;
pub use crate::error::ErrorKind;
pub use crate::handles::Thread;
pub use crate::handles::ThreadScope;
pub use crate::handles::ThreadScopeActivityGuard;
pub use crate::handles::lemma_scoped_activity_nesting;
pub use crate::test_support::MockThreadScope;
pub use crate::registry::Registry;
pub use crate::registry::RegistryRow;
pub use crate::registry::SharedRegistry;
pub use crate::registry::lemma_deregistered_thread_absent;
pub use crate::registry::lemma_registered_thread_visible;
pub use crate::registry::status_row;
pub use crate::status::RegisteredStatus;
pub use crate::status::ThreadStatus;
