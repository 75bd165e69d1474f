use vstd::prelude::*;

use crossbeam_channel::Sender;

use crate::cell::ShutdownFlag;
use crate::handles::ThreadGuard;
use crate::handles::ThreadScope;
use crate::registry::SharedRegistry;
use crate::status::RegisteredStatus;

verus! {

/// Thread factory to configure the properties of a new thread.
///
/// Compared with a bare thread API, threads spawned here additionally offer:
///
///   * shutdown requests: the handle can signal its thread that it should
///     stop (the thread function may ignore this);
///   * introspection: while the thread runs, it is listed in the registry
///     attached through [`Builder::registry`], along with the activity it
///     reports about itself.
pub struct Builder {
    full_name: String,
    name: String,
    registry: Option<SharedRegistry>,
}

impl Builder {
    /// The short name of the thread to be spawned.
    pub closed spec fn spec_name(&self) -> Seq<char> {
        self.name@
    }

    /// The full, introspection-only name of the thread to be spawned.
    pub closed spec fn spec_full_name(&self) -> Seq<char> {
        self.full_name@
    }

    /// Whether a registry is attached for the thread to register in.
    pub closed spec fn has_registry(&self) -> bool {
        self.registry is Some
    }

    /// A builder for a thread with the given name.
    ///
    /// Until overridden with [`Builder::full_name`], the same name doubles as
    /// the full introspection name.
    pub fn new(name: &str) -> (b: Builder)
        ensures
            b.spec_name() == name@,
            b.spec_full_name() == name@,
            !b.has_registry(),
    {
        let name = name.to_owned();
        Builder { full_name: name.clone(), name, registry: None }
    }

    /// Set the full name used for introspection.
    ///
    /// This name is kept as an ordinary string and is never handed to the
    /// operating system, so it is not subject to the length limits OS thread
    /// names have.
    pub fn full_name(self, name: &str) -> (b: Builder)
        ensures
            b.spec_name() == self.spec_name(),
            b.spec_full_name() == name@,
            b.has_registry() == self.has_registry(),
    {
        Builder { full_name: name.to_owned(), name: self.name, registry: self.registry }
    }

    /// Attach the registry the spawned thread registers itself in for as
    /// long as it runs.
    ///
    /// Without a registry the thread still spawns, but stays invisible to
    /// snapshots.
    pub fn registry(self, registry: &SharedRegistry) -> (b: Builder)
        ensures
            b.spec_name() == self.spec_name(),
            b.spec_full_name() == self.spec_full_name(),
            b.has_registry(),
    {
        Builder { full_name: self.full_name, name: self.name, registry: Some(registry.share()) }
    }

    /// Take the builder apart: full name, short name, and the attached
    /// registry, for the host that performs the actual spawn.
    pub fn into_parts(self) -> (parts: (String, String, Option<SharedRegistry>))
        ensures
            parts.0@ == self.spec_full_name(),
            parts.1@ == self.spec_name(),
            parts.2 is Some <==> self.has_registry(),
    {
        (self.full_name, self.name, self.registry)
    }
}

/// The body of a managed thread, from registration to deregistration.
///
/// The host's spawn runs this as the entry point of the new OS thread: it
/// registers the thread (when a registry is given) and builds the worker's
/// [`ThreadScope`], then runs `f` on that scope. On the way out — a normal
/// return, or unwinding after a fault in `f` — the guard's drop signals the
/// join-check channel, best-effort, and removes the registry entry again.
/// The result is exactly what `f` returned.
pub fn run_worker<F, T>(
    full_name: String,
    name: String,
    join_check: Sender<()>,
    registry: Option<SharedRegistry>,
    shutdown: ShutdownFlag,
    f: F,
) -> (ret: T) where F: FnOnce(ThreadScope) -> T
    requires
        forall|scope: ThreadScope| #[trigger] call_requires(f, (scope,)),
    ensures
        exists|scope: ThreadScope| call_ensures(f, (scope,), ret),
{
    let status = RegisteredStatus::new(full_name, name);
    let activity = status.activity();
    // Keep a ThreadGuard alive for as long as the thread is.
    let _guard = ThreadGuard::new(join_check, status, registry);
    let scope = ThreadScope::new(activity, shutdown);
    f(scope)
}

} // verus!
