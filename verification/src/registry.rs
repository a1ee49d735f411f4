//! Lifecycle registry: the shared state of the supervisor.
//!
//! The registry owns the port assigned to the backend and, while a child
//! process is running, its handle. The handle slot supports an atomic
//! take-and-clear operation, so that of several would-be terminators
//! (explicit command, shutdown hook, the relay observing self-termination)
//! exactly one obtains the handle and acts on it.

use vstd::prelude::*;

verus! {

/// Port reported while no real port has been assigned, and used as the
/// fallback when allocation fails.
pub const DEFAULT_PORT: u16 = 8000;

/// Shared lifecycle state: the assigned backend port (0 while unset) and
/// the handle of the running child process, if any.
///
/// The handle type is a parameter: the registry never looks inside a
/// handle, it only stores it and hands it out exactly once.
pub struct Registry<H> {
    /// Assigned port; 0 means "not yet assigned", in which case the
    /// backend is reachable under `DEFAULT_PORT` by convention.
    pub port: u16,
    /// Handle of the running child, present from a successful launch
    /// until the first take.
    pub child: Option<H>,
}

/// The registry as it stands before any allocation or launch.
pub open spec fn initial_registry<H>() -> Registry<H> {
    Registry { port: 0u16, child: None::<H> }
}

/// The port the command surface reports for a given state: the stored
/// port, or the default while none is stored.
pub open spec fn effective_port<H>(s: Registry<H>) -> u16 {
    if s.port == 0 {
        DEFAULT_PORT
    } else {
        s.port
    }
}

/// State after the handle slot has been cleared; the port is untouched.
pub open spec fn cleared<H>(s: Registry<H>) -> Registry<H> {
    Registry { port: s.port, child: None::<H> }
}

/// What a take operation on state `s` yields.
pub open spec fn taken_handle<H>(s: Registry<H>) -> Option<H> {
    s.child
}

/// State after a port was stored; the handle slot is untouched.
pub open spec fn with_port<H>(s: Registry<H>, p: u16) -> Registry<H> {
    Registry { port: p, child: s.child }
}

/// State after a child handle was stored; the port is untouched.
pub open spec fn with_child<H>(s: Registry<H>, h: H) -> Registry<H> {
    Registry { port: s.port, child: Some(h) }
}

impl<H> Registry<H> {
    /// A fresh registry: no port assigned, no child running.
    pub fn new() -> (r: Self)
        ensures
            r == initial_registry::<H>(),
    {
        Registry { port: 0, child: None }
    }

    /// Command surface: the port under which the backend is reachable.
    /// Reports the stored port, or `DEFAULT_PORT` while none is stored.
    /// Never fails.
    pub fn get_backend_port(&self) -> (p: u16)
        ensures
            p == effective_port(*self),
    {
        if self.port == 0 {
            DEFAULT_PORT
        } else {
            self.port
        }
    }

    /// Record the port allocated for the backend. The port is assigned at
    /// most once per run, so the slot must still be unset.
    pub fn store_port(&mut self, p: u16)
        requires
            old(self).port == 0,
        ensures
            *final(self) == with_port(*old(self), p),
    {
        self.port = p;
    }

    /// Record the handle of a freshly launched child. At most one child
    /// exists at a time, so the slot must be empty.
    pub fn store_child(&mut self, h: H)
        requires
            old(self).child is None,
        ensures
            *final(self) == with_child(*old(self), h),
    {
        self.child = Some(h);
    }

    /// Atomically take the child handle, leaving the slot empty. The
    /// first caller obtains the handle; any later caller observes `None`
    /// and must treat that as "already stopped", not as an error.
    pub fn take_child(&mut self) -> (h: Option<H>)
        ensures
            h == taken_handle(*old(self)),
            *final(self) == cleared(*old(self)),
    {
        let mut slot: Option<H> = None;
        core::mem::swap(&mut self.child, &mut slot);
        slot
    }

    /// Whether a child is currently registered as running.
    pub fn has_child(&self) -> (b: bool)
        ensures
            b == (self.child is Some),
    {
        self.child.is_some()
    }
}

/// A take clears the slot and clearing is idempotent: once any actor has
/// taken the handle, every later take observes an empty slot.
pub proof fn lemma_take_clears_slot<H>(s: Registry<H>)
    ensures
        taken_handle(cleared(s)) is None,
        cleared(cleared(s)) == cleared(s),
{
}

/// Before any port is stored, the command surface reports the default
/// port, whether or not a child was ever launched.
pub proof fn lemma_initial_port_is_default<H>()
    ensures
        effective_port(initial_registry::<H>()) == DEFAULT_PORT,
{
}

/// Once a real port has been stored, the command surface reports exactly
/// that port, and no lifecycle transition on the handle slot (storing a
/// child, taking it, clearing it) moves it.
pub proof fn lemma_stored_port_persists<H>(s: Registry<H>, p: u16, h: H)
    requires
        p != 0,
    ensures
        effective_port(with_port(s, p)) == p,
        effective_port(with_child(with_port(s, p), h)) == p,
        effective_port(cleared(with_port(s, p))) == p,
{
}

} // verus!
