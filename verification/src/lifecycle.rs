//! Launch and termination decisions, and the command surface the
//! consuming application invokes.
//!
//! The host performs the actual spawning and killing; the functions here
//! decide what to do, record the outcome in the registry, and map the
//! host's results to what the command surface reports.

use vstd::prelude::*;
use crate::registry::{Registry, cleared, taken_handle, with_child};

verus! {

/// The supervisor's build-time execution mode.
#[derive(Debug, Clone, Copy)]
pub enum Mode {
    /// Allocate a port and launch the packaged backend.
    Production,
    /// Use the fixed default port; the operator starts the backend
    /// out-of-band, and no launch or allocation happens.
    Development,
}

/// The fixed set of packaged sidecar executables the launcher may start.
#[derive(Debug, Clone, Copy)]
pub enum SidecarId {
    /// The backend server shipped alongside the application.
    Backend,
}

/// Whether this mode allocates a port and launches the child at startup.
/// Only production does; in development the backend runs out-of-band.
pub fn launches_backend(mode: Mode) -> (b: bool)
    ensures
        b == (mode is Production),
{
    match mode {
        Mode::Production => true,
        Mode::Development => false,
    }
}

/// The program name the launcher builds the command around, for each
/// member of the packaged set.
pub fn sidecar_program(id: SidecarId) -> (name: &'static str)
    ensures
        name@ == "backend"@,
{
    match id {
        SidecarId::Backend => "backend",
    }
}

/// Record the outcome of a launch attempt. A successful spawn stores the
/// child handle; a failure leaves the registry exactly as it was (the
/// port keeps its allocated value, the handle slot stays empty) and
/// hands the cause back for diagnostics — launch failure is non-fatal,
/// the supervisor keeps running without a backend.
pub fn handle_spawn_result<H>(reg: &mut Registry<H>, spawn: Result<H, String>) -> (failure: Option<
    String,
>)
    requires
        old(reg).child is None,
    ensures
        spawn matches Ok(h) ==> *final(reg) == with_child(*old(reg), h) && failure is None,
        spawn matches Err(cause) ==> *final(reg) == *old(reg) && failure == Some(cause),
{
    match spawn {
        Ok(h) => {
            reg.store_child(h);
            None
        },
        Err(cause) => Some(cause),
    }
}

/// Command surface, first half of termination: atomically take the child
/// handle out of the registry. A returned handle obliges the caller to
/// issue exactly one kill request for it and feed the outcome to
/// `terminate_outcome`; `None` means the backend is already stopped and
/// the command succeeds vacuously. Either way the slot is empty
/// afterwards — a handle is consumed by being taken, whether or not the
/// kill itself later succeeds.
pub fn terminate_backend<H>(reg: &mut Registry<H>) -> (h: Option<H>)
    ensures
        h == taken_handle(*old(reg)),
        *final(reg) == cleared(*old(reg)),
{
    reg.take_child()
}

/// Command surface, second half of termination: what the command reports
/// given the kill request's outcome (`None` also when there was no child
/// to kill). Success exactly when no kill failure occurred; a failure is
/// returned to the caller carrying the OS-level description.
pub fn terminate_outcome(kill_failure: Option<String>) -> (r: Result<(), String>)
    ensures
        r is Ok <==> kill_failure is None,
        kill_failure matches Some(cause) ==> r == Result::<(), String>::Err(cause),
{
    match kill_failure {
        None => Ok(()),
        Some(cause) => Err(cause),
    }
}

/// Shutdown hook: on the host's close signal, take the handle exactly as
/// the explicit termination command does. A kill failure is only logged
/// by the host, never propagated — the host is already tearing down —
/// so no outcome mapping exists for this path.
pub fn shutdown_hook<H>(reg: &mut Registry<H>) -> (h: Option<H>)
    ensures
        h == taken_handle(*old(reg)),
        *final(reg) == cleared(*old(reg)),
{
    reg.take_child()
}

/// Termination is idempotent. The explicit command, the shutdown hook
/// and the relay's self-termination cleanup all go through the same
/// take, and exclusive access serializes them; so of two termination
/// requests — in whichever order the two actors run — the first obtains
/// the handle when a child is present and the second finds nothing and
/// succeeds vacuously. Exactly one kill request is issued for a running
/// child, never two.
pub proof fn lemma_exactly_one_kill<H>(s: Registry<H>)
    ensures
        taken_handle(cleared(s)) is None,
        s.child matches Some(h) ==> taken_handle(s) == Some(h) && taken_handle(cleared(s)) is None,
{
}

} // verus!
