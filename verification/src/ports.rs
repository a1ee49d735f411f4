//! Port allocator: obtain an unused OS port for the backend, falling
//! back to the fixed default when none can be found.

use vstd::prelude::*;
use crate::registry::DEFAULT_PORT;

verus! {

/// Relies on portpicker::pick_unused_port: probes for a port that is
/// currently free on both TCP and UDP, returning `Some(port)` on success
/// and `None` when no free port was found. The outcome depends on the
/// machine's transient network state, so nothing is promised of it.
#[verifier::external_body]
fn pick_unused_port() -> (picked: Option<u16>)
{
    portpicker::pick_unused_port()
}

/// The port the allocator settles on given what the probe yielded: the
/// probed port when one was found, the fixed default otherwise.
pub open spec fn chosen_port(picked: Option<u16>) -> u16 {
    match picked {
        Some(p) => p,
        None => DEFAULT_PORT,
    }
}

/// Resolve the outcome of a port probe: a discovered port is used as is;
/// a failed probe falls back to `DEFAULT_PORT` (a non-fatal outcome that
/// the caller may report as a warning).
pub fn port_or_default(picked: Option<u16>) -> (p: u16)
    ensures
        p == chosen_port(picked),
{
    match picked {
        Some(q) => q,
        None => DEFAULT_PORT,
    }
}

/// Port allocator: ask the operating system for an unused port, falling
/// back to `DEFAULT_PORT` when none is discoverable. Runs once, before
/// the child is launched; the result is stored into the registry for the
/// remainder of the run.
pub fn allocate_port() -> (p: u16)
{
    port_or_default(pick_unused_port())
}

} // verus!
