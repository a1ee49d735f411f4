//! Supervisor for a single long-running backend child process.
//!
//! The library holds the verified core of the supervisor: the lifecycle
//! registry that owns the assigned port and the child handle, the command
//! surface that queries and terminates the backend, the event relay that
//! republishes the child's output and lifecycle events, and the port
//! allocator. The host application performs the actual spawning, killing
//! and I/O, feeding plain values into these functions and acting on what
//! they return.

pub mod events;
pub mod lifecycle;
pub mod ports;
pub mod registry;
