//! Event relay: turning the child's output and lifecycle events into
//! notifications for the consuming application.
//!
//! The relay is a state-free dispatch over `ProcessEvent`. Every event
//! yields exactly one `Notification`; only a `Terminated` event touches
//! the lifecycle registry, where it clears the handle slot with the same
//! take-and-clear operation the termination commands use.

use vstd::prelude::*;
use vstd::string::StringExecFns;
use crate::registry::{Registry, cleared, effective_port, taken_handle};

verus! {

/// One event out of the child process's execution environment, consumed
/// by the relay exactly once, in emission order.
#[derive(Debug, PartialEq, Eq, Clone)]
pub enum ProcessEvent {
    /// A line the child wrote to standard output.
    StandardOutputLine(String),
    /// A line the child wrote to standard error.
    StandardErrorLine(String),
    /// A runtime error reported by the child's execution environment.
    LaunchError(String),
    /// The child exited, with its exit code if one was observed.
    Terminated(Option<i32>),
}

/// One notification republished toward the consuming application. Each
/// variant corresponds to one named notification channel.
#[derive(Debug, PartialEq, Eq, Clone)]
pub enum Notification {
    /// Channel "backend output": a line of backend standard output.
    BackendOutput(String),
    /// Channel "backend error": a line of backend standard error, or a
    /// synthesized message for a runtime error.
    BackendError(String),
    /// Channel "backend terminated": the backend exited with this code.
    BackendTerminated(Option<i32>),
}

/// The registry state after the relay has consumed one event: only
/// `Terminated` clears the handle slot, every other event leaves the
/// registry untouched.
pub open spec fn after_event<H>(s: Registry<H>, e: ProcessEvent) -> Registry<H> {
    if e is Terminated {
        cleared(s)
    } else {
        s
    }
}

impl Notification {
    /// The name of the channel this notification is published on.
    pub fn channel(&self) -> (name: &'static str)
        ensures
            self is BackendOutput ==> name@ == "backend output"@,
            self is BackendError ==> name@ == "backend error"@,
            self is BackendTerminated ==> name@ == "backend terminated"@,
    {
        match self {
            Notification::BackendOutput(_) => "backend output",
            Notification::BackendError(_) => "backend error",
            Notification::BackendTerminated(_) => "backend terminated",
        }
    }
}

/// One step of the event relay: consume one event, update the registry,
/// and return the notification to publish.
///
/// Output and error lines are forwarded verbatim; a runtime error is
/// forwarded on the error channel under a synthesized message; a
/// `Terminated` event carries the exit code outward and clears the
/// registry's handle slot (take-if-present, so a handle already taken by
/// an explicit termination is simply absent here).
pub fn relay_step<H>(reg: &mut Registry<H>, event: ProcessEvent) -> (n: Notification)
    ensures
        *final(reg) == after_event(*old(reg), event),
        event matches ProcessEvent::StandardOutputLine(line) ==> (n matches
            Notification::BackendOutput(t) && t@ == line@),
        event matches ProcessEvent::StandardErrorLine(line) ==> (n matches
            Notification::BackendError(t) && t@ == line@),
        event matches ProcessEvent::LaunchError(msg) ==> (n matches
            Notification::BackendError(t) && t@ == "Process error: "@ + msg@),
        event matches ProcessEvent::Terminated(code) ==> n == Notification::BackendTerminated(
            code,
        ),
{
    match event {
        ProcessEvent::StandardOutputLine(line) => Notification::BackendOutput(line),
        ProcessEvent::StandardErrorLine(line) => Notification::BackendError(line),
        ProcessEvent::LaunchError(msg) => {
            let text = String::from_str("Process error: ").concat(msg.as_str());
            Notification::BackendError(text)
        },
        ProcessEvent::Terminated(code) => {
            let _stale_handle = reg.take_child();
            Notification::BackendTerminated(code)
        },
    }
}

/// When the relay observes self-termination, the registry is cleared by
/// that step alone: afterwards the handle slot is empty, any later take
/// (an explicit termination request, the shutdown hook) yields nothing,
/// and the assigned port is untouched.
pub proof fn lemma_self_termination_clears_once<H>(s: Registry<H>, code: Option<i32>)
    ensures
        after_event(s, ProcessEvent::Terminated(code)).child is None,
        taken_handle(after_event(s, ProcessEvent::Terminated(code))) is None,
        after_event(s, ProcessEvent::Terminated(code)).port == s.port,
{
}

/// The relay never moves the assigned port: whatever the event, the port
/// reported by the command surface is the same before and after, and no
/// event other than `Terminated` touches the registry at all.
pub proof fn lemma_relay_preserves_port<H>(s: Registry<H>, e: ProcessEvent)
    ensures
        after_event(s, e).port == s.port,
        effective_port(after_event(s, e)) == effective_port(s),
        !(e is Terminated) ==> after_event(s, e) == s,
{
}

} // verus!
