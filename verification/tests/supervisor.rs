use backend_supervisor::events::{relay_step, Notification, ProcessEvent};
use backend_supervisor::lifecycle::{
    handle_spawn_result, launches_backend, sidecar_program, shutdown_hook, terminate_backend,
    terminate_outcome, Mode, SidecarId,
};
use backend_supervisor::ports::{allocate_port, port_or_default};
use backend_supervisor::registry::{Registry, DEFAULT_PORT};

#[test]
fn default_port_before_any_launch() {
    let reg = Registry::<u32>::new();
    assert_eq!(reg.get_backend_port(), 8000);
    assert_eq!(DEFAULT_PORT, 8000);
    assert!(!reg.has_child());
}

#[test]
fn allocated_port_persists_across_lifecycle() {
    let mut reg = Registry::<u32>::new();
    reg.store_port(54321);
    assert_eq!(reg.get_backend_port(), 54321);
    reg.store_child(1);
    assert_eq!(reg.get_backend_port(), 54321);
    let _ = relay_step(&mut reg, ProcessEvent::StandardOutputLine("hello".to_string()));
    assert_eq!(reg.get_backend_port(), 54321);
    let _ = terminate_backend(&mut reg);
    assert_eq!(reg.get_backend_port(), 54321);
    assert_eq!(reg.get_backend_port(), 54321);
}

#[test]
fn terminate_twice_issues_single_kill() {
    let mut reg = Registry::<u32>::new();
    reg.store_child(42);
    let first = terminate_backend(&mut reg);
    assert_eq!(first, Some(42));
    let second = terminate_backend(&mut reg);
    assert_eq!(second, None);
    assert_eq!(terminate_outcome(None), Ok(()));
}

#[test]
fn terminate_and_shutdown_hook_single_kill() {
    let mut reg = Registry::<u32>::new();
    reg.store_child(9);
    let by_command = terminate_backend(&mut reg);
    let by_hook = shutdown_hook(&mut reg);
    let kills = by_command.iter().count() + by_hook.iter().count();
    assert_eq!(kills, 1);

    let mut reg2 = Registry::<u32>::new();
    reg2.store_child(9);
    let by_hook2 = shutdown_hook(&mut reg2);
    let by_command2 = terminate_backend(&mut reg2);
    assert_eq!(by_hook2, Some(9));
    assert_eq!(by_command2, None);
}

#[test]
fn self_termination_clears_registry_once() {
    let mut reg = Registry::<u32>::new();
    reg.store_child(5);
    let n = relay_step(&mut reg, ProcessEvent::Terminated(Some(1)));
    assert_eq!(n, Notification::BackendTerminated(Some(1)));
    assert!(!reg.has_child());
    let later = terminate_backend(&mut reg);
    assert_eq!(later, None);
    assert_eq!(terminate_outcome(None), Ok(()));
}

#[test]
fn launch_failure_leaves_port_and_empty_slot() {
    let mut reg = Registry::<u32>::new();
    reg.store_port(4100);
    let failure = handle_spawn_result(&mut reg, Err("spawn rejected".to_string()));
    assert_eq!(failure, Some("spawn rejected".to_string()));
    assert_eq!(reg.get_backend_port(), 4100);
    assert!(!reg.has_child());
    assert_eq!(terminate_backend(&mut reg), None);
    assert_eq!(terminate_outcome(None), Ok(()));
}

#[test]
fn launch_failure_with_default_port() {
    let mut reg = Registry::<u32>::new();
    let failure = handle_spawn_result(&mut reg, Err("missing sidecar".to_string()));
    assert_eq!(failure, Some("missing sidecar".to_string()));
    assert_eq!(reg.get_backend_port(), 8000);
    assert!(!reg.has_child());
}

#[test]
fn full_lifecycle_scenario() {
    let mut reg = Registry::<u32>::new();
    reg.store_port(54321);
    let failure = handle_spawn_result(&mut reg, Ok(7));
    assert_eq!(failure, None);
    assert!(reg.has_child());

    let n = relay_step(&mut reg, ProcessEvent::StandardOutputLine("ready".to_string()));
    assert_eq!(n, Notification::BackendOutput("ready".to_string()));
    assert_eq!(n.channel(), "backend output");

    assert_eq!(reg.get_backend_port(), 54321);

    let handle = terminate_backend(&mut reg);
    assert_eq!(handle, Some(7));
    assert_eq!(terminate_outcome(None), Ok(()));

    let n2 = relay_step(&mut reg, ProcessEvent::Terminated(Some(0)));
    assert_eq!(n2, Notification::BackendTerminated(Some(0)));
    assert_eq!(n2.channel(), "backend terminated");
    assert!(!reg.has_child());
}

#[test]
fn relay_forwards_output_and_error_lines() {
    let mut reg = Registry::<u32>::new();
    let n = relay_step(&mut reg, ProcessEvent::StandardOutputLine("line a".to_string()));
    assert_eq!(n, Notification::BackendOutput("line a".to_string()));
    let n2 = relay_step(&mut reg, ProcessEvent::StandardErrorLine("line b".to_string()));
    assert_eq!(n2, Notification::BackendError("line b".to_string()));
    assert_eq!(n2.channel(), "backend error");
    assert!(!reg.has_child());
}

#[test]
fn relay_synthesizes_runtime_error_message() {
    let mut reg = Registry::<u32>::new();
    let n = relay_step(&mut reg, ProcessEvent::LaunchError("boom".to_string()));
    assert_eq!(n, Notification::BackendError("Process error: boom".to_string()));
    assert_eq!(n.channel(), "backend error");
}

#[test]
fn relay_terminated_without_code() {
    let mut reg = Registry::<u32>::new();
    reg.store_child(3);
    let n = relay_step(&mut reg, ProcessEvent::Terminated(None));
    assert_eq!(n, Notification::BackendTerminated(None));
    assert!(!reg.has_child());
}

#[test]
fn terminate_outcome_propagates_kill_failure() {
    let r = terminate_outcome(Some("operation not permitted".to_string()));
    assert_eq!(r, Err("operation not permitted".to_string()));
}

#[test]
fn port_fallback_resolution() {
    assert_eq!(port_or_default(Some(4100)), 4100);
    assert_eq!(port_or_default(None), 8000);
}

#[test]
fn allocate_port_yields_usable_port() {
    let p = allocate_port();
    assert!(p > 0);
    assert_eq!(port_or_default(Some(p)), p);
}

#[test]
fn mode_decides_launch() {
    assert!(launches_backend(Mode::Production));
    assert!(!launches_backend(Mode::Development));
}

#[test]
fn sidecar_set_is_fixed() {
    assert_eq!(sidecar_program(SidecarId::Backend), "backend");
}
