use sidecar_supervisor::supervisor::{
    BackendEmit, BackendState, ChildEvent, DEFAULT_PORT, choose_port,
};
use sidecar_supervisor::Platform;

#[test]
fn default_state_is_not_running() {
    let s = BackendState::default();
    assert!(!s.running);
    assert_eq!(s.port, 8000);
    assert_eq!(s.child, None);
    assert_eq!(s.pid, None);
}

#[test]
fn choose_port_takes_picked_port() {
    assert_eq!(choose_port(Some(15321)), 15321);
}

#[test]
fn choose_port_falls_back_to_default() {
    assert_eq!(choose_port(None), DEFAULT_PORT);
    assert_eq!(choose_port(None), 8000);
}

#[test]
fn start_is_idempotent() {
    let mut s = BackendState::default();
    assert_eq!(s.start_query(), None);
    s.record_start(15321, 42, 1);
    // A second start sees the running child and returns the same port
    // without touching the state.
    assert_eq!(s.start_query(), Some(15321));
    assert_eq!(s.start_query(), Some(15321));
    let st = s.status();
    assert!(st.running);
    assert_eq!(st.port, 15321);
    assert_eq!(s.child, Some(1));
    assert_eq!(s.pid, Some(42));
}

#[test]
fn stop_when_not_running_is_a_noop_success() {
    let mut s = BackendState::default();
    let plan = s.begin_stop(Platform::Linux);
    assert_eq!(plan.tree_kill, None);
    assert_eq!(plan.kill_child, None);
    assert_eq!(plan.wait_pid, None);
    let st = s.status();
    assert!(!st.running);
    assert_eq!(st.port, 8000);
}

#[test]
fn stop_clears_state_and_plans_kills() {
    let mut s = BackendState::default();
    s.record_start(15400, 77, 3);
    let plan = s.begin_stop(Platform::Windows);
    assert_eq!(plan.kill_child, Some(3));
    assert_eq!(plan.wait_pid, Some(77));
    let req = plan.tree_kill.expect("tree kill issued on Windows");
    assert_eq!(req.pid, 77);
    assert!(req.force);
    assert!(req.tree);
    let st = s.status();
    assert!(!st.running);
    assert_eq!(st.port, 15400);
    assert_eq!(s.child, None);
    assert_eq!(s.pid, None);
}

#[test]
fn stop_on_unix_skips_tree_kill_and_wait() {
    let mut s = BackendState::default();
    s.record_start(15401, 78, 4);
    let plan = s.begin_stop(Platform::MacOs);
    assert_eq!(plan.tree_kill, None);
    assert_eq!(plan.kill_child, Some(4));
    assert_eq!(plan.wait_pid, None);
}

#[test]
fn state_is_cleared_exactly_once() {
    let mut s = BackendState::default();
    s.record_start(15500, 99, 5);
    // Whichever settling step comes first performs the clearing; every
    // later one observes the cleared state and is a no-op.
    assert!(s.settle());
    assert!(!s.settle());
    assert!(!s.settle());
    assert!(!s.status().running);
    assert_eq!(s.status().port, 15500);
}

#[test]
fn spontaneous_exit_settles_and_forwards_once() {
    let mut s = BackendState::default();
    s.record_start(15600, 11, 6);
    let (emit, done) = s.observe_event(ChildEvent::Terminated(Some(1)));
    match emit {
        BackendEmit::Terminated(code) => assert_eq!(code, Some(1)),
        _ => panic!("expected a termination event"),
    }
    assert!(done);
    let st = s.status();
    assert!(!st.running);
    // A stop arriving after the spontaneous exit finds nothing to do.
    let plan = s.begin_stop(Platform::Windows);
    assert_eq!(plan.tree_kill, None);
    assert_eq!(plan.kill_child, None);
}

#[test]
fn output_events_are_forwarded_without_state_change() {
    let mut s = BackendState::default();
    s.record_start(15700, 12, 7);
    let (emit, done) = s.observe_event(ChildEvent::Stdout(b"ready".to_vec()));
    match emit {
        BackendEmit::Log(line) => assert_eq!(line, b"ready".to_vec()),
        _ => panic!("expected a log event"),
    }
    assert!(!done);
    let (emit, done) = s.observe_event(ChildEvent::Stderr(b"warn".to_vec()));
    match emit {
        BackendEmit::ErrLog(line) => assert_eq!(line, b"warn".to_vec()),
        _ => panic!("expected an error-log event"),
    }
    assert!(!done);
    let (emit, done) = s.observe_event(ChildEvent::Other);
    match emit {
        BackendEmit::Nothing => {}
        _ => panic!("expected no forwarded event"),
    }
    assert!(!done);
    assert!(s.status().running);
    assert_eq!(s.status().port, 15700);
}

#[test]
fn start_stop_cycle_retains_port() {
    // Start with no prior state, observe the running status, stop, and
    // observe the port retained with running cleared.
    let mut s = BackendState::default();
    assert_eq!(s.start_query(), None);
    let p = sidecar_supervisor::supervisor::allocate_port();
    assert!(p >= 1024);
    s.record_start(p, 4242, 8);
    let st = s.status();
    assert!(st.running);
    assert_eq!(st.port, p);
    assert_eq!(s.current_port(), p);
    let _plan = s.begin_stop(Platform::Linux);
    let st = s.status();
    assert!(!st.running);
    assert_eq!(st.port, p);
}

#[test]
fn two_cycles_with_distinct_ports_never_share_a_running_port() {
    let mut a = BackendState::default();
    let mut b = BackendState::default();
    a.record_start(15001, 1, 1);
    b.record_start(15002, 2, 2);
    assert!(a.status().running && b.status().running);
    assert_ne!(a.status().port, b.status().port);
}
