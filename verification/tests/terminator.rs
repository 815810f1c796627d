use sidecar_supervisor::terminator::{
    PollDecision, PollProbe, POLL_ATTEMPTS, POLL_DELAY_MS, decimal_digits, kill_process_tree,
    poll_step, process_listed,
};
use sidecar_supervisor::Platform;

#[test]
fn tree_kill_only_on_windows() {
    let req = kill_process_tree(Platform::Windows, 7).expect("request on Windows");
    assert_eq!(req.pid, 7);
    assert!(req.force);
    assert!(req.tree);
    assert_eq!(kill_process_tree(Platform::Linux, 7), None);
    assert_eq!(kill_process_tree(Platform::MacOs, 7), None);
}

#[test]
fn poll_constants_bound_the_wait() {
    assert_eq!(POLL_ATTEMPTS, 10);
    assert_eq!(POLL_DELAY_MS, 500);
}

#[test]
fn decimal_digits_render_pids() {
    assert_eq!(decimal_digits(0), b"0".to_vec());
    assert_eq!(decimal_digits(7), b"7".to_vec());
    assert_eq!(decimal_digits(1234), b"1234".to_vec());
    assert_eq!(decimal_digits(u32::MAX), b"4294967295".to_vec());
}

#[test]
fn no_tasks_notice_counts_as_exited() {
    let out = b"INFO: No tasks are running which match the specified criteria.";
    assert!(!process_listed(out, 1234));
}

#[test]
fn listing_by_executable_name() {
    let out = b"python-backend.exe            1234 Console";
    assert!(process_listed(out, 1234));
    // The name alone is enough, whatever pid is asked about.
    assert!(process_listed(out, 9));
}

#[test]
fn listing_by_pid_digits() {
    let out = b"some-helper.exe               1234 Console";
    assert!(process_listed(out, 1234));
    assert!(!process_listed(out, 5678));
}

#[test]
fn parent_with_exited_child_reports_not_running_within_window() {
    // The tree-kill was issued; the very first confirmation probe sees the
    // "no tasks" notice and the terminator stops without error.
    let probe = PollProbe::Output(
        b"INFO: No tasks are running which match the specified criteria.".to_vec(),
    );
    assert_eq!(poll_step(0, &probe, 4321), PollDecision::Exited);
}

#[test]
fn failed_probe_counts_as_exited() {
    assert_eq!(poll_step(3, &PollProbe::CheckFailed, 4321), PollDecision::Exited);
}

#[test]
fn still_listed_retries_then_times_out() {
    let probe = PollProbe::Output(b"python-backend.exe            4321 Console".to_vec());
    assert_eq!(poll_step(0, &probe, 4321), PollDecision::Retry);
    assert_eq!(poll_step(8, &probe, 4321), PollDecision::Retry);
    assert_eq!(poll_step(9, &probe, 4321), PollDecision::TimedOut);
}
