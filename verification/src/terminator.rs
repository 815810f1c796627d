//! Process-tree termination decisions.
//!
//! Killing the child's whole process tree and confirming that the process
//! identifier is gone are operating-system calls made by the host driver.
//! This module holds what can be decided from plain values: on which
//! platforms a tree kill must be issued and with what request, how the
//! process-listing tool's output is classified, and when the bounded
//! confirmation poll stops.

use vstd::prelude::*;
use crate::Platform;
use crate::text::{ascii_bytes_of, contains_bytes, contains_seq};

verus! {

/// Upper bound on confirmation polls after a tree kill.
pub const POLL_ATTEMPTS: u32 = 10;

/// Fixed delay between two confirmation polls, in milliseconds.
pub const POLL_DELAY_MS: u64 = 500;

/// A forceful, recursive kill of a process tree by process identifier,
/// to be issued by the host driver.
#[derive(Clone, Copy, PartialEq, Eq, Structural, Debug)]
pub struct TreeKillRequest {
    pub pid: u32,
    pub force: bool,
    pub tree: bool,
}

/// Result of one probe of the process table for the child's pid.
pub enum PollProbe {
    /// The listing tool itself could not be run or failed.
    CheckFailed,
    /// The listing tool ran; its raw output.
    Output(Vec<u8>),
}

/// What the terminator does after one confirmation probe.
#[derive(Clone, Copy, PartialEq, Eq, Structural, Debug)]
pub enum PollDecision {
    /// The process is confirmed (or assumed) gone; stop polling.
    Exited,
    /// Still listed; sleep for [`POLL_DELAY_MS`] and probe again.
    Retry,
    /// Still listed after the last allowed attempt; return without error,
    /// the kill is then best-effort.
    TimedOut,
}

/// The tree-kill request for one platform: none where cooperative process
/// groups make the direct kill of the child sufficient, a forceful
/// recursive kill by process id where descendants are not reaped
/// implicitly.
pub open spec fn spec_kill_process_tree(platform: Platform, pid: u32) -> Option<TreeKillRequest> {
    if platform.spec_needs_tree_kill() {
        Some(TreeKillRequest { pid: pid, force: true, tree: true })
    } else {
        None
    }
}

/// Exec counterpart of [`spec_kill_process_tree`].
pub fn kill_process_tree(platform: Platform, pid: u32) -> (r: Option<TreeKillRequest>)
    ensures
        r == spec_kill_process_tree(platform, pid),
{
    if platform.needs_tree_kill() {
        Some(TreeKillRequest { pid: pid, force: true, tree: true })
    } else {
        None
    }
}

/// The decimal digits of `n`, most significant first, as ASCII bytes.
pub open spec fn spec_decimal(n: nat) -> Seq<u8>
    decreases n,
{
    if n < 10 {
        seq![(48 + n) as u8]
    } else {
        spec_decimal(n / 10).push((48 + n % 10) as u8)
    }
}

/// Render a process identifier in decimal, as the process-listing tool
/// prints it.
pub fn decimal_digits(n: u32) -> (r: Vec<u8>)
    ensures
        r@ == spec_decimal(n as nat),
    decreases n,
{
    if n < 10 {
        let mut v: Vec<u8> = Vec::new();
        v.push(48 + n as u8);
        proof {
            assert(v@ =~= spec_decimal(n as nat));
        }
        v
    } else {
        let mut v = decimal_digits(n / 10);
        v.push(48 + (n % 10) as u8);
        v
    }
}

/// How the process-listing tool's output is read: the child counts as
/// still listed when the sidecar's executable name occurs in it, or when
/// the pid's decimal digits occur and the output is not the tool's
/// "no tasks" notice.
pub open spec fn spec_process_listed(output: Seq<u8>, pid: u32) -> bool {
    ||| contains_seq(output, spec_sidecar_name())
    ||| (contains_seq(output, spec_decimal(pid as nat)) && !contains_seq(
        output,
        spec_notice_prefix(),
    ))
}

/// The sidecar executable's name, as bytes.
pub open spec fn spec_sidecar_name() -> Seq<u8> {
    "python-backend"@.map_values(|c: char| c as u8)
}

/// The prefix of the listing tool's "no matching tasks" notice, as bytes.
pub open spec fn spec_notice_prefix() -> Seq<u8> {
    "INFO:"@.map_values(|c: char| c as u8)
}

/// Exec counterpart of [`spec_process_listed`].
pub fn process_listed(output: &[u8], pid: u32) -> (r: bool)
    ensures
        r == spec_process_listed(output@, pid),
{
    let name = sidecar_name_bytes();
    if contains_bytes(output, name.as_slice()) {
        return true;
    }
    let digits = decimal_digits(pid);
    if !contains_bytes(output, digits.as_slice()) {
        return false;
    }
    let notice = notice_prefix_bytes();
    !contains_bytes(output, notice.as_slice())
}

/// The sidecar executable's name as a byte vector.
fn sidecar_name_bytes() -> (r: Vec<u8>)
    ensures
        r@ == spec_sidecar_name(),
{
    ascii_bytes_of("python-backend")
}

/// The listing tool's notice prefix as a byte vector.
fn notice_prefix_bytes() -> (r: Vec<u8>)
    ensures
        r@ == spec_notice_prefix(),
{
    ascii_bytes_of("INFO:")
}

/// What the terminator does after one confirmation probe, `attempt`
/// attempts (zero-based) having gone before: a failed probe or one that no
/// longer lists the process confirms the exit; otherwise it retries up to
/// the fixed bound, after which the kill is treated as best-effort.
pub open spec fn spec_poll_step(attempt: u32, probe: PollProbe, pid: u32) -> PollDecision {
    match probe {
        PollProbe::CheckFailed => PollDecision::Exited,
        PollProbe::Output(out) => if !spec_process_listed(out@, pid) {
            PollDecision::Exited
        } else if attempt + 1 >= POLL_ATTEMPTS {
            PollDecision::TimedOut
        } else {
            PollDecision::Retry
        },
    }
}

/// Exec counterpart of [`spec_poll_step`].
pub fn poll_step(attempt: u32, probe: &PollProbe, pid: u32) -> (r: PollDecision)
    requires
        attempt < POLL_ATTEMPTS,
    ensures
        r == spec_poll_step(attempt, *probe, pid),
{
    match probe {
        PollProbe::CheckFailed => PollDecision::Exited,
        PollProbe::Output(out) => {
            if !process_listed(out.as_slice(), pid) {
                PollDecision::Exited
            } else if attempt + 1 >= POLL_ATTEMPTS {
                PollDecision::TimedOut
            } else {
                PollDecision::Retry
            }
        },
    }
}

} // verus!
