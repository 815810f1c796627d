//! Lifecycle state machine for the supervised sidecar process.
//!
//! The supervisor owns one record of the (at most one) live child process.
//! The host driver serialises access to it behind a lock and calls the
//! transition functions here inside short critical sections; everything the
//! driver does between those sections (picking a port, spawning, killing,
//! sleeping) happens on plain values handed in and out of these functions.

use vstd::prelude::*;
use crate::Platform;
use crate::terminator::TreeKillRequest;

verus! {

/// Default port handed to the sidecar when no unused port could be picked.
pub const DEFAULT_PORT: u16 = 8000;

/// Fixed settling delay after a successful spawn, in milliseconds,
/// masking the sidecar's own startup latency from the start caller.
pub const SETTLE_DELAY_MS: u64 = 2000;

/// Externally visible snapshot of the supervisor's state.
pub struct BackendStatus {
    pub running: bool,
    pub port: u16,
}

/// The supervisor's record of the supervised child process.
///
/// `child` holds a token identifying the live process handle kept by the
/// host driver; `pid` is the operating-system process identifier, retained
/// separately so tree termination can still be attempted after the handle
/// has been taken and consumed.
pub struct BackendState {
    pub child: Option<u64>,
    pub port: u16,
    pub running: bool,
    pub pid: Option<u32>,
}

/// What a stop must carry out after the state has been cleared: the
/// tree-kill request (platforms without cooperative process groups only),
/// the taken child handle to kill directly, and the process identifier
/// whose exit must be awaited before stop returns (so that file handles
/// are released before an updater replaces the executable).
pub struct StopPlan {
    pub tree_kill: Option<TreeKillRequest>,
    pub kill_child: Option<u64>,
    pub wait_pid: Option<u32>,
}

/// One event from the child's combined output stream.
pub enum ChildEvent {
    Stdout(Vec<u8>),
    Stderr(Vec<u8>),
    Terminated(Option<i32>),
    Other,
}

/// What the event-consumer forwards outward for one child event.
pub enum BackendEmit {
    Log(Vec<u8>),
    ErrLog(Vec<u8>),
    Terminated(Option<i32>),
    Nothing,
}

/// The port the sidecar is told to bind: the picked unused port when the
/// picker succeeded, the fixed default otherwise.
pub open spec fn spec_choose_port(picked: Option<u16>) -> u16 {
    match picked {
        Some(p) => p,
        None => DEFAULT_PORT,
    }
}

/// Exec counterpart of [`spec_choose_port`].
pub fn choose_port(picked: Option<u16>) -> (r: u16)
    ensures
        r == spec_choose_port(picked),
{
    match picked {
        Some(p) => p,
        None => DEFAULT_PORT,
    }
}

/// Relies on portpicker::pick_unused_port: asks the operating system and a
/// random prober for a local port that was free on TCP and UDP at the time
/// of the call, or None when none was found. The result depends on the
/// machine's momentary socket state, so nothing is promised of it.
#[verifier::external_body]
fn pick_unused_port() -> (r: Option<u16>)
{
    portpicker::pick_unused_port()
}

/// Pick the port for a new child: an unused local port if one can be
/// found, the fixed default otherwise. The outcome depends on the
/// machine's socket state; [`choose_port`] pins how each outcome maps
/// to the returned port.
pub fn allocate_port() -> u16 {
    choose_port(pick_unused_port())
}

impl BackendState {
    /// Between operations, `running`, the child handle and the pid are
    /// present or absent together.
    pub open spec fn wf(self) -> bool {
        &&& (self.running <==> self.child is Some)
        &&& (self.running <==> self.pid is Some)
    }

    /// The state after the terminal clearing: not running, no handle, no
    /// pid, the last-used port retained.
    pub open spec fn settled(self) -> BackendState {
        BackendState { child: None, port: self.port, running: false, pid: None }
    }

    /// The state recording a child that was just spawned.
    pub open spec fn started(self, port: u16, pid: u32, child: u64) -> BackendState {
        BackendState { child: Some(child), port: port, running: true, pid: Some(pid) }
    }

    /// The whole start operation as a function of the pre-state and of what
    /// the driver's spawn produced: when already running it returns the
    /// current port and changes nothing (no second child is spawned);
    /// otherwise it records the spawned child and returns the chosen port.
    pub open spec fn spec_start(self, picked: Option<u16>, pid: u32, child: u64) -> (BackendState, u16) {
        if self.running {
            (self, self.port)
        } else {
            (self.started(spec_choose_port(picked), pid, child), spec_choose_port(picked))
        }
    }

    /// Start's fast path, read under the lock: the current port when a
    /// child is already running (start is then a no-op), nothing when a
    /// spawn is needed.
    pub fn start_query(&self) -> (r: Option<u16>)
        ensures
            r == (if self.running { Some(self.port) } else { None::<u16> }),
    {
        if self.running {
            Some(self.port)
        } else {
            None
        }
    }

    /// Record a successful spawn, under the lock.
    pub fn record_start(&mut self, port: u16, pid: u32, child: u64)
        requires
            !old(self).running,
        ensures
            *final(self) == old(self).started(port, pid, child),
            final(self).wf(),
    {
        self.child = Some(child);
        self.port = port;
        self.running = true;
        self.pid = Some(pid);
    }

    /// The lifecycle snapshot handed to the UI; always succeeds.
    pub fn status(&self) -> (r: BackendStatus)
        ensures
            r.running == self.running,
            r.port == self.port,
    {
        BackendStatus { running: self.running, port: self.port }
    }

    /// The last-assigned port (meaningful while `running` is true).
    pub fn current_port(&self) -> (r: u16)
        ensures
            r == self.port,
    {
        self.port
    }

    /// The terminal clearing, under the lock. Returns whether this call
    /// performed the transition out of the running state: whichever of a
    /// stop request and the child's own termination event settles the
    /// state first reports `true`, every later caller finds the state
    /// already cleared and reports `false`.
    pub fn settle(&mut self) -> (cleared: bool)
        ensures
            *final(self) == old(self).settled(),
            cleared == old(self).running,
    {
        let was: bool = self.running;
        self.running = false;
        self.child = None;
        self.pid = None;
        was
    }

    /// Stop's critical section: clear the state unconditionally and hand
    /// the driver the kill work to perform after the lock is released.
    /// Stopping when nothing runs is a no-op success: every part of the
    /// plan is then empty.
    pub fn begin_stop(&mut self, platform: Platform) -> (plan: StopPlan)
        ensures
            *final(self) == old(self).settled(),
            plan.kill_child == old(self).child,
            plan.tree_kill == (match old(self).pid {
                Some(p) => crate::terminator::spec_kill_process_tree(platform, p),
                None => None::<TreeKillRequest>,
            }),
            plan.wait_pid == (if platform.needs_tree_kill() { old(self).pid } else { None::<u32> }),
    {
        let tree_kill: Option<TreeKillRequest> = match self.pid {
            Some(p) => crate::terminator::kill_process_tree(platform, p),
            None => None,
        };
        let wait_pid: Option<u32> = if platform.needs_tree_kill() { self.pid } else { None };
        let kill_child: Option<u64> = self.child.take();
        self.running = false;
        self.pid = None;
        StopPlan { tree_kill, kill_child, wait_pid }
    }

    /// Host lifecycle hooks (main window destroyed, exit requested,
    /// exiting) all drive the same cleanup: clear the state and hand back
    /// the kill work, without the post-stop exit wait.
    pub fn hook_cleanup(&mut self, platform: Platform) -> (plan: StopPlan)
        ensures
            *final(self) == old(self).settled(),
            plan.kill_child == old(self).child,
            plan.tree_kill == (match old(self).pid {
                Some(p) => crate::terminator::spec_kill_process_tree(platform, p),
                None => None::<TreeKillRequest>,
            }),
            plan.wait_pid is None,
    {
        let tree_kill: Option<TreeKillRequest> = match self.pid {
            Some(p) => crate::terminator::kill_process_tree(platform, p),
            None => None,
        };
        let kill_child: Option<u64> = self.child.take();
        self.running = false;
        self.pid = None;
        StopPlan { tree_kill, kill_child, wait_pid: None }
    }

    /// Classify one event from the child's stream, under the lock. A
    /// standard-output line is forwarded as a log event and a
    /// standard-error line as an error-log event, neither touching the
    /// state; the termination event settles the state and ends the
    /// consumer task (the second component is `true`); any other event is
    /// ignored.
    pub fn observe_event(&mut self, ev: ChildEvent) -> (r: (BackendEmit, bool))
        ensures
            match ev {
                ChildEvent::Stdout(line) => {
                    &&& *final(self) == *old(self)
                    &&& r.0 == BackendEmit::Log(line)
                    &&& r.1 == false
                },
                ChildEvent::Stderr(line) => {
                    &&& *final(self) == *old(self)
                    &&& r.0 == BackendEmit::ErrLog(line)
                    &&& r.1 == false
                },
                ChildEvent::Terminated(code) => {
                    &&& *final(self) == old(self).settled()
                    &&& r.0 == BackendEmit::Terminated(code)
                    &&& r.1 == true
                },
                ChildEvent::Other => {
                    &&& *final(self) == *old(self)
                    &&& r.0 == BackendEmit::Nothing
                    &&& r.1 == false
                },
            },
    {
        match ev {
            ChildEvent::Stdout(line) => (BackendEmit::Log(line), false),
            ChildEvent::Stderr(line) => (BackendEmit::ErrLog(line), false),
            ChildEvent::Terminated(code) => {
                self.settle();
                (BackendEmit::Terminated(code), true)
            },
            ChildEvent::Other => (BackendEmit::Nothing, false),
        }
    }
}

impl Default for BackendState {
    /// The state at application startup: nothing running, default port.
    fn default() -> (r: Self)
        ensures
            r == (BackendState { child: None::<u64>, port: DEFAULT_PORT, running: false, pid: None::<u32> }),
            r.wf(),
    {
        BackendState { child: None, port: DEFAULT_PORT, running: false, pid: None }
    }
}

/// The state after `n` settling steps (stop requests or termination
/// observations) from `s`.
pub open spec fn settle_trace(s: BackendState, n: nat) -> BackendState
    decreases n,
{
    if n == 0 {
        s
    } else {
        settle_trace(s, (n - 1) as nat).settled()
    }
}

/// How many of the first `n` settling steps from `s` performed the
/// clearing, i.e. observed a running state.
pub open spec fn clear_count(s: BackendState, n: nat) -> nat
    decreases n,
{
    if n == 0 {
        0
    } else {
        clear_count(s, (n - 1) as nat) + (if settle_trace(s, (n - 1) as nat).running {
            1nat
        } else {
            0nat
        })
    }
}

/// Idempotent start: starting twice in immediate succession yields the
/// same port both times, and the state after the second start equals the
/// state after the first — exactly one child is recorded, whatever the
/// second call's picker and spawn would have produced.
pub proof fn lemma_start_idempotent(
    s: BackendState,
    picked1: Option<u16>,
    pid1: u32,
    child1: u64,
    picked2: Option<u16>,
    pid2: u32,
    child2: u64,
)
    requires
        s.wf(),
    ensures
        ({
            let (s1, p1) = s.spec_start(picked1, pid1, child1);
            let (s2, p2) = s1.spec_start(picked2, pid2, child2);
            &&& p2 == p1
            &&& s2 == s1
            &&& s1.running
            &&& s1.child is Some
        }),
{
}

/// The two-step start protocol — [`choose_port`] on what the picker
/// produced, then [`BackendState::record_start`] once the spawn
/// succeeded — implements [`BackendState::spec_start`] on a state that
/// was not running.
pub proof fn lemma_start_protocol(s: BackendState, picked: Option<u16>, pid: u32, child: u64)
    requires
        !s.running,
    ensures
        s.spec_start(picked, pid, child) == (
            s.started(spec_choose_port(picked), pid, child),
            spec_choose_port(picked),
        ),
{
}

/// Idempotent stop: on a well-formed state that is not running, the
/// settling transition leaves every field unchanged, and the stop plan
/// built from such a state carries no kill work.
pub proof fn lemma_stop_idempotent(s: BackendState)
    requires
        s.wf(),
        !s.running,
    ensures
        s.settled() == s,
{
}

/// Terminal-state exclusivity: however many settling steps race for the
/// state (concurrent stop calls, a spontaneous child exit), after at least
/// one of them the state is no longer running, and exactly one step
/// performed the clearing when the state was running — none when it was
/// not. Each step reports whether it was the one (see
/// [`BackendState::settle`]), and only the termination observation
/// forwards a termination event, so that event is forwarded exactly once
/// per child lifetime.
pub proof fn lemma_settle_exactly_once(s: BackendState, n: nat)
    requires
        n >= 1,
    ensures
        clear_count(s, n) == if s.running { 1nat } else { 0nat },
        !settle_trace(s, n).running,
    decreases n,
{
    if n == 1 {
        assert(settle_trace(s, 0) == s);
        assert(clear_count(s, 0) == 0);
        assert(settle_trace(s, 1) == s.settled());
    } else {
        lemma_settle_exactly_once(s, (n - 1) as nat);
    }
}

/// Port uniqueness: two supervisors (or two sequential start/stop cycles)
/// that were handed distinct successfully picked ports both end up
/// running, and never report the same port while both report running.
pub proof fn lemma_port_uniqueness(
    a: BackendState,
    b: BackendState,
    picked_a: Option<u16>,
    pid_a: u32,
    child_a: u64,
    picked_b: Option<u16>,
    pid_b: u32,
    child_b: u64,
)
    requires
        !a.running,
        !b.running,
        picked_a is Some,
        picked_b is Some,
        picked_a != picked_b,
    ensures
        ({
            let (a1, ra) = a.spec_start(picked_a, pid_a, child_a);
            let (b1, rb) = b.spec_start(picked_b, pid_b, child_b);
            &&& a1.running
            &&& b1.running
            &&& a1.port != b1.port
            &&& ra != rb
        }),
{
}

} // verus!
