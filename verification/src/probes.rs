//! Runtime-version probes and the Git-Bash lookup.
//!
//! The probes are read-only diagnostics: they run a candidate command
//! (with the resolver's search path), fall back to a login shell or a
//! scripting host, and report the first version string found. Running
//! commands and testing file existence is the host driver's work; this
//! module fixes the attempt order, classifies each attempt's outcome and
//! selects the first hit — or the single descriptive error once every
//! fallback is exhausted.

use vstd::prelude::*;
use vstd::string::StringExecFns;
use crate::Platform;
use crate::text::{spec_trim, trim_ascii_bytes};

verus! {

/// Result of running one probe command.
pub enum ProbeOutcome {
    /// The command could not be run at all.
    Failed,
    /// The command ran; its exit status and captured output.
    Finished { success: bool, stdout: Vec<u8>, stderr: Vec<u8> },
}

/// How a successful attempt's output is turned into a version string.
#[derive(Clone, Copy, PartialEq, Eq, Structural, Debug)]
pub enum VersionRule {
    /// Trimmed standard output, even when empty.
    TrimmedStdout,
    /// Trimmed standard output, only when non-empty.
    NonEmptyTrimmedStdout,
    /// Standard output when it has any bytes, else standard error
    /// (some runtimes print their version there), trimmed, only when
    /// the trimmed result is non-empty.
    NonEmptyTrimmedStdoutOrStderr,
}

/// One attempt: its classification rule and what running it produced.
pub struct ProbeAttempt {
    pub rule: VersionRule,
    pub outcome: ProbeOutcome,
}

/// One command of a probe plan, for the host driver to run in order.
pub struct ProbeCommand {
    pub program: String,
    pub args: Vec<String>,
    pub use_resolved_path: bool,
    pub rule: VersionRule,
}

/// A probe's single descriptive error, reported only after every
/// fallback is exhausted.
#[derive(Clone, Copy, PartialEq, Eq, Structural, Debug)]
pub enum ProbeError {
    NodeMissing,
    PythonMissing,
    NotApplicable,
    GitBashMissing,
}

impl ProbeError {
    /// The message shown to the caller.
    pub fn message(&self) -> (r: String)
        ensures
            *self is NodeMissing ==> r@ == "Node.js is not installed or not in PATH"@,
            *self is PythonMissing ==> r@ == "Python is not installed or not in PATH"@,
            *self is NotApplicable ==> r@ == "Not applicable on this platform"@,
            *self is GitBashMissing ==> r@ == "Git Bash not found"@,
    {
        match self {
            ProbeError::NodeMissing => "Node.js is not installed or not in PATH".to_owned(),
            ProbeError::PythonMissing => "Python is not installed or not in PATH".to_owned(),
            ProbeError::NotApplicable => "Not applicable on this platform".to_owned(),
            ProbeError::GitBashMissing => "Git Bash not found".to_owned(),
        }
    }
}

/// The version string one attempt yields, if any: nothing for a command
/// that could not run or exited unsuccessfully, otherwise its output read
/// under the attempt's rule.
pub open spec fn spec_classify_version(rule: VersionRule, outcome: ProbeOutcome) -> Option<
    Seq<u8>,
> {
    match outcome {
        ProbeOutcome::Failed => None,
        ProbeOutcome::Finished { success, stdout, stderr } => {
            if !success {
                None
            } else {
                match rule {
                    VersionRule::TrimmedStdout => Some(spec_trim(stdout@)),
                    VersionRule::NonEmptyTrimmedStdout => {
                        let t = spec_trim(stdout@);
                        if t.len() > 0 {
                            Some(t)
                        } else {
                            None
                        }
                    },
                    VersionRule::NonEmptyTrimmedStdoutOrStderr => {
                        let raw = if stdout@.len() > 0 {
                            stdout@
                        } else {
                            stderr@
                        };
                        let t = spec_trim(raw);
                        if t.len() > 0 {
                            Some(t)
                        } else {
                            None
                        }
                    },
                }
            }
        },
    }
}

/// Exec counterpart of [`spec_classify_version`].
pub fn classify_version(rule: &VersionRule, outcome: &ProbeOutcome) -> (r: Option<Vec<u8>>)
    ensures
        (r is Some) == (spec_classify_version(*rule, *outcome) is Some),
        r matches Some(v) ==> spec_classify_version(*rule, *outcome) matches Some(sv) && v@ == sv,
{
    match outcome {
        ProbeOutcome::Failed => None,
        ProbeOutcome::Finished { success, stdout, stderr } => {
            if !*success {
                None
            } else {
                match rule {
                    VersionRule::TrimmedStdout => Some(trim_ascii_bytes(stdout.as_slice())),
                    VersionRule::NonEmptyTrimmedStdout => {
                        let t = trim_ascii_bytes(stdout.as_slice());
                        if t.len() > 0 {
                            Some(t)
                        } else {
                            None
                        }
                    },
                    VersionRule::NonEmptyTrimmedStdoutOrStderr => {
                        let t = if stdout.len() > 0 {
                            trim_ascii_bytes(stdout.as_slice())
                        } else {
                            trim_ascii_bytes(stderr.as_slice())
                        };
                        if t.len() > 0 {
                            Some(t)
                        } else {
                            None
                        }
                    },
                }
            }
        },
    }
}

/// The first attempt from index `i` on that yields a version string.
pub open spec fn spec_first_version_from(attempts: Seq<ProbeAttempt>, i: int) -> Option<Seq<u8>>
    decreases attempts.len() - i,
{
    if i < 0 || i >= attempts.len() {
        None
    } else {
        match spec_classify_version(attempts[i].rule, attempts[i].outcome) {
            Some(v) => Some(v),
            None => spec_first_version_from(attempts, i + 1),
        }
    }
}

/// Walk the attempts in order and keep the first version string found.
pub fn first_version(attempts: &Vec<ProbeAttempt>) -> (r: Option<Vec<u8>>)
    ensures
        (r is Some) == (spec_first_version_from(attempts@, 0) is Some),
        r matches Some(v) ==> spec_first_version_from(attempts@, 0) matches Some(sv) && v@ == sv,
{
    let n: usize = attempts.len();
    let mut i: usize = 0;
    while i < n
        invariant
            n == attempts@.len(),
            i <= n,
            spec_first_version_from(attempts@, 0) == spec_first_version_from(attempts@, i as int),
        decreases n - i,
    {
        let c = classify_version(&attempts[i].rule, &attempts[i].outcome);
        match c {
            Some(v) => {
                return Some(v);
            },
            None => {},
        }
        i = i + 1;
    }
    None
}

/// The version reported for the Node.js runtime: the first attempt that
/// yields one, or the probe's single descriptive error after all
/// fallbacks are exhausted.
pub fn check_nodejs_version(attempts: &Vec<ProbeAttempt>) -> (r: Result<Vec<u8>, ProbeError>)
    ensures
        (r is Ok) == (spec_first_version_from(attempts@, 0) is Some),
        r matches Ok(v) ==> spec_first_version_from(attempts@, 0) matches Some(sv) && v@ == sv,
        r matches Err(e) ==> e == ProbeError::NodeMissing,
{
    match first_version(attempts) {
        Some(v) => Ok(v),
        None => Err(ProbeError::NodeMissing),
    }
}

/// The version reported for the Python runtime, as
/// [`check_nodejs_version`] with its own error.
pub fn check_python_version(attempts: &Vec<ProbeAttempt>) -> (r: Result<Vec<u8>, ProbeError>)
    ensures
        (r is Ok) == (spec_first_version_from(attempts@, 0) is Some),
        r matches Ok(v) ==> spec_first_version_from(attempts@, 0) matches Some(sv) && v@ == sv,
        r matches Err(e) ==> e == ProbeError::PythonMissing,
{
    match first_version(attempts) {
        Some(v) => Ok(v),
        None => Err(ProbeError::PythonMissing),
    }
}

/// The Node.js probe plan, in attempt order: the runtime itself, run with
/// the resolver's search path; then a fallback that sources the user's
/// profile — the login shell on Unix-likes (version managers initialise
/// there), the scripting host on Windows.
pub fn node_probe_plan(platform: Platform, shell: &Option<String>) -> (r: Vec<ProbeCommand>)
    ensures
        r@.len() == 2,
        platform is Windows ==> {
            &&& r@[0].program@ == "node.exe"@
            &&& r@[1].program@ == "powershell"@
            &&& r@[1].args@.map_values(|a: String| a@) == seq![
                "-NoProfile"@,
                "-Command"@,
                "node --version"@,
            ]
        },
        !(platform is Windows) ==> {
            &&& r@[0].program@ == "node"@
            &&& r@[1].program@ == (match *shell {
                Some(s) => s@,
                None => "/bin/zsh"@,
            })
            &&& r@[1].args@.map_values(|a: String| a@) == seq!["-l"@, "-c"@, "node --version"@]
        },
        r@[0].args@.map_values(|a: String| a@) == seq!["--version"@],
        r@[0].use_resolved_path == true,
        r@[0].rule == VersionRule::TrimmedStdout,
        r@[1].use_resolved_path == false,
        r@[1].rule == VersionRule::TrimmedStdout,
{
    let mut direct_args: Vec<String> = Vec::new();
    direct_args.push("--version".to_owned());
    proof {
        assert(direct_args@.map_values(|a: String| a@) =~= seq!["--version"@]);
    }
    let mut r: Vec<ProbeCommand> = Vec::new();
    match platform {
        Platform::Windows => {
            r.push(ProbeCommand {
                program: "node.exe".to_owned(),
                args: direct_args,
                use_resolved_path: true,
                rule: VersionRule::TrimmedStdout,
            });
            let mut ps_args: Vec<String> = Vec::new();
            ps_args.push("-NoProfile".to_owned());
            ps_args.push("-Command".to_owned());
            ps_args.push("node --version".to_owned());
            proof {
                assert(ps_args@.map_values(|a: String| a@) =~= seq![
                    "-NoProfile"@,
                    "-Command"@,
                    "node --version"@,
                ]);
            }
            r.push(ProbeCommand {
                program: "powershell".to_owned(),
                args: ps_args,
                use_resolved_path: false,
                rule: VersionRule::TrimmedStdout,
            });
        },
        _ => {
            r.push(ProbeCommand {
                program: "node".to_owned(),
                args: direct_args,
                use_resolved_path: true,
                rule: VersionRule::TrimmedStdout,
            });
            let login_shell: String = match shell {
                Some(s) => s.clone(),
                None => "/bin/zsh".to_owned(),
            };
            let mut sh_args: Vec<String> = Vec::new();
            sh_args.push("-l".to_owned());
            sh_args.push("-c".to_owned());
            sh_args.push("node --version".to_owned());
            proof {
                assert(sh_args@.map_values(|a: String| a@) =~= seq![
                    "-l"@,
                    "-c"@,
                    "node --version"@,
                ]);
            }
            r.push(ProbeCommand {
                program: login_shell,
                args: sh_args,
                use_resolved_path: false,
                rule: VersionRule::TrimmedStdout,
            });
        },
    }
    r
}

/// The Python probe plan, in attempt order: each candidate interpreter
/// name, run with the resolver's search path; then the profile-sourcing
/// fallback; on Unix-likes finally the Python version manager's shim
/// under the user's home directory, run directly.
pub fn python_probe_plan(platform: Platform, shell: &Option<String>, home: &String) -> (r: Vec<
    ProbeCommand,
>)
    ensures
        r@.len() == 4,
        platform is Windows ==> {
            &&& r@[0].program@ == "python.exe"@
            &&& r@[1].program@ == "python3.exe"@
            &&& r@[2].program@ == "py.exe"@
            &&& r@[1].use_resolved_path == true
            &&& r@[2].use_resolved_path == true
            &&& r@[1].rule == VersionRule::NonEmptyTrimmedStdoutOrStderr
            &&& r@[2].rule == VersionRule::NonEmptyTrimmedStdoutOrStderr
            &&& r@[1].args@.map_values(|a: String| a@) == seq!["--version"@]
            &&& r@[2].args@.map_values(|a: String| a@) == seq!["--version"@]
            &&& r@[3].program@ == "powershell"@
            &&& r@[3].args@.map_values(|a: String| a@) == seq![
                "-NoProfile"@,
                "-Command"@,
                "python --version"@,
            ]
            &&& r@[3].rule == VersionRule::NonEmptyTrimmedStdoutOrStderr
        },
        !(platform is Windows) ==> {
            &&& r@[0].program@ == "python3"@
            &&& r@[1].program@ == "python"@
            &&& r@[1].use_resolved_path == true
            &&& r@[1].rule == VersionRule::NonEmptyTrimmedStdoutOrStderr
            &&& r@[1].args@.map_values(|a: String| a@) == seq!["--version"@]
            &&& r@[2].program@ == (match *shell {
                Some(s) => s@,
                None => "/bin/zsh"@,
            })
            &&& r@[2].args@.map_values(|a: String| a@) == seq![
                "-l"@,
                "-c"@,
                "python3 --version 2>&1 || python --version 2>&1"@,
            ]
            &&& r@[2].rule == VersionRule::NonEmptyTrimmedStdout
            &&& r@[2].use_resolved_path == false
            &&& r@[3].program@ == home@ + "/.pyenv/shims/python3"@
            &&& r@[3].args@.map_values(|a: String| a@) == seq!["--version"@]
            &&& r@[3].rule == VersionRule::TrimmedStdout
        },
        r@[0].args@.map_values(|a: String| a@) == seq!["--version"@],
        r@[0].use_resolved_path == true,
        r@[0].rule == VersionRule::NonEmptyTrimmedStdoutOrStderr,
        r@[3].use_resolved_path == false,
{
    let mut r: Vec<ProbeCommand> = Vec::new();
    match platform {
        Platform::Windows => {
            r.push(version_probe("python.exe", VersionRule::NonEmptyTrimmedStdoutOrStderr));
            r.push(version_probe("python3.exe", VersionRule::NonEmptyTrimmedStdoutOrStderr));
            r.push(version_probe("py.exe", VersionRule::NonEmptyTrimmedStdoutOrStderr));
            let mut ps_args: Vec<String> = Vec::new();
            ps_args.push("-NoProfile".to_owned());
            ps_args.push("-Command".to_owned());
            ps_args.push("python --version".to_owned());
            proof {
                assert(ps_args@.map_values(|a: String| a@) =~= seq![
                    "-NoProfile"@,
                    "-Command"@,
                    "python --version"@,
                ]);
            }
            r.push(ProbeCommand {
                program: "powershell".to_owned(),
                args: ps_args,
                use_resolved_path: false,
                rule: VersionRule::NonEmptyTrimmedStdoutOrStderr,
            });
        },
        _ => {
            r.push(version_probe("python3", VersionRule::NonEmptyTrimmedStdoutOrStderr));
            r.push(version_probe("python", VersionRule::NonEmptyTrimmedStdoutOrStderr));
            let login_shell: String = match shell {
                Some(s) => s.clone(),
                None => "/bin/zsh".to_owned(),
            };
            let mut sh_args: Vec<String> = Vec::new();
            sh_args.push("-l".to_owned());
            sh_args.push("-c".to_owned());
            sh_args.push("python3 --version 2>&1 || python --version 2>&1".to_owned());
            proof {
                assert(sh_args@.map_values(|a: String| a@) =~= seq![
                    "-l"@,
                    "-c"@,
                    "python3 --version 2>&1 || python --version 2>&1"@,
                ]);
            }
            r.push(ProbeCommand {
                program: login_shell,
                args: sh_args,
                use_resolved_path: false,
                rule: VersionRule::NonEmptyTrimmedStdout,
            });
            let mut shim_args: Vec<String> = Vec::new();
            shim_args.push("--version".to_owned());
            proof {
                assert(shim_args@.map_values(|a: String| a@) =~= seq!["--version"@]);
            }
            r.push(ProbeCommand {
                program: home.clone().concat("/.pyenv/shims/python3"),
                args: shim_args,
                use_resolved_path: false,
                rule: VersionRule::TrimmedStdout,
            });
        },
    }
    r
}

/// A direct interpreter probe: the program run with `--version` under the
/// resolver's search path.
fn version_probe(program: &str, rule: VersionRule) -> (r: ProbeCommand)
    ensures
        r.program@ == program@,
        r.args@.map_values(|a: String| a@) == seq!["--version"@],
        r.use_resolved_path == true,
        r.rule == rule,
{
    let mut args: Vec<String> = Vec::new();
    args.push("--version".to_owned());
    proof {
        assert(args@.map_values(|a: String| a@) =~= seq!["--version"@]);
    }
    ProbeCommand { program: program.to_owned(), args, use_resolved_path: true, rule }
}

/// A filesystem path together with whether it exists, as the host driver
/// found it.
pub struct PathCandidate {
    pub path: String,
    pub exists: bool,
}

/// The first existing candidate from index `i` on.
pub open spec fn spec_first_existing(c: Seq<PathCandidate>, i: int) -> Option<Seq<char>>
    decreases c.len() - i,
{
    if i < 0 || i >= c.len() {
        None
    } else if c[i].exists {
        Some(c[i].path@)
    } else {
        spec_first_existing(c, i + 1)
    }
}

/// The Git-Bash lookup: meaningless off Windows (a no-op error); on
/// Windows the first existing candidate path wins, and only when none
/// exists is the not-found error reported.
pub fn check_git_bash_path(platform: Platform, candidates: &Vec<PathCandidate>) -> (r: Result<
    String,
    ProbeError,
>)
    ensures
        !platform.needs_tree_kill() ==> (r matches Err(e) && e == ProbeError::NotApplicable),
        platform is Windows ==> {
            &&& (r is Ok) == (spec_first_existing(candidates@, 0) is Some)
            &&& (r matches Ok(p) ==> spec_first_existing(candidates@, 0) matches Some(sp)
                && p@ == sp)
            &&& (r matches Err(e) ==> e == ProbeError::GitBashMissing)
        },
{
    match platform {
        Platform::MacOs => Err(ProbeError::NotApplicable),
        Platform::Linux => Err(ProbeError::NotApplicable),
        Platform::Windows => {
            let n: usize = candidates.len();
            let mut i: usize = 0;
            while i < n
                invariant
                    platform is Windows,
                    n == candidates@.len(),
                    i <= n,
                    spec_first_existing(candidates@, 0) == spec_first_existing(
                        candidates@,
                        i as int,
                    ),
                decreases n - i,
            {
                if candidates[i].exists {
                    return Ok(candidates[i].path.clone());
                }
                i = i + 1;
            }
            Err(ProbeError::GitBashMissing)
        },
    }
}

/// The ordered Git-Bash candidate paths on Windows: the environment
/// override first, then the per-user and machine-wide install locations,
/// then the two default installation paths.
pub open spec fn spec_git_bash_candidates(
    override_path: Option<String>,
    localappdata: Option<String>,
    program_files: Option<String>,
) -> Seq<Seq<char>> {
    (match override_path {
        Some(p) => seq![p@],
        None => Seq::<Seq<char>>::empty(),
    }) + (match localappdata {
        Some(lad) => seq![lad@ + "\\Programs\\Git\\bin\\bash.exe"@],
        None => Seq::<Seq<char>>::empty(),
    }) + (match program_files {
        Some(pf) => seq![pf@ + "\\Git\\bin\\bash.exe"@],
        None => Seq::<Seq<char>>::empty(),
    }) + seq![
        "C:\\Program Files\\Git\\bin\\bash.exe"@,
        "C:\\Program Files (x86)\\Git\\bin\\bash.exe"@,
    ]
}

/// Exec counterpart of [`spec_git_bash_candidates`]; the host driver
/// pairs each path with its existence test.
pub fn git_bash_candidates(
    override_path: &Option<String>,
    localappdata: &Option<String>,
    program_files: &Option<String>,
) -> (r: Vec<String>)
    ensures
        r@.map_values(|p: String| p@) == spec_git_bash_candidates(
            *override_path,
            *localappdata,
            *program_files,
        ),
{
    let mut r: Vec<String> = Vec::new();
    match override_path {
        Some(p) => {
            r.push(p.clone());
        },
        None => {},
    }
    match localappdata {
        Some(lad) => {
            r.push(lad.clone().concat("\\Programs\\Git\\bin\\bash.exe"));
        },
        None => {},
    }
    match program_files {
        Some(pf) => {
            r.push(pf.clone().concat("\\Git\\bin\\bash.exe"));
        },
        None => {},
    }
    r.push("C:\\Program Files\\Git\\bin\\bash.exe".to_owned());
    r.push("C:\\Program Files (x86)\\Git\\bin\\bash.exe".to_owned());
    proof {
        assert(r@.map_values(|p: String| p@) =~= spec_git_bash_candidates(
            *override_path,
            *localappdata,
            *program_files,
        ));
    }
    r
}

} // verus!
