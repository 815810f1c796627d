//! Search-path resolver for the launch environment.
//!
//! A desktop application launched from a graphical shell inherits a sparse
//! environment, so the supervisor builds its own search path: the
//! platform's package-manager locations, then version-manager locations
//! under the user's home directory (including the results of scanning
//! roots that hold one directory per installed version), and finally the
//! inherited path, so a lookup falls back to the user's own entries.
//!
//! Reading the environment and scanning directories is the host driver's
//! work; it hands the values in as plain strings. Resolution is total: it
//! never fails, an unset variable degrades to an empty substitution, and
//! an absent scan root degrades to an empty scan result.

use vstd::prelude::*;
use vstd::string::StringExecFns;
use crate::Platform;
use crate::text::{is_prefix, starts_with_bytes};

verus! {

/// Everything the resolver reads, gathered by the host driver: the
/// inherited search path and home directory (empty when unset), the
/// platform's environment variables (absent when unset), and the `bin`
/// directories found by scanning version-manager install roots (empty
/// when the root is absent).
pub struct ResolverInput {
    pub current_path: String,
    pub home: String,
    pub program_files: Option<String>,
    pub program_files_x86: Option<String>,
    pub appdata: Option<String>,
    pub localappdata: Option<String>,
    pub nvm_home: Option<String>,
    pub package_scan_bins: Vec<String>,
    pub version_scan_bins: Vec<String>,
}

/// `paths` joined with `sep` between adjacent entries.
pub open spec fn spec_join(paths: Seq<Seq<char>>, sep: Seq<char>) -> Seq<char>
    decreases paths.len(),
{
    if paths.len() == 0 {
        Seq::empty()
    } else if paths.len() == 1 {
        paths[0]
    } else {
        spec_join(paths.drop_last(), sep) + sep + paths.last()
    }
}

/// The platform's path-list separator.
pub open spec fn spec_sep(platform: Platform) -> Seq<char> {
    if platform is Windows {
        ";"@
    } else {
        ":"@
    }
}

/// The fixed package-manager locations on macOS, ending with the
/// user-level pnpm directory.
pub open spec fn spec_mac_fixed_paths(home: Seq<char>) -> Seq<Seq<char>> {
    seq![
        "/opt/homebrew/bin"@,
        "/opt/homebrew/sbin"@,
        "/usr/local/bin"@,
        "/usr/local/sbin"@,
        "/usr/bin"@,
        "/bin"@,
        "/usr/sbin"@,
        "/sbin"@,
        home + "/Library/pnpm"@,
    ]
}

/// The fixed system locations on Linux.
pub open spec fn spec_linux_fixed_paths() -> Seq<Seq<char>> {
    seq![
        "/usr/local/bin"@,
        "/usr/local/sbin"@,
        "/usr/bin"@,
        "/bin"@,
        "/usr/sbin"@,
        "/sbin"@,
    ]
}

/// The version-manager locations under a Unix home directory.
pub open spec fn spec_unix_user_paths(home: Seq<char>) -> Seq<Seq<char>> {
    seq![
        home + "/.volta/bin"@,
        home + "/.fnm/aliases/default/bin"@,
        home + "/.pyenv/shims"@,
        home + "/.pyenv/bin"@,
        home + "/.npm-global/bin"@,
        home + "/.local/bin"@,
    ]
}

/// The locations derived from Windows environment variables, each block
/// present exactly when its variable is set.
pub open spec fn spec_windows_env_paths(input: ResolverInput) -> Seq<Seq<char>> {
    (match input.program_files {
        Some(pf) => seq![pf@ + "\\nodejs"@, pf@ + "\\Git\\cmd"@],
        None => Seq::<Seq<char>>::empty(),
    }) + (match input.program_files_x86 {
        Some(pf) => seq![pf@ + "\\nodejs"@],
        None => Seq::<Seq<char>>::empty(),
    }) + (match input.appdata {
        Some(ad) => seq![ad@ + "\\npm"@],
        None => Seq::<Seq<char>>::empty(),
    }) + (match input.localappdata {
        Some(lad) => seq![
            lad@ + "\\Programs\\Python\\Python312"@,
            lad@ + "\\Programs\\Python\\Python311"@,
            lad@ + "\\Programs\\Python\\Python310"@,
        ],
        None => Seq::<Seq<char>>::empty(),
    })
}

/// The user-level locations on Windows, ending with the Windows
/// node-version-manager root when its variable is set.
pub open spec fn spec_windows_user_paths(input: ResolverInput) -> Seq<Seq<char>> {
    seq![input.home@ + "\\AppData\\Roaming\\npm"@, input.home@ + "\\.volta\\bin"@]
        + (match input.nvm_home {
        Some(nh) => seq![nh@],
        None => Seq::<Seq<char>>::empty(),
    })
}

/// The resolver's ordered candidate list: the platform's fixed and
/// environment-derived locations, the scanned version-manager `bin`
/// directories, and last the inherited path when it is non-empty.
pub open spec fn spec_candidates(platform: Platform, input: ResolverInput) -> Seq<Seq<char>> {
    let scans = input.package_scan_bins@.map_values(|p: String| p@);
    let vscans = input.version_scan_bins@.map_values(|p: String| p@);
    let base = match platform {
        Platform::MacOs => spec_mac_fixed_paths(input.home@) + scans + spec_unix_user_paths(
            input.home@,
        ) + vscans,
        Platform::Linux => spec_linux_fixed_paths() + spec_unix_user_paths(input.home@) + vscans,
        Platform::Windows => spec_windows_env_paths(input) + spec_windows_user_paths(input),
    };
    if input.current_path@.len() == 0 {
        base
    } else {
        base + seq![input.current_path@]
    }
}

/// The resolved search path: the candidates joined with the platform's
/// separator.
pub open spec fn spec_search_path(platform: Platform, input: ResolverInput) -> Seq<char> {
    spec_join(spec_candidates(platform, input), spec_sep(platform))
}

/// The join is at least as long as any one entry.
proof fn lemma_join_len(paths: Seq<Seq<char>>, sep: Seq<char>, i: int)
    requires
        0 <= i < paths.len(),
    ensures
        spec_join(paths, sep).len() >= paths[i].len(),
    decreases paths.len(),
{
    if paths.len() > 1 && i < paths.len() - 1 {
        lemma_join_len(paths.drop_last(), sep, i);
    }
}

/// The resolver's own candidates take precedence: when the inherited path
/// is non-empty it stands last, so the resolved string ends with the
/// separator followed by the inherited path.
pub proof fn lemma_inherited_path_last(platform: Platform, input: ResolverInput)
    requires
        input.current_path@.len() > 0,
    ensures
        ({
            let r = spec_search_path(platform, input);
            let cur = input.current_path@;
            let sep = spec_sep(platform);
            &&& r.len() >= cur.len() + sep.len()
            &&& r.subrange(r.len() - cur.len(), r.len() as int) == cur
            &&& r.subrange(r.len() - cur.len() - sep.len(), r.len() - cur.len()) == sep
        }),
{
    let c = spec_candidates(platform, input);
    let cur = input.current_path@;
    let sep = spec_sep(platform);
    let scans = input.package_scan_bins@.map_values(|p: String| p@);
    let vscans = input.version_scan_bins@.map_values(|p: String| p@);
    let base = match platform {
        Platform::MacOs => spec_mac_fixed_paths(input.home@) + scans + spec_unix_user_paths(
            input.home@,
        ) + vscans,
        Platform::Linux => spec_linux_fixed_paths() + spec_unix_user_paths(input.home@) + vscans,
        Platform::Windows => spec_windows_env_paths(input) + spec_windows_user_paths(input),
    };
    assert(base.len() >= 1);
    assert(c == base + seq![cur]);
    assert(c.drop_last() =~= base);
    assert(c.last() == cur);
    let r = spec_search_path(platform, input);
    assert(r == spec_join(base, sep) + sep + cur);
    assert(r.subrange(r.len() - cur.len(), r.len() as int) =~= cur);
    assert(r.subrange(r.len() - cur.len() - sep.len(), r.len() - cur.len()) =~= sep);
}

/// Append clones of all of `more` to `paths`.
fn push_all(paths: &mut Vec<String>, more: &Vec<String>)
    ensures
        final(paths)@.map_values(|p: String| p@) == old(paths)@.map_values(|p: String| p@)
            + more@.map_values(|p: String| p@),
{
    let n: usize = more.len();
    let mut i: usize = 0;
    while i < n
        invariant
            n == more@.len(),
            i <= n,
            paths@.map_values(|p: String| p@) == old(paths)@.map_values(|p: String| p@)
                + more@.map_values(|p: String| p@).subrange(0, i as int),
        decreases n - i,
    {
        let item: String = more[i].clone();
        let ghost prev: Seq<String> = paths@;
        paths.push(item);
        proof {
            let f = |p: String| p@;
            assert(item@ == more@[i as int]@);
            assert(paths@ == prev.push(item));
            assert(paths@.map_values(f) =~= prev.map_values(f).push(item@));
            assert(more@.map_values(f).subrange(0, i + 1) =~= more@.map_values(f).subrange(
                0,
                i as int,
            ).push(more@[i as int]@));
            assert(paths@.map_values(f) =~= old(paths)@.map_values(f) + more@.map_values(
                f,
            ).subrange(0, i + 1));
        }
        i = i + 1;
    }
    proof {
        let f = |p: String| p@;
        assert(more@.map_values(f).subrange(0, n as int) =~= more@.map_values(f));
    }
}

/// Append the Unix version-manager locations under `home`.
fn push_unix_user_paths(paths: &mut Vec<String>, home: &String)
    ensures
        final(paths)@.map_values(|p: String| p@) == old(paths)@.map_values(|p: String| p@)
            + spec_unix_user_paths(home@),
{
    paths.push(home.clone().concat("/.volta/bin"));
    paths.push(home.clone().concat("/.fnm/aliases/default/bin"));
    paths.push(home.clone().concat("/.pyenv/shims"));
    paths.push(home.clone().concat("/.pyenv/bin"));
    paths.push(home.clone().concat("/.npm-global/bin"));
    paths.push(home.clone().concat("/.local/bin"));
    proof {
        let f = |p: String| p@;
        assert(paths@.map_values(f) =~= old(paths)@.map_values(f) + spec_unix_user_paths(home@));
    }
}

/// Join the candidate paths with the separator.
fn join_paths(paths: &Vec<String>, sep: &str) -> (r: String)
    ensures
        r@ == spec_join(paths@.map_values(|p: String| p@), sep@),
{
    let n: usize = paths.len();
    let mut r: String = String::new();
    if n == 0 {
        return r;
    }
    r.append(paths[0].as_str());
    proof {
        let m = paths@.map_values(|p: String| p@);
        assert(r@ == spec_join(m.subrange(0, 1), sep@));
    }
    let mut i: usize = 1;
    while i < n
        invariant
            n == paths@.len(),
            1 <= i <= n,
            r@ == spec_join(paths@.map_values(|p: String| p@).subrange(0, i as int), sep@),
        decreases n - i,
    {
        r.append(sep);
        r.append(paths[i].as_str());
        proof {
            let m = paths@.map_values(|p: String| p@);
            assert(m.subrange(0, i + 1).drop_last() =~= m.subrange(0, i as int));
            assert(m.subrange(0, i + 1).last() == m[i as int]);
        }
        i = i + 1;
    }
    proof {
        let m = paths@.map_values(|p: String| p@);
        assert(m.subrange(0, n as int) =~= m);
    }
    r
}

/// Build the search path handed to the spawned child as its `PATH` (or
/// platform equivalent). Total: every combination of present and absent
/// inputs yields a non-empty path list, and the inherited path, when
/// non-empty, stands last so the resolver's own candidates take
/// precedence.
pub fn resolve_search_path(platform: Platform, input: &ResolverInput) -> (r: String)
    ensures
        r@ == spec_search_path(platform, *input),
        r@.len() > 0,
{
    let mut paths: Vec<String> = Vec::new();
    match platform {
        Platform::MacOs => {
            paths.push("/opt/homebrew/bin".to_owned());
            paths.push("/opt/homebrew/sbin".to_owned());
            paths.push("/usr/local/bin".to_owned());
            paths.push("/usr/local/sbin".to_owned());
            paths.push("/usr/bin".to_owned());
            paths.push("/bin".to_owned());
            paths.push("/usr/sbin".to_owned());
            paths.push("/sbin".to_owned());
            paths.push(input.home.clone().concat("/Library/pnpm"));
            proof {
                let f = |p: String| p@;
                assert(paths@.map_values(f) =~= spec_mac_fixed_paths(input.home@));
            }
            push_all(&mut paths, &input.package_scan_bins);
            push_unix_user_paths(&mut paths, &input.home);
            push_all(&mut paths, &input.version_scan_bins);
        },
        Platform::Linux => {
            paths.push("/usr/local/bin".to_owned());
            paths.push("/usr/local/sbin".to_owned());
            paths.push("/usr/bin".to_owned());
            paths.push("/bin".to_owned());
            paths.push("/usr/sbin".to_owned());
            paths.push("/sbin".to_owned());
            proof {
                let f = |p: String| p@;
                assert(paths@.map_values(f) =~= spec_linux_fixed_paths());
            }
            push_unix_user_paths(&mut paths, &input.home);
            push_all(&mut paths, &input.version_scan_bins);
        },
        Platform::Windows => {
            match &input.program_files {
                Some(pf) => {
                    paths.push(pf.clone().concat("\\nodejs"));
                    paths.push(pf.clone().concat("\\Git\\cmd"));
                },
                None => {},
            }
            match &input.program_files_x86 {
                Some(pf) => {
                    paths.push(pf.clone().concat("\\nodejs"));
                },
                None => {},
            }
            match &input.appdata {
                Some(ad) => {
                    paths.push(ad.clone().concat("\\npm"));
                },
                None => {},
            }
            match &input.localappdata {
                Some(lad) => {
                    paths.push(lad.clone().concat("\\Programs\\Python\\Python312"));
                    paths.push(lad.clone().concat("\\Programs\\Python\\Python311"));
                    paths.push(lad.clone().concat("\\Programs\\Python\\Python310"));
                },
                None => {},
            }
            proof {
                let f = |p: String| p@;
                assert(paths@.map_values(f) =~= spec_windows_env_paths(*input));
            }
            paths.push(input.home.clone().concat("\\AppData\\Roaming\\npm"));
            paths.push(input.home.clone().concat("\\.volta\\bin"));
            match &input.nvm_home {
                Some(nh) => {
                    paths.push(nh.clone());
                },
                None => {},
            }
            proof {
                let f = |p: String| p@;
                assert(paths@.map_values(f) =~= spec_windows_env_paths(*input)
                    + spec_windows_user_paths(*input));
            }
        },
    }
    if !input.current_path.as_str().is_empty() {
        paths.push(input.current_path.clone());
    }
    proof {
        let f = |p: String| p@;
        assert(paths@.map_values(f) =~= spec_candidates(platform, *input));
    }
    let sep: &str = match platform {
        Platform::Windows => ";",
        Platform::MacOs => ":",
        Platform::Linux => ":",
    };
    let r = join_paths(&paths, sep);
    proof {
        let c = spec_candidates(platform, *input);
        match platform {
            Platform::MacOs => {
                reveal_strlit("/opt/homebrew/bin");
                lemma_join_len(c, spec_sep(platform), 0);
            },
            Platform::Linux => {
                reveal_strlit("/usr/local/bin");
                lemma_join_len(c, spec_sep(platform), 0);
            },
            Platform::Windows => {
                reveal_strlit("\\AppData\\Roaming\\npm");
                let k = spec_windows_env_paths(*input).len() as int;
                assert(c[k] == input.home@ + "\\AppData\\Roaming\\npm"@);
                lemma_join_len(c, spec_sep(platform), k);
            },
        }
    }
    r
}

/// Which entries of a per-version package install root are scanned for a
/// runtime: directory names beginning with the node or python package
/// name (plain or version-suffixed).
pub open spec fn spec_runtime_package_name(name: Seq<u8>) -> bool {
    ||| is_prefix("node"@.map_values(|c: char| c as u8), name)
    ||| is_prefix("python"@.map_values(|c: char| c as u8), name)
}

/// Exec counterpart of [`spec_runtime_package_name`]; the driver applies
/// it to each directory-entry name found under the install root.
pub fn runtime_package_name(name: &[u8]) -> (r: bool)
    ensures
        r == spec_runtime_package_name(name@),
{
    let node = crate::text::ascii_bytes_of("node");
    let python = crate::text::ascii_bytes_of("python");
    starts_with_bytes(name, node.as_slice()) || starts_with_bytes(name, python.as_slice())
}

} // verus!
