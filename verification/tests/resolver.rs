use sidecar_supervisor::resolver::{ResolverInput, resolve_search_path, runtime_package_name};
use sidecar_supervisor::Platform;

fn empty_input() -> ResolverInput {
    ResolverInput {
        current_path: String::new(),
        home: String::new(),
        program_files: None,
        program_files_x86: None,
        appdata: None,
        localappdata: None,
        nvm_home: None,
        package_scan_bins: Vec::new(),
        version_scan_bins: Vec::new(),
    }
}

#[test]
fn linux_path_lists_fixed_then_user_then_scans_then_inherited() {
    let input = ResolverInput {
        current_path: "/usr/games".to_string(),
        home: "/home/u".to_string(),
        version_scan_bins: vec!["/home/u/.nvm/versions/node/v20.1.0/bin".to_string()],
        ..empty_input()
    };
    let got = resolve_search_path(Platform::Linux, &input);
    let expected = "/usr/local/bin:/usr/local/sbin:/usr/bin:/bin:/usr/sbin:/sbin:/home/u/.volta/bin:/home/u/.fnm/aliases/default/bin:/home/u/.pyenv/shims:/home/u/.pyenv/bin:/home/u/.npm-global/bin:/home/u/.local/bin:/home/u/.nvm/versions/node/v20.1.0/bin:/usr/games";
    assert_eq!(got, expected);
}

#[test]
fn macos_scanned_packages_come_between_fixed_and_user_paths() {
    let input = ResolverInput {
        current_path: "/usr/bin".to_string(),
        home: "/Users/u".to_string(),
        package_scan_bins: vec![
            "/opt/homebrew/opt/node@20/bin".to_string(),
            "/opt/homebrew/opt/python@3.12/bin".to_string(),
        ],
        ..empty_input()
    };
    let got = resolve_search_path(Platform::MacOs, &input);
    let parts: Vec<&str> = got.split(':').collect();
    assert_eq!(parts[0], "/opt/homebrew/bin");
    assert_eq!(parts[8], "/Users/u/Library/pnpm");
    assert_eq!(parts[9], "/opt/homebrew/opt/node@20/bin");
    assert_eq!(parts[10], "/opt/homebrew/opt/python@3.12/bin");
    assert_eq!(parts[11], "/Users/u/.volta/bin");
    assert_eq!(*parts.last().unwrap(), "/usr/bin");
}

#[test]
fn windows_path_uses_semicolons_and_env_blocks() {
    let input = ResolverInput {
        current_path: "C:\\Windows\\system32".to_string(),
        home: "C:\\Users\\u".to_string(),
        program_files: Some("C:\\Program Files".to_string()),
        program_files_x86: Some("C:\\Program Files (x86)".to_string()),
        appdata: Some("C:\\Users\\u\\AppData\\Roaming".to_string()),
        localappdata: Some("C:\\Users\\u\\AppData\\Local".to_string()),
        nvm_home: Some("C:\\nvm".to_string()),
        ..empty_input()
    };
    let got = resolve_search_path(Platform::Windows, &input);
    let parts: Vec<&str> = got.split(';').collect();
    assert_eq!(parts[0], "C:\\Program Files\\nodejs");
    assert_eq!(parts[1], "C:\\Program Files\\Git\\cmd");
    assert_eq!(parts[2], "C:\\Program Files (x86)\\nodejs");
    assert_eq!(parts[3], "C:\\Users\\u\\AppData\\Roaming\\npm");
    assert_eq!(parts[4], "C:\\Users\\u\\AppData\\Local\\Programs\\Python\\Python312");
    assert_eq!(parts[5], "C:\\Users\\u\\AppData\\Local\\Programs\\Python\\Python311");
    assert_eq!(parts[6], "C:\\Users\\u\\AppData\\Local\\Programs\\Python\\Python310");
    assert_eq!(parts[7], "C:\\Users\\u\\AppData\\Roaming\\npm");
    assert_eq!(parts[8], "C:\\Users\\u\\.volta\\bin");
    assert_eq!(parts[9], "C:\\nvm");
    assert_eq!(parts[10], "C:\\Windows\\system32");
    assert_eq!(parts.len(), 11);
}

#[test]
fn resolver_is_total_for_absent_inputs() {
    // Every combination of an absent home and absent scan roots still
    // yields a non-empty search path on every platform.
    for platform in [Platform::MacOs, Platform::Linux, Platform::Windows] {
        let got = resolve_search_path(platform, &empty_input());
        assert!(!got.is_empty());
    }
    let with_home = ResolverInput { home: "/home/u".to_string(), ..empty_input() };
    for platform in [Platform::MacOs, Platform::Linux, Platform::Windows] {
        let got = resolve_search_path(platform, &with_home);
        assert!(!got.is_empty());
    }
}

#[test]
fn inherited_path_is_skipped_when_empty() {
    let input = ResolverInput { home: "/home/u".to_string(), ..empty_input() };
    let got = resolve_search_path(Platform::Linux, &input);
    assert!(!got.ends_with(':'));
    assert!(got.ends_with("/home/u/.local/bin"));
}

#[test]
fn runtime_packages_are_node_and_python_prefixed() {
    assert!(runtime_package_name(b"node"));
    assert!(runtime_package_name(b"node@20"));
    assert!(runtime_package_name(b"python@3.12"));
    assert!(runtime_package_name(b"python"));
    assert!(!runtime_package_name(b"ruby"));
    assert!(!runtime_package_name(b"nod"));
    assert!(!runtime_package_name(b""));
}
