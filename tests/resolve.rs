use tsw::config::{Config, TERMUX_FS};
use tsw::env::{HostProbes, HostVars, TermuxEnv};
use tsw::error::{AppError, PathIssue};
use tsw::paths::PathFacts;

fn s(v: &str) -> String {
    v.to_string()
}

const FILE: PathFacts = PathFacts { exists: true, is_file: true, is_dir: false };
const DIR: PathFacts = PathFacts { exists: true, is_file: false, is_dir: true };
const MISSING: PathFacts = PathFacts { exists: false, is_file: false, is_dir: false };

fn config() -> Config {
    Config {
        su_file: s("/system/bin/su"),
        home_dir: s("/data/data/com.termux/files/root"),
        shell: s("bash"),
        path_env: s("/usr/bin"),
        master_namespace: false,
    }
}

fn probes() -> HostProbes {
    HostProbes { su: FILE, home: DIR, shell: MISSING, shell_lookup: Some(s("/usr/bin/bash")) }
}

fn no_vars() -> HostVars {
    HostVars { term: None, prefix: None }
}

#[test]
fn default_config_values() {
    let c = Config::default();
    assert_eq!(c.su_file, "/system/bin/su");
    assert_eq!(c.home_dir, "/data/data/com.termux/files/root");
    assert_eq!(c.shell, "bash");
    assert_eq!(
        c.path_env,
        "/data/data/com.termux/files/usr/bin:/system/bin:/debug_ramdisk:/sbin:/sbin/su:/su/bin:/su/xbin:/system/bin:/system/xbin"
    );
    assert!(!c.master_namespace);
    assert_eq!(TERMUX_FS, "/data/data/com.termux/files");
}

#[test]
fn absolute_paths_start_at_root() {
    for relative in ["su", "", "./su", "bin/su"] {
        let mut c = config();
        c.su_file = s(relative);
        let env = TermuxEnv::new(c, None, None);
        assert!(matches!(
            env.check_su_path(FILE),
            Err(AppError::InvalidSuPath { reason: PathIssue::NotAbsolute, .. })
        ));
    }
    let mut c = config();
    c.su_file = s("/su");
    assert_eq!(TermuxEnv::new(c, None, None).check_su_path(FILE).unwrap(), "/su");
}

#[test]
fn su_path_reasons() {
    let env = TermuxEnv::new(config(), None, None);
    assert_eq!(env.check_su_path(FILE).unwrap(), "/system/bin/su");
    assert!(matches!(
        env.check_su_path(MISSING),
        Err(AppError::InvalidSuPath { reason: PathIssue::NotFound, .. })
    ));
    assert!(matches!(
        env.check_su_path(DIR),
        Err(AppError::InvalidSuPath { reason: PathIssue::NotAFile, .. })
    ));
    let mut c = config();
    c.su_file = s("bin/su");
    let env = TermuxEnv::new(c, None, None);
    match env.check_su_path(FILE) {
        Err(AppError::InvalidSuPath { path, reason }) => {
            assert_eq!(path, "bin/su");
            assert_eq!(reason, PathIssue::NotAbsolute);
        }
        other => panic!("unexpected {:?}", other),
    }
}

#[test]
fn su_path_on_disk() {
    let mut c = config();
    c.su_file = s("/");
    let env = TermuxEnv::new(c, None, None);
    let r = env.resolve(&no_vars());
    assert!(matches!(r, Err(AppError::InvalidSuPath { reason: PathIssue::NotAFile, .. })));
}

#[test]
fn home_dir_reasons() {
    let env = TermuxEnv::new(config(), None, None);
    assert_eq!(env.check_home_dir(DIR).unwrap(), "/data/data/com.termux/files/root");
    assert_eq!(env.check_home_dir(MISSING).unwrap(), "/data/data/com.termux/files/root");
    assert!(matches!(
        env.check_home_dir(FILE),
        Err(AppError::InvalidHomeDir { reason: PathIssue::NotADirectory, .. })
    ));
    let mut c = config();
    c.home_dir = s("root");
    let env = TermuxEnv::new(c, None, None);
    assert!(matches!(
        env.check_home_dir(DIR),
        Err(AppError::InvalidHomeDir { reason: PathIssue::NotAbsolute, .. })
    ));
}

#[test]
fn shell_reasons() {
    let env = TermuxEnv::new(config(), Some(s("/bin/zsh")), None);
    assert_eq!(env.check_shell(FILE, None).unwrap(), "/bin/zsh");
    assert!(matches!(
        env.check_shell(MISSING, None),
        Err(AppError::InvalidShell { reason: PathIssue::NotFound, .. })
    ));
    assert!(matches!(
        env.check_shell(DIR, None),
        Err(AppError::InvalidShell { reason: PathIssue::NotAFile, .. })
    ));
    let env = TermuxEnv::new(config(), None, None);
    assert!(matches!(
        env.check_shell(MISSING, None),
        Err(AppError::InvalidShell { reason: PathIssue::NotFoundInPath, .. })
    ));
}

#[test]
fn relative_shell_takes_search_result() {
    let env = TermuxEnv::new(config(), None, None);
    let r = env.resolve_with(&probes(), &no_vars()).unwrap();
    assert_eq!(r.shell_path, "/usr/bin/bash");
    assert_eq!(r.su_path, "/system/bin/su");
}

#[test]
fn shell_override_wins() {
    let env = TermuxEnv::new(config(), Some(s("zsh")), None);
    assert_eq!(env.shell_choice(), "zsh");
    let env = TermuxEnv::new(config(), None, None);
    assert_eq!(env.shell_choice(), "bash");
}

#[test]
fn master_namespace_override_wins() {
    let mut c = config();
    c.master_namespace = true;
    assert!(TermuxEnv::new(c.clone(), None, None).is_master_namespace());
    assert!(!TermuxEnv::new(c, None, Some(false)).is_master_namespace());
    assert!(TermuxEnv::new(config(), None, Some(true)).is_master_namespace());
}

#[test]
fn env_map_fallbacks() {
    let mut c = config();
    c.home_dir = s("/home/root");
    let env = TermuxEnv::new(c.clone(), None, None);
    let map = env.get_env_map(DIR, &no_vars()).unwrap();
    assert_eq!(
        map,
        vec![
            (s("HOME"), s("/home/root")),
            (s("PATH"), s("/usr/bin")),
            (s("TERM"), s("xterm-256color")),
            (s("PREFIX"), s("/data/data/com.termux/files/usr")),
        ]
    );
    let env = TermuxEnv::with_fs_root(c, None, None, s("/opt/fs"));
    let map = env.get_env_map(MISSING, &HostVars { term: Some(s("vt100")), prefix: None }).unwrap();
    assert_eq!(map[2], (s("TERM"), s("vt100")));
    assert_eq!(map[3], (s("PREFIX"), s("/opt/fs/usr")));
    let map = env.get_env_map(DIR, &HostVars { term: None, prefix: Some(s("/p")) }).unwrap();
    assert_eq!(map[3], (s("PREFIX"), s("/p")));
}

#[test]
fn env_map_refuses_bad_home() {
    let env = TermuxEnv::new(config(), None, None);
    assert!(matches!(
        env.get_env_map(FILE, &no_vars()),
        Err(AppError::InvalidHomeDir { reason: PathIssue::NotADirectory, .. })
    ));
    let mut c = config();
    c.home_dir = s("root");
    assert!(matches!(
        TermuxEnv::new(c, None, None).get_env_map(DIR, &no_vars()),
        Err(AppError::InvalidHomeDir { reason: PathIssue::NotAbsolute, .. })
    ));
}

#[test]
fn relative_search_result_is_refused() {
    let env = TermuxEnv::new(config(), None, None);
    assert!(matches!(
        env.check_shell(MISSING, Some(s("bin/bash"))),
        Err(AppError::InvalidShell { reason: PathIssue::NotFoundInPath, .. })
    ));
    assert_eq!(env.check_shell(MISSING, Some(s("/bin/bash"))).unwrap(), "/bin/bash");
}

#[test]
fn absolute_shell_is_not_searched() {
    let env = TermuxEnv::new(config(), Some(s("/nonexistent-launcher-dir/sh")), None);
    assert!(env.probe_host().shell_lookup.is_none());
}

#[test]
fn resolution_order_su_then_shell_then_home() {
    let env = TermuxEnv::new(config(), None, None);
    let bad = HostProbes { su: MISSING, home: FILE, shell: MISSING, shell_lookup: None };
    assert!(matches!(env.resolve_with(&bad, &no_vars()), Err(AppError::InvalidSuPath { .. })));
    let bad = HostProbes { su: FILE, home: FILE, shell: MISSING, shell_lookup: None };
    assert!(matches!(env.resolve_with(&bad, &no_vars()), Err(AppError::InvalidShell { .. })));
    let bad = HostProbes { su: FILE, home: FILE, shell: MISSING, shell_lookup: Some(s("/bin/sh")) };
    assert!(matches!(env.resolve_with(&bad, &no_vars()), Err(AppError::InvalidHomeDir { .. })));
}

#[test]
fn resolved_environment_has_four_keys() {
    let env = TermuxEnv::new(config(), None, Some(true));
    let r = env.resolve_with(&probes(), &no_vars()).unwrap();
    let keys: Vec<&str> = r.env_map.iter().map(|(k, _)| k.as_str()).collect();
    assert_eq!(keys, vec!["HOME", "PATH", "TERM", "PREFIX"]);
    assert!(r.use_master_namespace);
}
