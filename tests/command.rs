use tsw::cargo::{built_binary_path, cargo_build, CargoCmd, Target};
use tsw::command::{build_command, build_with, escape_command, SuCmd, SuCmdFactory};
use tsw::env::ResolvedEnvironment;
use tsw::error::AppError;
use tsw::probe::{contains_ignoring_case, has_signature, probe_verdict, Capability};

fn s(v: &str) -> String {
    v.to_string()
}

fn env(master: bool) -> ResolvedEnvironment {
    ResolvedEnvironment {
        su_path: s("/system/bin/su"),
        shell_path: s("/bin/bash"),
        env_map: vec![(s("HOME"), s("/root"))],
        use_master_namespace: master,
    }
}

const PTY: Capability = Capability { supports_pty_flag: true };
const NO_PTY: Capability = Capability { supports_pty_flag: false };

fn round_trip(words: &[&str]) {
    let owned: Vec<String> = words.iter().map(|w| w.to_string()).collect();
    let joined = escape_command(&owned).unwrap();
    assert_eq!(shlex::split(&joined), Some(owned));
}

#[test]
fn escape_round_trips() {
    round_trip(&["echo", "it's"]);
    round_trip(&["echo", "'"]);
    round_trip(&["", "a b", "\"q\"", "$HOME", "a;b|c&d", "`x`", "back\\slash", "new\nline", "*?[]", "~"]);
    round_trip(&["only"]);
}

#[test]
fn escape_quotes_what_needs_it() {
    let joined = escape_command(&vec![s("a b")]).unwrap();
    assert_ne!(joined, "a b");
    assert_eq!(escape_command(&vec![s("ls"), s("-l")]).unwrap(), "ls -l");
}

#[test]
fn escape_refuses_nul() {
    assert!(matches!(escape_command(&vec![s("a\0")]), Err(AppError::EscapeFailed)));
}

#[test]
fn flag_order_is_fixed() {
    let cmd = build_with(&env(true), PTY, Some("echo hi"));
    assert_eq!(
        cmd.args(),
        &vec![
            s("--preserve-environment"),
            s("--shell"),
            s("/bin/bash"),
            s("-i"),
            s("--mount-master"),
            s("-c"),
            s("echo hi"),
        ]
    );
    assert_eq!(cmd.program(), "/system/bin/su");
    assert!(cmd.clears_env());
    assert_eq!(cmd.envs(), &vec![(s("HOME"), s("/root"))]);
}

#[test]
fn run_flag_only_with_command() {
    for uc in [None, Some(Vec::new())] {
        let cmd = build_command(&env(false), NO_PTY, &uc).unwrap();
        assert_eq!(cmd.args(), &vec![s("--preserve-environment"), s("--shell"), s("/bin/bash")]);
    }
    let cmd = build_command(&env(false), NO_PTY, &Some(vec![s("id")])).unwrap();
    assert_eq!(cmd.args()[3], "-c");
    assert_eq!(cmd.args()[4], "id");
}

#[test]
fn builder_methods_append() {
    let mut cmd = SuCmdFactory::new().create("/su");
    assert!(cmd.args().is_empty());
    assert!(!cmd.clears_env());
    cmd.preserve_environment();
    cmd.shell("/bin/sh");
    cmd.interactive();
    cmd.mount_master();
    cmd.command("true");
    cmd.set_envs(&vec![(s("A"), s("1")), (s("B"), s("2"))]);
    assert_eq!(
        cmd.args(),
        &vec![
            s("--preserve-environment"),
            s("--shell"),
            s("/bin/sh"),
            s("-i"),
            s("--mount-master"),
            s("-c"),
            s("true"),
        ]
    );
    assert_eq!(cmd.envs(), &vec![(s("A"), s("1")), (s("B"), s("2"))]);
    assert!(cmd.clears_env());
    let fresh = SuCmd::new("/x/su");
    assert_eq!(fresh.program(), "/x/su");
}

#[test]
fn probe_matches_any_case() {
    assert!(has_signature(b"MaGiSK su"));
    assert!(has_signature(b"usage from MAGISK v26"));
    assert!(has_signature(b"magisk"));
    assert!(!has_signature(b"usage: su [options]"));
    assert!(!has_signature(b"magis"));
    assert!(!has_signature(b""));
}

#[test]
fn contains_ignoring_case_cases() {
    assert!(contains_ignoring_case(b"xxABcxx", "abc"));
    assert!(contains_ignoring_case(b"abc", ""));
    assert!(!contains_ignoring_case(b"ab", "abc"));
    assert!(!contains_ignoring_case(b"a-b-c", "abc"));
}

#[test]
fn probe_verdicts() {
    assert_eq!(probe_verdict(true, Some(0), b"MagiskSU").unwrap(), PTY);
    assert_eq!(probe_verdict(true, Some(0), b"toybox su").unwrap(), NO_PTY);
    assert!(matches!(
        probe_verdict(false, None, b"magisk"),
        Err(AppError::ProbeFailed { exit_code: None })
    ));
}

#[test]
fn cargo_command_line() {
    let mut cmd = CargoCmd::new("cargo");
    cmd.cargo_subcommand("ndk");
    cmd.build();
    cmd.target(Target::Arm64V8A.as_str());
    cmd.release();
    assert_eq!(cmd.program_path(), "cargo");
    assert_eq!(
        cmd.args(),
        &vec![s("ndk"), s("build"), s("--target"), s("aarch64-linux-android"), s("--release")]
    );
    assert_eq!(Target::ArmeabiV7A.as_str(), "armv7-linux-androideabi");
}

#[test]
fn cargo_build_lines() {
    let cmd = cargo_build(Target::Arm64V8A, true, false);
    assert_eq!(cmd.program_path(), "cargo");
    assert_eq!(
        cmd.args(),
        &vec![s("ndk"), s("build"), s("--target"), s("aarch64-linux-android")]
    );
    let cmd = cargo_build(Target::ArmeabiV7A, false, true);
    assert_eq!(
        cmd.args(),
        &vec![s("build"), s("--target"), s("armv7-linux-androideabi"), s("--release")]
    );
}

#[test]
fn built_binary_paths() {
    assert_eq!(built_binary_path(Target::Arm64V8A, true), "target/aarch64-linux-android/release/tsw");
    assert_eq!(built_binary_path(Target::ArmeabiV7A, false), "target/armv7-linux-androideabi/debug/tsw");
}
