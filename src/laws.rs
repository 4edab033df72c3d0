//! Properties of the launcher that relate its steps to one another, proved
//! over the same spec functions that the steps' contracts use.

use vstd::prelude::*;
use crate::command::{command_view, given_words, has_nul, shell_join_of};
use crate::env::{
    env_entries, home_issue, resolution, shell_outcome, su_issue, view_opt, HostProbes, HostVars,
    ResolvedEnvironment, TermuxEnv,
};
use crate::error::{error_exit_code, AppError, PathIssue, CONFIG_ERROR_EXIT};
use crate::paths::starts_with_root;
use crate::probe::{contains_folded, has_pty_signature, pty_signatures};
use crate::shell::{probed_action, resolved_action, Action};

verus! {

/// A relative escalation binary is refused as not absolute, whatever the
/// disk and the environment show, and the run ends there: the next action
/// is the error, never a probe or a spawn.
pub proof fn lemma_relative_su_is_refused(
    env: TermuxEnv,
    p: HostProbes,
    host: HostVars,
    res: Result<ResolvedEnvironment, AppError>,
    r: Action,
)
    requires
        !starts_with_root(env.config.su_file@),
        resolution(env, p, host, res),
        resolved_action(res, r),
    ensures
        res matches Err(AppError::InvalidSuPath { reason, .. }) && reason == PathIssue::NotAbsolute,
        r matches Action::Fail { error: AppError::InvalidSuPath { reason, .. } } && reason
            == PathIssue::NotAbsolute,
{
}

/// An absolute escalation binary that does not exist is refused as not
/// found; the run ends with the configuration-error exit code, before any
/// process is started.
pub proof fn lemma_missing_su_is_refused(
    env: TermuxEnv,
    p: HostProbes,
    host: HostVars,
    res: Result<ResolvedEnvironment, AppError>,
    r: Action,
)
    requires
        starts_with_root(env.config.su_file@),
        !p.su.exists,
        resolution(env, p, host, res),
        resolved_action(res, r),
    ensures
        res matches Err(AppError::InvalidSuPath { reason, .. }) && reason == PathIssue::NotFound,
        r matches Action::Fail { error } && error_exit_code(error) == CONFIG_ERROR_EXIT,
{
}

/// A relative shell resolves to exactly what the search of `PATH` found,
/// once the escalation binary and the home directory pass and the search
/// found an absolute path; when the search found nothing, or only a
/// relative path, the shell is refused as not found in `PATH`.
pub proof fn lemma_relative_shell_is_searched(
    env: TermuxEnv,
    p: HostProbes,
    host: HostVars,
    res: Result<ResolvedEnvironment, AppError>,
)
    requires
        !starts_with_root(env.chosen_shell()),
        su_issue(env.config.su_file@, p.su) is None,
        home_issue(env.config.home_dir@, p.home) is None,
        resolution(env, p, host, res),
    ensures
        p.shell_lookup matches Some(found) ==> (starts_with_root(found@) ==> (res matches Ok(r)
            && r.shell_path@ == found@)),
        p.shell_lookup matches Some(found) ==> (!starts_with_root(found@) ==> (res matches Err(
            AppError::InvalidShell { reason, .. },
        ) && reason == PathIssue::NotFoundInPath)),
        p.shell_lookup is None ==> (res matches Err(AppError::InvalidShell { reason, .. }) && reason
            == PathIssue::NotFoundInPath),
{
}

/// The run-and-exit flag `-c` appears exactly when there is a user command:
/// without one it is nowhere among the arguments (unless the shell path
/// itself is the text `-c`); with one, the last two arguments are `-c` and
/// the quoted command.
pub proof fn lemma_run_flag_iff_command(
    env: ResolvedEnvironment,
    pty: bool,
    user_command: Option<Vec<String>>,
)
    ensures
        given_words(user_command) is None && env.shell_path@ != "-c"@ ==> !command_view(
            env,
            pty,
            None,
        ).args.contains("-c"@),
        given_words(user_command) matches Some(words) ==> ({
            let args = command_view(env, pty, Some(shell_join_of(words))).args;
            &&& args.len() >= 2
            &&& args[args.len() - 2] == "-c"@
            &&& args[args.len() - 1] == shell_join_of(words)
        }),
{
    reveal_strlit("-c");
    reveal_strlit("--preserve-environment");
    reveal_strlit("--shell");
    reveal_strlit("-i");
    reveal_strlit("--mount-master");
    let args = command_view(env, pty, None).args;
    if given_words(user_command) is None && env.shell_path@ != "-c"@ {
        assert forall|i: int| 0 <= i < args.len() implies args[i] != "-c"@ by {
            if i == 0 {
                assert(args[i] == "--preserve-environment"@);
                assert(args[i][1] != "-c"@[1]);
            } else if i == 1 {
                assert(args[i] == "--shell"@);
                assert(args[i].len() != "-c"@.len());
            } else if i == 2 {
            } else {
                if args[i] == "-i"@ {
                    assert(args[i][1] != "-c"@[1]);
                } else {
                    assert(args[i] == "--mount-master"@);
                    assert(args[i].len() != "-c"@.len());
                }
            }
        }
    }
}

/// The probe finds the pty flag exactly when the help text holds `magisk`
/// with its letters in any mix of upper and lower case.
pub proof fn lemma_probe_finds_magisk(help: Seq<u8>)
    ensures
        has_pty_signature(help) <==> contains_folded(help, "magisk"@),
{
    assert(pty_signatures()[0] == "magisk"@);
    if contains_folded(help, "magisk"@) {
        assert(contains_folded(help, pty_signatures()[0]));
    }
}

/// A run whose checks all pass, with the local namespace, and whose
/// escalation binary names itself Magisk in its help text, spawns exactly
/// one command: the escalation binary, with a cleared environment holding
/// `HOME`, `PATH`, `TERM` and `PREFIX`, and the arguments
/// `--preserve-environment --shell <resolved shell> -i`, followed by
/// `-c <quoted command>` when a user command was given (and holds no NUL).
pub proof fn lemma_magisk_run_spawns(
    env: TermuxEnv,
    p: HostProbes,
    host: HostVars,
    res: Result<ResolvedEnvironment, AppError>,
    user_command: Option<Vec<String>>,
    code: Option<i32>,
    help: Seq<u8>,
    r: Action,
)
    requires
        su_issue(env.config.su_file@, p.su) is None,
        shell_outcome(env.chosen_shell(), p.shell, view_opt(p.shell_lookup)) is Ok,
        home_issue(env.config.home_dir@, p.home) is None,
        !env.master_choice(),
        has_pty_signature(help),
        given_words(user_command) matches Some(words) ==> !has_nul(words),
        resolution(env, p, host, res),
        probed_action(res->Ok_0, user_command, true, code, help, r),
    ensures
        r matches Action::Spawn { command } && {
            &&& command@.program == env.config.su_file@
            &&& command@.clear_env
            &&& command@.envs == env_entries(
                env.config.home_dir@,
                env.config.path_env@,
                view_opt(host.term),
                view_opt(host.prefix),
                env.fs_root@,
            )
            &&& command@.args == seq![
                "--preserve-environment"@,
                "--shell"@,
                shell_outcome(env.chosen_shell(), p.shell, view_opt(p.shell_lookup))->Ok_0,
                "-i"@,
            ] + match given_words(user_command) {
                Some(words) => seq!["-c"@, shell_join_of(words)],
                None => seq![],
            }
        },
{
    let shell = shell_outcome(env.chosen_shell(), p.shell, view_opt(p.shell_lookup))->Ok_0;
    match given_words(user_command) {
        Some(words) => {
            assert(seq!["--preserve-environment"@, "--shell"@, shell] + seq!["-i"@] + seq![]
                + seq!["-c"@, shell_join_of(words)] =~= seq![
                "--preserve-environment"@,
                "--shell"@,
                shell,
                "-i"@,
            ] + seq!["-c"@, shell_join_of(words)]);
        },
        None => {
            assert(seq!["--preserve-environment"@, "--shell"@, shell] + seq!["-i"@] + seq![]
                + seq![] =~= seq!["--preserve-environment"@, "--shell"@, shell, "-i"@] + seq![]);
        },
    }
}

} // verus!
