//! The launcher's decisions, step by step. Each step takes what the outside
//! world reported and says what to do next; the caller does it (runs the
//! probe, spawns the command, exits) and reports back. Nothing privileged is
//! started before every check has passed.

use vstd::prelude::*;
use crate::command::{build_command, command_view, given_words, has_nul, shell_join_of, SuCmd};
use crate::env::{resolution, HostProbes, HostVars, ResolvedEnvironment, TermuxEnv};
use crate::error::{AppError, PathIssue};
use crate::paths::starts_with_root;
use crate::probe::{has_pty_signature, probe_verdict};

verus! {

/// The exit code handed on for a child: its own code, or -1 when the
/// system reports none (the child was killed by a signal).
pub open spec fn child_exit_code(code: Option<i32>) -> i32 {
    match code {
        Some(v) => v,
        None => -1i32,
    }
}

/// The exit code of the launcher for a child that ended with `code`.
pub fn exit_code_of(code: Option<i32>) -> (r: i32)
    ensures
        r == child_exit_code(code),
{
    match code {
        Some(v) => v,
        None => -1,
    }
}

/// Where a run stands.
#[derive(Clone, Copy, Debug, PartialEq, Eq, Structural)]
pub enum Stage {
    /// Nothing checked yet.
    Start,
    /// Resolved; waiting for the help invocation of the escalation binary.
    Probing,
    /// The privileged command was handed out to be spawned.
    Running,
    /// Nothing is left to do.
    Finished,
}

/// What the caller is to do next.
#[derive(Debug)]
pub enum Action {
    /// Run `su_path` with `args` (the help flag), capture its standard
    /// output, and report it with `on_probe` (or `on_spawn_failed`).
    Probe { su_path: String, args: Vec<String> },
    /// Spawn the command with the terminal's streams, wait for it, and
    /// report with `on_exit` (or `on_spawn_failed`).
    Spawn { command: SuCmd },
    /// Exit with this code.
    Exit { code: i32 },
    /// Report the error and exit with its code.
    Fail { error: AppError },
}

/// The action that follows a resolution outcome.
pub open spec fn resolved_action(res: Result<ResolvedEnvironment, AppError>, r: Action) -> bool {
    match res {
        Ok(env) => r matches Action::Probe { su_path, args } && su_path@ == env.su_path@
            && args@.map_values(|a: String| a@) == seq!["--help"@],
        Err(e) => r == Action::Fail { error: e },
    }
}

/// The action that follows the help invocation, for the resolved `env` and
/// the user command `user_command`.
pub open spec fn probed_action(
    env: ResolvedEnvironment,
    user_command: Option<Vec<String>>,
    success: bool,
    exit_code: Option<i32>,
    stdout: Seq<u8>,
    r: Action,
) -> bool {
    if !success {
        r == Action::Fail { error: AppError::ProbeFailed { exit_code } }
    } else {
        let pty = has_pty_signature(stdout);
        match given_words(user_command) {
            None => r matches Action::Spawn { command } && command@ == command_view(env, pty, None),
            Some(words) => if has_nul(words) {
                r == Action::Fail { error: AppError::EscapeFailed }
            } else {
                r matches Action::Spawn { command } && command@ == command_view(
                    env,
                    pty,
                    Some(shell_join_of(words)),
                )
            },
        }
    }
}

/// One run of the launcher.
#[derive(Debug)]
pub struct SuShell {
    command: Option<Vec<String>>,
    env: TermuxEnv,
    stage: Stage,
    resolved: Option<ResolvedEnvironment>,
}

impl SuShell {
    /// The user command, if one was given.
    pub closed spec fn user_command(&self) -> Option<Vec<String>> {
        self.command
    }

    /// The settings of the run.
    pub closed spec fn settings(&self) -> TermuxEnv {
        self.env
    }

    /// Where the run stands.
    pub closed spec fn stage(&self) -> Stage {
        self.stage
    }

    /// The resolved environment, once there is one.
    pub closed spec fn resolved(&self) -> Option<ResolvedEnvironment> {
        self.resolved
    }

    /// The steps agree with one another: a probe or a command is pending
    /// only for a resolved environment.
    pub closed spec fn wf(&self) -> bool {
        (self.stage == Stage::Probing || self.stage == Stage::Running) ==> self.resolved is Some
    }

    /// A run of `command` (an interactive shell if it is absent or empty)
    /// with the settings `env`.
    pub fn new(command: Option<Vec<String>>, env: TermuxEnv) -> (r: SuShell)
        ensures
            r.wf(),
            r.user_command() == command,
            r.settings() == env,
            r.stage() == Stage::Start,
    {
        SuShell { command, env, stage: Stage::Start, resolved: None }
    }

    /// Where the run stands.
    pub fn current_stage(&self) -> (r: Stage)
        ensures
            r == self.stage(),
    {
        self.stage
    }

    /// Takes the outcome of the resolution: an error ends the run, a
    /// resolved environment asks for the probe.
    pub fn on_resolved(&mut self, res: Result<ResolvedEnvironment, AppError>) -> (r: Action)
        requires
            old(self).stage() == Stage::Start,
        ensures
            final(self).wf(),
            resolved_action(res, r),
            final(self).user_command() == old(self).user_command(),
            final(self).settings() == old(self).settings(),
            res is Err ==> final(self).stage() == Stage::Finished,
            res matches Ok(env) ==> final(self).stage() == Stage::Probing && final(self).resolved()
                == Some(env),
    {
        match res {
            Ok(env) => {
                let su_path = env.su_path.clone();
                let mut args: Vec<String> = Vec::new();
                args.push(String::from_str("--help"));
                assert(args@.map_values(|a: String| a@) =~= seq!["--help"@]);
                self.resolved = Some(env);
                self.stage = Stage::Probing;
                Action::Probe { su_path, args }
            },
            Err(error) => {
                self.stage = Stage::Finished;
                Action::Fail { error }
            },
        }
    }

    /// Resolves against what `probes` and `host` showed.
    pub fn start_with(&mut self, probes: &HostProbes, host: &HostVars) -> (r: Action)
        requires
            old(self).stage() == Stage::Start,
        ensures
            final(self).wf(),
            final(self).user_command() == old(self).user_command(),
            final(self).settings() == old(self).settings(),
            exists|res: Result<ResolvedEnvironment, AppError>|
                #[trigger] resolution(old(self).settings(), *probes, *host, res) && resolved_action(
                    res,
                    r,
                ) && (res is Err ==> final(self).stage() == Stage::Finished) && (res matches Ok(
                    env,
                ) ==> final(self).stage() == Stage::Probing && final(self).resolved() == Some(env)),
    {
        let res = self.env.resolve_with(probes, host);
        let ghost res_copy = res;
        let r = self.on_resolved(res);
        assert(resolution(old(self).settings(), *probes, *host, res_copy));
        r
    }

    /// Resolves against the disk and the search path as they are now. A
    /// relative escalation binary ends the run before anything is started.
    pub fn start(&mut self, host: &HostVars) -> (r: Action)
        requires
            old(self).stage() == Stage::Start,
        ensures
            final(self).wf(),
            final(self).user_command() == old(self).user_command(),
            final(self).settings() == old(self).settings(),
            exists|p: HostProbes, res: Result<ResolvedEnvironment, AppError>|
                #[trigger] resolution(old(self).settings(), p, *host, res) && resolved_action(res, r)
                    && (res is Err ==> final(self).stage() == Stage::Finished) && (res matches Ok(
                    env,
                ) ==> final(self).stage() == Stage::Probing && final(self).resolved() == Some(env)),
            !starts_with_root(old(self).settings().config.su_file@) ==> (r matches Action::Fail {
                error: AppError::InvalidSuPath { reason: PathIssue::NotAbsolute, .. },
            } && final(self).stage() == Stage::Finished),
    {
        let probes = self.env.probe_host();
        self.start_with(&probes, host)
    }

    /// Takes the outcome of the help invocation: a failed one ends the run;
    /// otherwise the command is built and handed out to be spawned.
    pub fn on_probe(&mut self, success: bool, exit_code: Option<i32>, stdout: &[u8]) -> (r: Action)
        requires
            old(self).wf(),
            old(self).stage() == Stage::Probing,
        ensures
            final(self).wf(),
            probed_action(
                old(self).resolved()->0,
                old(self).user_command(),
                success,
                exit_code,
                stdout@,
                r,
            ),
            final(self).user_command() == old(self).user_command(),
            final(self).settings() == old(self).settings(),
            final(self).resolved() == old(self).resolved(),
            (r is Spawn) ==> final(self).stage() == Stage::Running,
            (r is Fail) ==> final(self).stage() == Stage::Finished,
    {
        let capability = match probe_verdict(success, exit_code, stdout) {
            Ok(c) => c,
            Err(error) => {
                self.stage = Stage::Finished;
                return Action::Fail { error };
            },
        };
        let built = build_command(self.resolved.as_ref().unwrap(), capability, &self.command);
        match built {
            Ok(command) => {
                self.stage = Stage::Running;
                Action::Spawn { command }
            },
            Err(error) => {
                self.stage = Stage::Finished;
                Action::Fail { error }
            },
        }
    }

    /// Takes the end of the privileged command: its exit code becomes the
    /// launcher's, unchanged.
    pub fn on_exit(&mut self, code: Option<i32>) -> (r: Action)
        requires
            old(self).stage() == Stage::Running,
        ensures
            final(self).wf(),
            r == (Action::Exit { code: child_exit_code(code) }),
            final(self).stage() == Stage::Finished,
    {
        self.stage = Stage::Finished;
        Action::Exit { code: exit_code_of(code) }
    }

    /// Takes a failure of the system to start the probe or the command.
    pub fn on_spawn_failed(&mut self, message: String) -> (r: Action)
        requires
            old(self).stage() == Stage::Probing || old(self).stage() == Stage::Running,
        ensures
            final(self).wf(),
            r == (Action::Fail { error: AppError::SpawnFailed { message } }),
            final(self).stage() == Stage::Finished,
    {
        self.stage = Stage::Finished;
        Action::Fail { error: AppError::SpawnFailed { message } }
    }
}

} // verus!
