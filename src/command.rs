//! The privileged command: which program runs, with which environment and
//! which arguments, in a fixed order.

use vstd::prelude::*;
use crate::env::{pairs_view, view_opt, ResolvedEnvironment};
use crate::error::AppError;
use crate::probe::Capability;

verus! {

/// What a command holds, as text.
pub struct SuCmdView {
    /// The program to run.
    pub program: Seq<char>,
    /// Whether the inherited environment is cleared before `envs` is set.
    pub clear_env: bool,
    /// Variables set for the program, in order.
    pub envs: Seq<(Seq<char>, Seq<char>)>,
    /// Arguments of the program, in order.
    pub args: Seq<Seq<char>>,
}

impl SuCmdView {
    /// The same command with `extra` appended to its arguments.
    pub open spec fn push_args(self, extra: Seq<Seq<char>>) -> SuCmdView {
        SuCmdView { args: self.args + extra, ..self }
    }
}

/// An invocation of the escalation binary, built once and run once.
#[derive(Debug)]
pub struct SuCmd {
    path: String,
    args: Vec<String>,
    envs: Vec<(String, String)>,
    clear_env: bool,
}

impl View for SuCmd {
    type V = SuCmdView;

    closed spec fn view(&self) -> SuCmdView {
        SuCmdView {
            program: self.path@,
            clear_env: self.clear_env,
            envs: pairs_view(self.envs@),
            args: self.args@.map_values(|a: String| a@),
        }
    }
}

impl SuCmd {
    /// A command that runs `su_path` with no arguments and the inherited
    /// environment.
    pub fn new(su_path: &str) -> (r: SuCmd)
        ensures
            r@.program == su_path@,
            !r@.clear_env,
            r@.envs.len() == 0,
            r@.args.len() == 0,
    {
        SuCmd { path: su_path.to_owned(), args: Vec::new(), envs: Vec::new(), clear_env: false }
    }

    fn arg(&mut self, value: &str)
        ensures
            final(self)@ == old(self)@.push_args(seq![value@]),
    {
        self.args.push(value.to_owned());
        assert(final(self)@.args =~= old(self)@.args + seq![value@]);
    }

    /// Asks for a pty: `-i`.
    pub fn interactive(&mut self)
        ensures
            final(self)@ == old(self)@.push_args(seq!["-i"@]),
    {
        self.arg("-i");
    }

    /// Asks for the global mount namespace: `--mount-master`.
    pub fn mount_master(&mut self)
        ensures
            final(self)@ == old(self)@.push_args(seq!["--mount-master"@]),
    {
        self.arg("--mount-master");
    }

    /// Keeps the environment as it is passed: `--preserve-environment`.
    pub fn preserve_environment(&mut self)
        ensures
            final(self)@ == old(self)@.push_args(seq!["--preserve-environment"@]),
    {
        self.arg("--preserve-environment");
    }

    /// Runs `shell` in place of the default shell: `--shell <shell>`.
    pub fn shell(&mut self, shell: &str)
        ensures
            final(self)@ == old(self)@.push_args(seq!["--shell"@, shell@]),
    {
        self.arg("--shell");
        self.arg(shell);
        assert(seq!["--shell"@] + seq![shell@] =~= seq!["--shell"@, shell@]);
        assert(final(self)@.args =~= old(self)@.args + seq!["--shell"@, shell@]);
    }

    /// Passes `command` to the shell, which runs it and exits:
    /// `-c <command>`.
    pub fn command(&mut self, command: &str)
        ensures
            final(self)@ == old(self)@.push_args(seq!["-c"@, command@]),
    {
        self.arg("-c");
        self.arg(command);
        assert(final(self)@.args =~= old(self)@.args + seq!["-c"@, command@]);
    }

    /// Clears the inherited environment and sets exactly `vars`, in order.
    pub fn set_envs(&mut self, vars: &Vec<(String, String)>)
        ensures
            final(self)@ == (SuCmdView { clear_env: true, envs: pairs_view(vars@), ..old(self)@ }),
    {
        self.clear_env = true;
        self.envs = Vec::new();
        let mut i: usize = 0;
        while i < vars.len()
            invariant
                i <= vars@.len(),
                pairs_view(self.envs@) =~= pairs_view(vars@.subrange(0, i as int)),
                self.path == old(self).path,
                self.args == old(self).args,
                self.clear_env,
            decreases vars@.len() - i,
        {
            let (k, v) = &vars[i];
            let entry = (k.clone(), v.clone());
            assert(entry.0@ == vars@[i as int].0@ && entry.1@ == vars@[i as int].1@);
            self.envs.push(entry);
            assert(pairs_view(vars@.subrange(0, i + 1)) =~= pairs_view(vars@.subrange(0, i as int)).push(
                (vars@[i as int].0@, vars@[i as int].1@),
            ));
            assert(pairs_view(self.envs@) =~= pairs_view(vars@.subrange(0, i + 1)));
            i = i + 1;
        }
        assert(vars@.subrange(0, vars@.len() as int) =~= vars@);
    }

    /// The program to run.
    pub fn program(&self) -> (r: &str)
        ensures
            r@ == self@.program,
    {
        self.path.as_str()
    }

    /// The arguments, in order.
    pub fn args(&self) -> (r: &Vec<String>)
        ensures
            r@.map_values(|a: String| a@) == self@.args,
    {
        &self.args
    }

    /// The variables to set, in order.
    pub fn envs(&self) -> (r: &Vec<(String, String)>)
        ensures
            pairs_view(r@) == self@.envs,
    {
        &self.envs
    }

    /// Whether the inherited environment is cleared first.
    pub fn clears_env(&self) -> (r: bool)
        ensures
            r == self@.clear_env,
    {
        self.clear_env
    }
}

/// Makes commands for an escalation binary.
#[derive(Debug)]
pub struct SuCmdFactory;

impl SuCmdFactory {
    pub fn new() -> (r: SuCmdFactory) {
        SuCmdFactory
    }

    /// A fresh command for `su_path`.
    pub fn create(&self, su_path: &str) -> (r: SuCmd)
        ensures
            r@.program == su_path@,
            !r@.clear_env,
            r@.envs.len() == 0,
            r@.args.len() == 0,
    {
        SuCmd::new(su_path)
    }
}

/// The text of a list of words.
pub open spec fn words_view(words: Seq<String>) -> Seq<Seq<char>> {
    words.map_values(|w: String| w@)
}

/// Some word holds a NUL character, which no shell quoting can carry.
pub open spec fn has_nul(words: Seq<Seq<char>>) -> bool {
    exists|i: int, j: int| 0 <= i < words.len() && 0 <= j < words[i].len() && #[trigger] words[i][j] == '\0'
}

/// The single string that shlex's quoting makes of `words`: each word
/// quoted for a POSIX shell where needed, consecutive words separated by one
/// space.
pub uninterp spec fn shell_join_of(words: Seq<Seq<char>>) -> Seq<char>;

#[verifier::external_type_specification]
#[verifier::external_body]
pub struct ExQuoteError(shlex::QuoteError);

/// Relies on `shlex::try_join`, which quotes each word for a POSIX shell and
/// joins them with single spaces; its only error is `QuoteError::Nul`, given
/// when a word holds a NUL byte.
#[verifier::external_body]
fn try_join(words: &Vec<String>) -> (r: Result<String, shlex::QuoteError>)
    ensures
        r is Err <==> has_nul(words_view(words@)),
        r matches Ok(s) ==> s@ == shell_join_of(words_view(words@)),
{
    shlex::try_join(words.iter().map(|w| w.as_str()))
}

/// Joins `words` into one string that a POSIX shell splits back into them.
pub fn escape_command(words: &Vec<String>) -> (r: Result<String, AppError>)
    ensures
        r is Err <==> has_nul(words_view(words@)),
        r matches Err(e) ==> e is EscapeFailed,
        r matches Ok(s) ==> s@ == shell_join_of(words_view(words@)),
{
    match try_join(words) {
        Ok(s) => Ok(s),
        Err(_) => Err(AppError::EscapeFailed),
    }
}

/// The arguments of the escalation binary, in this order:
/// `--preserve-environment`, `--shell <shell>`, then `-i` if a pty is
/// asked for, `--mount-master` if the global namespace is, and
/// `-c <command>` if a command is to be run.
pub open spec fn command_args(shell: Seq<char>, pty: bool, master: bool, run: Option<Seq<char>>) -> Seq<
    Seq<char>,
> {
    seq!["--preserve-environment"@, "--shell"@, shell] + (if pty {
        seq!["-i"@]
    } else {
        seq![]
    }) + (if master {
        seq!["--mount-master"@]
    } else {
        seq![]
    }) + match run {
        Some(c) => seq!["-c"@, c],
        None => seq![],
    }
}

/// The whole command for a resolved environment: the escalation binary, a
/// cleared environment holding exactly the resolved variables, and the
/// arguments above.
pub open spec fn command_view(env: ResolvedEnvironment, pty: bool, run: Option<Seq<char>>) -> SuCmdView {
    SuCmdView {
        program: env.su_path@,
        clear_env: true,
        envs: pairs_view(env.env_map@),
        args: command_args(env.shell_path@, pty, env.use_master_namespace, run),
    }
}

/// The words of the user command, when there are any.
pub open spec fn given_words(user_command: Option<Vec<String>>) -> Option<Seq<Seq<char>>> {
    match user_command {
        Some(words) => if words@.len() > 0 {
            Some(words_view(words@))
        } else {
            None
        },
        None => None,
    }
}

/// Builds the command from the resolved environment, the probed capability
/// and `run`, the already quoted command string if there is one.
pub fn build_with(env: &ResolvedEnvironment, capability: Capability, run: Option<&str>) -> (r: SuCmd)
    ensures
        r@ == command_view(*env, capability.supports_pty_flag, match run {
            Some(c) => Some(c@),
            None => None,
        }),
{
    let factory = SuCmdFactory::new();
    let mut cmd = factory.create(env.su_path.as_str());
    cmd.set_envs(&env.env_map);
    cmd.preserve_environment();
    cmd.shell(env.shell_path.as_str());
    if capability.supports_pty_flag {
        cmd.interactive();
    }
    if env.use_master_namespace {
        cmd.mount_master();
    }
    match run {
        Some(c) => cmd.command(c),
        None => {},
    }
    let ghost run_view = match run {
        Some(c) => Some(c@),
        None => None::<Seq<char>>,
    };
    assert(cmd@.args =~= command_args(
        env.shell_path@,
        capability.supports_pty_flag,
        env.use_master_namespace,
        run_view,
    ));
    cmd
}

/// Builds the command; a non-empty user command is quoted and run with
/// `-c`, an absent or empty one leaves an interactive shell.
pub fn build_command(
    env: &ResolvedEnvironment,
    capability: Capability,
    user_command: &Option<Vec<String>>,
) -> (r: Result<SuCmd, AppError>)
    ensures
        match given_words(*user_command) {
            None => r matches Ok(c) && c@ == command_view(*env, capability.supports_pty_flag, None),
            Some(words) => {
                &&& r is Err <==> has_nul(words)
                &&& r matches Err(e) ==> e is EscapeFailed
                &&& r matches Ok(c) ==> c@ == command_view(
                    *env,
                    capability.supports_pty_flag,
                    Some(shell_join_of(words)),
                )
            },
        },
{
    match user_command {
        Some(words) => {
            if words.len() > 0 {
                match escape_command(words) {
                    Ok(joined) => Ok(build_with(env, capability, Some(joined.as_str()))),
                    Err(e) => Err(e),
                }
            } else {
                Ok(build_with(env, capability, None))
            }
        },
        None => Ok(build_with(env, capability, None)),
    }
}

} // verus!
