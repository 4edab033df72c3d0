//! Environment resolution: the escalation binary, the shell, the home
//! directory, the four environment variables of the root shell, and the
//! mount-namespace choice.

use vstd::prelude::*;
use crate::config::{Config, TERMUX_FS};
use crate::error::{AppError, PathIssue};
use crate::paths::{is_absolute, search_path, starts_with_root, PathFacts};

verus! {

/// The text of an optional string.
pub open spec fn view_opt(o: Option<String>) -> Option<Seq<char>> {
    match o {
        Some(s) => Some(s@),
        None => None,
    }
}

/// The text of a list of name/value pairs.
pub open spec fn pairs_view(v: Seq<(String, String)>) -> Seq<(Seq<char>, Seq<char>)> {
    v.map_values(|e: (String, String)| (e.0@, e.1@))
}

/// The escalation binary must be an absolute path to a regular file; it is
/// never looked up in `PATH`.
pub open spec fn su_issue(path: Seq<char>, f: PathFacts) -> Option<PathIssue> {
    if !starts_with_root(path) {
        Some(PathIssue::NotAbsolute)
    } else if !f.exists {
        Some(PathIssue::NotFound)
    } else if !f.is_file {
        Some(PathIssue::NotAFile)
    } else {
        None
    }
}

/// The home directory must be absolute; it may be missing, but what exists
/// there must be a directory.
pub open spec fn home_issue(path: Seq<char>, f: PathFacts) -> Option<PathIssue> {
    if !starts_with_root(path) {
        Some(PathIssue::NotAbsolute)
    } else if f.exists && !f.is_dir {
        Some(PathIssue::NotADirectory)
    } else {
        None
    }
}

/// An absolute shell must be a regular file and is taken as it is; a
/// relative one is what the search of `PATH` found, which must be an
/// absolute path, since it is embedded in the privileged command.
pub open spec fn shell_outcome(shell: Seq<char>, f: PathFacts, found: Option<Seq<char>>) -> Result<
    Seq<char>,
    PathIssue,
> {
    if starts_with_root(shell) {
        if !f.exists {
            Err(PathIssue::NotFound)
        } else if !f.is_file {
            Err(PathIssue::NotAFile)
        } else {
            Ok(shell)
        }
    } else {
        match found {
            Some(p) => if starts_with_root(p) {
                Ok(p)
            } else {
                Err(PathIssue::NotFoundInPath)
            },
            None => Err(PathIssue::NotFoundInPath),
        }
    }
}

/// The environment of the root shell, in this order: `HOME`, `PATH`,
/// `TERM` (the caller's, else `xterm-256color`) and `PREFIX` (the caller's,
/// else `<fs_root>/usr`).
pub open spec fn env_entries(
    home: Seq<char>,
    path_env: Seq<char>,
    term: Option<Seq<char>>,
    prefix: Option<Seq<char>>,
    fs_root: Seq<char>,
) -> Seq<(Seq<char>, Seq<char>)> {
    seq![
        ("HOME"@, home),
        ("PATH"@, path_env),
        ("TERM"@, match term { Some(t) => t, None => "xterm-256color"@ }),
        ("PREFIX"@, match prefix { Some(p) => p, None => fs_root + "/usr"@ }),
    ]
}

/// Variables read from the unprivileged process before escalation.
#[derive(Clone, Debug)]
pub struct HostVars {
    /// `$TERM`, if set.
    pub term: Option<String>,
    /// `$PREFIX`, if set.
    pub prefix: Option<String>,
}

/// What the disk and the search path showed for the configured paths.
#[derive(Clone, Debug)]
pub struct HostProbes {
    /// Facts about the escalation binary's path.
    pub su: PathFacts,
    /// Facts about the home directory.
    pub home: PathFacts,
    /// Facts about the shell's path, when it is absolute.
    pub shell: PathFacts,
    /// Where the search of `PATH` found the shell, when it is relative.
    pub shell_lookup: Option<String>,
}

/// Everything needed to run the root shell.
#[derive(Clone, Debug)]
pub struct ResolvedEnvironment {
    pub su_path: String,
    pub shell_path: String,
    pub env_map: Vec<(String, String)>,
    pub use_master_namespace: bool,
}

/// The settings of a run: the loaded configuration, the overrides given on
/// the command line, and the root of the Termux file system.
#[derive(Clone, Debug)]
pub struct TermuxEnv {
    pub config: Config,
    pub shell: Option<String>,
    pub master_namespace: Option<bool>,
    pub fs_root: String,
}

/// `r` is the outcome of resolving `env` given what `p` and `host` showed.
/// The checks run in this order: escalation binary, shell, home directory.
pub open spec fn resolution(
    env: TermuxEnv,
    p: HostProbes,
    host: HostVars,
    r: Result<ResolvedEnvironment, AppError>,
) -> bool {
    match su_issue(env.config.su_file@, p.su) {
        Some(issue) => r matches Err(AppError::InvalidSuPath { path, reason }) && path@
            == env.config.su_file@ && reason == issue,
        None => match shell_outcome(env.chosen_shell(), p.shell, view_opt(p.shell_lookup)) {
            Err(issue) => r matches Err(AppError::InvalidShell { shell, reason }) && shell@
                == env.chosen_shell() && reason == issue,
            Ok(shell_path) => match home_issue(env.config.home_dir@, p.home) {
                Some(issue) => r matches Err(AppError::InvalidHomeDir { path, reason }) && path@
                    == env.config.home_dir@ && reason == issue,
                None => r matches Ok(res) && {
                    &&& res.su_path@ == env.config.su_file@
                    &&& res.shell_path@ == shell_path
                    &&& pairs_view(res.env_map@) == env_entries(
                        env.config.home_dir@,
                        env.config.path_env@,
                        view_opt(host.term),
                        view_opt(host.prefix),
                        env.fs_root@,
                    )
                    &&& res.use_master_namespace == env.master_choice()
                },
            },
        },
    }
}

impl TermuxEnv {
    /// The shell asked for: the override if there is one, else the
    /// configured shell.
    pub open spec fn chosen_shell(self) -> Seq<char> {
        match self.shell {
            Some(s) => s@,
            None => self.config.shell@,
        }
    }

    /// The namespace choice: the override if there is one, else the
    /// configured value.
    pub open spec fn master_choice(self) -> bool {
        match self.master_namespace {
            Some(m) => m,
            None => self.config.master_namespace,
        }
    }

    /// Settings on the Termux file system.
    pub fn new(config: Config, shell: Option<String>, master_namespace: Option<bool>) -> (r: Self)
        ensures
            r.config == config,
            r.shell == shell,
            r.master_namespace == master_namespace,
            r.fs_root@ == TERMUX_FS@,
    {
        TermuxEnv { config, shell, master_namespace, fs_root: String::from_str(TERMUX_FS) }
    }

    /// Settings on a file system rooted elsewhere.
    pub fn with_fs_root(
        config: Config,
        shell: Option<String>,
        master_namespace: Option<bool>,
        fs_root: String,
    ) -> (r: Self)
        ensures
            r.config == config,
            r.shell == shell,
            r.master_namespace == master_namespace,
            r.fs_root == fs_root,
    {
        TermuxEnv { config, shell, master_namespace, fs_root }
    }

    /// The shell asked for.
    pub fn shell_choice(&self) -> (r: &String)
        ensures
            r@ == self.chosen_shell(),
    {
        match &self.shell {
            Some(s) => s,
            None => &self.config.shell,
        }
    }

    /// Whether the global mount namespace is asked for.
    pub fn is_master_namespace(&self) -> (r: bool)
        ensures
            r == self.master_choice(),
    {
        match self.master_namespace {
            Some(m) => m,
            None => self.config.master_namespace,
        }
    }

    /// Checks the escalation binary against what the disk showed.
    pub fn check_su_path(&self, facts: PathFacts) -> (r: Result<String, AppError>)
        ensures
            match su_issue(self.config.su_file@, facts) {
                Some(issue) => r matches Err(AppError::InvalidSuPath { path, reason }) && path@
                    == self.config.su_file@ && reason == issue,
                None => r matches Ok(s) && s@ == self.config.su_file@,
            },
    {
        let path = &self.config.su_file;
        let issue = if !is_absolute(path.as_str()) {
            Some(PathIssue::NotAbsolute)
        } else if !facts.exists {
            Some(PathIssue::NotFound)
        } else if !facts.is_file {
            Some(PathIssue::NotAFile)
        } else {
            None
        };
        match issue {
            Some(reason) => Err(AppError::InvalidSuPath { path: path.clone(), reason }),
            None => Ok(path.clone()),
        }
    }

    /// Checks the home directory against what the disk showed.
    pub fn check_home_dir(&self, facts: PathFacts) -> (r: Result<String, AppError>)
        ensures
            match home_issue(self.config.home_dir@, facts) {
                Some(issue) => r matches Err(AppError::InvalidHomeDir { path, reason }) && path@
                    == self.config.home_dir@ && reason == issue,
                None => r matches Ok(s) && s@ == self.config.home_dir@,
            },
    {
        let path = &self.config.home_dir;
        let issue = if !is_absolute(path.as_str()) {
            Some(PathIssue::NotAbsolute)
        } else if facts.exists && !facts.is_dir {
            Some(PathIssue::NotADirectory)
        } else {
            None
        };
        match issue {
            Some(reason) => Err(AppError::InvalidHomeDir { path: path.clone(), reason }),
            None => Ok(path.clone()),
        }
    }

    /// Checks the shell against what the disk showed (absolute shell) or
    /// what the search of `PATH` found (relative shell).
    pub fn check_shell(&self, facts: PathFacts, found: Option<String>) -> (r: Result<
        String,
        AppError,
    >)
        ensures
            match shell_outcome(self.chosen_shell(), facts, view_opt(found)) {
                Err(issue) => r matches Err(AppError::InvalidShell { shell, reason }) && shell@
                    == self.chosen_shell() && reason == issue,
                Ok(p) => r matches Ok(s) && s@ == p,
            },
    {
        let shell = self.shell_choice();
        if is_absolute(shell.as_str()) {
            if !facts.exists {
                Err(AppError::InvalidShell { shell: shell.clone(), reason: PathIssue::NotFound })
            } else if !facts.is_file {
                Err(AppError::InvalidShell { shell: shell.clone(), reason: PathIssue::NotAFile })
            } else {
                Ok(shell.clone())
            }
        } else {
            match found {
                Some(p) => {
                    if is_absolute(p.as_str()) {
                        Ok(p)
                    } else {
                        Err(
                            AppError::InvalidShell {
                                shell: shell.clone(),
                                reason: PathIssue::NotFoundInPath,
                            },
                        )
                    }
                },
                None => Err(
                    AppError::InvalidShell { shell: shell.clone(), reason: PathIssue::NotFoundInPath },
                ),
            }
        }
    }

    /// The environment of the root shell, once the home directory passed
    /// its check against what the disk showed (`home_facts`).
    pub fn get_env_map(&self, home_facts: PathFacts, host: &HostVars) -> (r: Result<
        Vec<(String, String)>,
        AppError,
    >)
        ensures
            match home_issue(self.config.home_dir@, home_facts) {
                Some(issue) => r matches Err(AppError::InvalidHomeDir { path, reason }) && path@
                    == self.config.home_dir@ && reason == issue,
                None => r matches Ok(m) && pairs_view(m@) == env_entries(
                    self.config.home_dir@,
                    self.config.path_env@,
                    view_opt(host.term),
                    view_opt(host.prefix),
                    self.fs_root@,
                ),
            },
    {
        match self.check_home_dir(home_facts) {
            Ok(home) => Ok(self.entries_for(&home, host)),
            Err(e) => Err(e),
        }
    }

    fn entries_for(&self, home: &String, host: &HostVars) -> (r: Vec<(String, String)>)
        ensures
            pairs_view(r@) == env_entries(
                home@,
                self.config.path_env@,
                view_opt(host.term),
                view_opt(host.prefix),
                self.fs_root@,
            ),
    {
        let term = match &host.term {
            Some(t) => t.clone(),
            None => String::from_str("xterm-256color"),
        };
        let prefix = match &host.prefix {
            Some(p) => p.clone(),
            None => self.fs_root.clone().concat("/usr"),
        };
        let mut r: Vec<(String, String)> = Vec::new();
        r.push((String::from_str("HOME"), home.clone()));
        r.push((String::from_str("PATH"), self.config.path_env.clone()));
        r.push((String::from_str("TERM"), term));
        r.push((String::from_str("PREFIX"), prefix));
        assert(pairs_view(r@) =~= env_entries(
            home@,
            self.config.path_env@,
            view_opt(host.term),
            view_opt(host.prefix),
            self.fs_root@,
        ));
        r
    }

    /// Resolves the run from what the disk, the search path and the
    /// caller's variables showed.
    pub fn resolve_with(&self, probes: &HostProbes, host: &HostVars) -> (r: Result<
        ResolvedEnvironment,
        AppError,
    >)
        ensures
            resolution(*self, *probes, *host, r),
    {
        let su_path = match self.check_su_path(probes.su) {
            Ok(p) => p,
            Err(e) => return Err(e),
        };
        let shell_path = match self.check_shell(probes.shell, probes.shell_lookup.clone()) {
            Ok(p) => p,
            Err(e) => return Err(e),
        };
        let env_map = match self.get_env_map(probes.home, host) {
            Ok(m) => m,
            Err(e) => return Err(e),
        };
        Ok(
            ResolvedEnvironment {
                su_path,
                shell_path,
                env_map,
                use_master_namespace: self.is_master_namespace(),
            },
        )
    }

    /// Looks at the disk for the configured paths and, for a relative
    /// shell, searches `PATH`.
    pub fn probe_host(&self) -> (r: HostProbes)
        ensures
            starts_with_root(self.chosen_shell()) ==> r.shell_lookup is None,
    {
        let shell = self.shell_choice();
        let shell_lookup = if is_absolute(shell.as_str()) {
            None
        } else {
            search_path(shell.as_str())
        };
        HostProbes {
            su: PathFacts::of(self.config.su_file.as_str()),
            home: PathFacts::of(self.config.home_dir.as_str()),
            shell: PathFacts::of(shell.as_str()),
            shell_lookup,
        }
    }

    /// Resolves the run against the disk and the search path as they are
    /// now. Whatever they show, the outcome is the resolution for it.
    pub fn resolve(&self, host: &HostVars) -> (r: Result<ResolvedEnvironment, AppError>)
        ensures
            exists|p: HostProbes| #[trigger] resolution(*self, p, *host, r),
    {
        let probes = self.probe_host();
        let r = self.resolve_with(&probes, host);
        assert(resolution(*self, probes, *host, r));
        r
    }
}

} // verus!
