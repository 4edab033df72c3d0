//! Settings of the launcher, as loaded from its configuration file.

use vstd::prelude::*;

verus! {

/// Root of the Termux file system.
pub const TERMUX_FS: &'static str = "/data/data/com.termux/files";

/// Directories of Android where system and root programs live.
pub const DEFAULT_SYSPATH_ENV: &'static str =
    "/system/bin:/debug_ramdisk:/sbin:/sbin/su:/su/bin:/su/xbin:/system/bin:/system/xbin";

/// Settings that every run starts from. No field is checked when the value
/// is built: each is checked when it is used.
#[derive(Clone, Debug)]
pub struct Config {
    /// Absolute path of the escalation binary.
    pub su_file: String,
    /// Home directory of the root shell.
    pub home_dir: String,
    /// Shell to run: an absolute path, or a name looked up in `PATH`.
    pub shell: String,
    /// Value of `PATH` in the root shell.
    pub path_env: String,
    /// Whether to ask for the global mount namespace.
    pub master_namespace: bool,
}

impl Default for Config {
    fn default() -> (r: Config)
        ensures
            r.su_file@ == "/system/bin/su"@,
            r.home_dir@ == TERMUX_FS@ + "/root"@,
            r.shell@ == "bash"@,
            r.path_env@ == TERMUX_FS@ + "/usr/bin:"@ + DEFAULT_SYSPATH_ENV@,
            !r.master_namespace,
    {
        Config {
            su_file: String::from_str("/system/bin/su"),
            home_dir: String::from_str(TERMUX_FS).concat("/root"),
            shell: String::from_str("bash"),
            path_env: String::from_str(TERMUX_FS).concat("/usr/bin:").concat(DEFAULT_SYSPATH_ENV),
            master_namespace: false,
        }
    }
}

} // verus!
