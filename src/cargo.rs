//! Command line for a cargo build of the launcher for an Android target.

use vstd::prelude::*;

verus! {

/// Target triple of 64-bit ARM Android.
pub const ARM64_V8A_TRIPLE: &'static str = "aarch64-linux-android";

/// Target triple of 32-bit ARM Android.
pub const ARMEABI_V7A_TRIPLE: &'static str = "armv7-linux-androideabi";

/// An Android ABI the launcher is built for.
#[derive(Clone, Copy, Debug, PartialEq, Eq, Structural)]
pub enum Target {
    Arm64V8A,
    ArmeabiV7A,
}

/// The target triple of an ABI.
pub open spec fn triple_of(t: Target) -> Seq<char> {
    match t {
        Target::Arm64V8A => ARM64_V8A_TRIPLE@,
        Target::ArmeabiV7A => ARMEABI_V7A_TRIPLE@,
    }
}

impl Target {
    /// The target triple, as cargo takes it.
    pub fn as_str(&self) -> (r: &'static str)
        ensures
            r@ == triple_of(*self),
    {
        match self {
            Target::Arm64V8A => ARM64_V8A_TRIPLE,
            Target::ArmeabiV7A => ARMEABI_V7A_TRIPLE,
        }
    }
}

/// An invocation of cargo: the program and its arguments, in order.
#[derive(Debug)]
pub struct CargoCmd {
    path: String,
    args: Vec<String>,
}

impl CargoCmd {
    /// The program, as text.
    pub closed spec fn program(&self) -> Seq<char> {
        self.path@
    }

    /// The arguments, as text.
    pub closed spec fn arg_list(&self) -> Seq<Seq<char>> {
        self.args@.map_values(|a: String| a@)
    }

    /// An invocation of `cargo_path` with no arguments.
    pub fn new(cargo_path: &str) -> (r: CargoCmd)
        ensures
            r.program() == cargo_path@,
            r.arg_list().len() == 0,
    {
        CargoCmd { path: cargo_path.to_owned(), args: Vec::new() }
    }

    fn arg(&mut self, value: &str)
        ensures
            final(self).program() == old(self).program(),
            final(self).arg_list() == old(self).arg_list().push(value@),
    {
        self.args.push(value.to_owned());
        assert(final(self).arg_list() =~= old(self).arg_list().push(value@));
    }

    /// Appends `build`.
    pub fn build(&mut self)
        ensures
            final(self).program() == old(self).program(),
            final(self).arg_list() == old(self).arg_list().push("build"@),
    {
        self.arg("build");
    }

    /// Appends `--release`.
    pub fn release(&mut self)
        ensures
            final(self).program() == old(self).program(),
            final(self).arg_list() == old(self).arg_list().push("--release"@),
    {
        self.arg("--release");
    }

    /// Appends a subcommand of cargo.
    pub fn cargo_subcommand(&mut self, subcommand: &str)
        ensures
            final(self).program() == old(self).program(),
            final(self).arg_list() == old(self).arg_list().push(subcommand@),
    {
        self.arg(subcommand);
    }

    /// Appends `--target <target>`.
    pub fn target(&mut self, target: &str)
        ensures
            final(self).program() == old(self).program(),
            final(self).arg_list() == old(self).arg_list().push("--target"@).push(target@),
    {
        self.arg("--target");
        self.arg(target);
    }

    /// The program to run.
    pub fn program_path(&self) -> (r: &str)
        ensures
            r@ == self.program(),
    {
        self.path.as_str()
    }

    /// The arguments, in order.
    pub fn args(&self) -> (r: &Vec<String>)
        ensures
            r@.map_values(|a: String| a@) == self.arg_list(),
    {
        &self.args
    }
}

/// The cargo invocation that builds the launcher for `target`: through
/// `cargo ndk` when `cargo_ndk` holds, in release mode when `release` does.
pub fn cargo_build(target: Target, cargo_ndk: bool, release: bool) -> (r: CargoCmd)
    ensures
        r.program() == "cargo"@,
        r.arg_list() == (if cargo_ndk {
            seq!["ndk"@]
        } else {
            seq![]
        }) + seq!["build"@, "--target"@, triple_of(target)] + (if release {
            seq!["--release"@]
        } else {
            seq![]
        }),
{
    let mut cmd = CargoCmd::new("cargo");
    if cargo_ndk {
        cmd.cargo_subcommand("ndk");
    }
    cmd.build();
    cmd.target(target.as_str());
    if release {
        cmd.release();
    }
    assert(cmd.arg_list() =~= (if cargo_ndk {
        seq!["ndk"@]
    } else {
        seq![]
    }) + seq!["build"@, "--target"@, triple_of(target)] + (if release {
        seq!["--release"@]
    } else {
        seq![]
    }));
    cmd
}

/// Where cargo puts the launcher's binary for `target`:
/// `target/<triple>/<release|debug>/tsw`.
pub fn built_binary_path(target: Target, release: bool) -> (r: String)
    ensures
        r@ == "target/"@ + triple_of(target) + "/"@ + (if release {
            "release"@
        } else {
            "debug"@
        }) + "/tsw"@,
{
    let build_type = if release {
        "release"
    } else {
        "debug"
    };
    String::from_str("target/").concat(target.as_str()).concat("/").concat(build_type).concat("/tsw")
}

} // verus!
