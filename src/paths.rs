//! The filesystem layout: every path the manager reads or writes is
//! computed here, from the root directory and plain names.

use vstd::prelude::*;
use crate::platform::{Os, Platform};
use crate::text::str_eq;

verus! {

/// `a` and `b` joined by a path separator.
pub open spec fn join(a: Seq<char>, b: Seq<char>) -> Seq<char> {
    a + seq!['/'] + b
}

/// Joins two path parts with a separator.
pub fn join_path(a: &str, b: &str) -> (r: String)
    ensures
        r@ == join(a@, b@),
{
    proof {
        reveal_strlit("/");
    }
    let mut r = String::from_str(a);
    r.append("/");
    r.append(b);
    r
}

/// The directories of an installation of the manager.
#[derive(Debug, Clone, PartialEq, Eq)]
pub struct EnvManPaths {
    pub root: String,
    pub shims: String,
    pub installs: String,
    pub global: String,
}

/// The layout could not be placed.
#[derive(Debug, Clone, Copy, PartialEq, Eq, Structural)]
pub enum LayoutError {
    /// The platform names no home directory for the user.
    NoHomeDirectory,
}

/// Relies on `dirs::home_dir`: the user's home directory, where the
/// platform names one.
#[verifier::external_body]
fn home_dir() -> (r: Option<String>) {
    dirs::home_dir().map(|p| p.to_string_lossy().into_owned())
}

/// Relies on `std::path::Path::exists`: whether something is at the path
/// now; the answer depends on the disk.
#[verifier::external_body]
pub(crate) fn path_exists(p: &str) -> (r: bool) {
    std::path::Path::new(p).exists()
}

pub open spec fn spec_root_at(home: Seq<char>) -> Seq<char> {
    join(home, ".enman"@)
}

impl EnvManPaths {
    /// The subdirectories all sit directly under the root.
    pub open spec fn well_formed(&self) -> bool {
        &&& self.shims@ == join(self.root@, "shims"@)
        &&& self.installs@ == join(self.root@, "installs"@)
        &&& self.global@ == join(self.root@, "global"@)
    }

    /// The layout rooted at `<home>/.enman`.
    pub fn at_home(home: &str) -> (r: EnvManPaths)
        ensures
            r.root@ == spec_root_at(home@),
            r.well_formed(),
    {
        let root = join_path(home, ".enman");
        let shims = join_path(root.as_str(), "shims");
        let installs = join_path(root.as_str(), "installs");
        let global = join_path(root.as_str(), "global");
        EnvManPaths { root, shims, installs, global }
    }

    /// The layout under the user's home directory.
    pub fn new() -> (r: Result<EnvManPaths, LayoutError>)
        ensures
            r matches Ok(p) ==> p.well_formed(),
    {
        match home_dir() {
            Some(h) => Ok(EnvManPaths::at_home(h.as_str())),
            None => Err(LayoutError::NoHomeDirectory),
        }
    }

    /// The file holding the global binding of `tool`.
    pub fn global_version_file(&self, tool: &str) -> (r: String)
        ensures
            r@ == join(self.global@, tool@),
    {
        join_path(self.global.as_str(), tool)
    }

    /// The directory holding every installed version of `tool`.
    pub fn install_dir(&self, tool: &str) -> (r: String)
        ensures
            r@ == join(self.installs@, tool@),
    {
        join_path(self.installs.as_str(), tool)
    }

    /// The directory of one installed version.
    pub open spec fn spec_version_dir(&self, tool: Seq<char>, version: Seq<char>) -> Seq<char> {
        join(join(self.installs@, tool), version)
    }

    /// The directory of one installed version of `tool`.
    pub fn version_dir(&self, tool: &str, version: &str) -> (r: String)
        ensures
            r@ == self.spec_version_dir(tool@, version@),
    {
        let d = self.install_dir(tool);
        join_path(d.as_str(), version)
    }

    /// Where an installed version keeps its executables.
    pub open spec fn spec_bin_dir(&self, tool: Seq<char>, version: Seq<char>, platform: Platform) -> Seq<char> {
        bin_dir_under(self.spec_version_dir(tool, version), tool, platform)
    }

    /// The staging directory that a version is unpacked into before it is
    /// published; it lies outside `installs`.
    pub open spec fn spec_staging_dir(&self, tool: Seq<char>, version: Seq<char>) -> Seq<char> {
        join(join(self.root@, "staging"@), tool + "@"@ + version)
    }

    /// The staging directory of one version of `tool`.
    pub fn staging_dir(&self, tool: &str, version: &str) -> (r: String)
        ensures
            r@ == self.spec_staging_dir(tool@, version@),
    {
        let base = join_path(self.root.as_str(), "staging");
        let mut name = String::from_str(tool);
        name.append("@");
        name.append(version);
        join_path(base.as_str(), name.as_str())
    }

    /// The staging directory of a version never lies inside the install
    /// directory of a tool, so a half-unpacked tree is never installed.
    pub proof fn lemma_staging_outside_installs(&self, tool: Seq<char>, version: Seq<char>, other: Seq<char>)
        requires
            self.well_formed(),
        ensures
            !(join(self.installs@, other).len() <= self.spec_staging_dir(tool, version).len()
                && self.spec_staging_dir(tool, version).subrange(0, join(self.installs@, other).len() as int)
                == join(self.installs@, other)),
    {
        reveal_strlit("staging");
        reveal_strlit("installs");
        let st = self.spec_staging_dir(tool, version);
        let ins = join(self.installs@, other);
        let k: int = self.root@.len() as int + 1;
        assert(st[k] == 's');
        assert(ins[k] == 'i');
        if ins.len() <= st.len() && st.subrange(0, ins.len() as int) == ins {
            assert(st.subrange(0, ins.len() as int)[k] == st[k]);
        }
    }

    /// The file locked while one version of `tool` is being installed.
    pub fn lock_file(&self, tool: &str, version: &str) -> (r: String)
        ensures
            r@ == join(join(self.root@, "locks"@), tool@ + "@"@ + version@ + ".lock"@),
    {
        let base = join_path(self.root.as_str(), "locks");
        let mut name = String::from_str(tool);
        name.append("@");
        name.append(version);
        name.append(".lock");
        join_path(base.as_str(), name.as_str())
    }

    /// The directory that holds the executables of an installed version.
    pub fn install_bin_path(&self, tool: &str, version: &str, platform: &Platform) -> (r: String)
        ensures
            r@ == self.spec_bin_dir(tool@, version@, *platform),
    {
        let base = self.version_dir(tool, version);
        bin_dir_in(base.as_str(), tool, platform)
    }

    /// The canonical binary: the tool's executable in its executable directory.
    pub open spec fn spec_binary_path(&self, tool: Seq<char>, version: Seq<char>, platform: Platform) -> Seq<char> {
        binary_under(self.spec_version_dir(tool, version), tool, platform)
    }

    /// The canonical binary of an installed version; it exists exactly when
    /// the version is installed.
    pub fn binary_path(&self, tool: &str, version: &str, platform: &Platform) -> (r: String)
        ensures
            r@ == self.spec_binary_path(tool@, version@, *platform),
    {
        let base = self.version_dir(tool, version);
        binary_in(base.as_str(), tool, platform)
    }

    /// The shim that runs `tool` through the manager.
    pub fn shim_path(&self, tool: &str, platform: &Platform) -> (r: String)
        ensures
            r@ == join(self.shims@, spec_exe_name(tool@, *platform)),
    {
        let exe = exe_name(tool, platform);
        join_path(self.shims.as_str(), exe.as_str())
    }
}

/// Where an install tree rooted at `base` keeps its executables: the
/// Windows builds of Node, Python and Redis keep them at the top, every
/// other build in `bin`.
pub open spec fn bin_dir_under(base: Seq<char>, tool: Seq<char>, platform: Platform) -> Seq<char> {
    if platform.os == Os::Windows && (tool == "node"@ || tool == "python"@ || tool == "redis"@) {
        base
    } else {
        join(base, "bin"@)
    }
}

/// The file name of a tool's canonical binary: Python's Unix builds name
/// it `python3`, Redis's is its server; every other tool's is its name.
pub open spec fn spec_binary_name(tool: Seq<char>, platform: Platform) -> Seq<char> {
    if tool == "python"@ && platform.os != Os::Windows {
        "python3"@
    } else if tool == "redis"@ {
        spec_exe_name("redis-server"@, platform)
    } else {
        spec_exe_name(tool, platform)
    }
}

/// The tool's executable in an install tree rooted at `base`.
pub open spec fn binary_under(base: Seq<char>, tool: Seq<char>, platform: Platform) -> Seq<char> {
    join(bin_dir_under(base, tool, platform), spec_binary_name(tool, platform))
}

/// The executable directory of an install tree rooted at `base`.
pub fn bin_dir_in(base: &str, tool: &str, platform: &Platform) -> (r: String)
    ensures
        r@ == bin_dir_under(base@, tool@, *platform),
{
    if platform.is_windows() && (str_eq(tool, "node") || str_eq(tool, "python") || str_eq(tool, "redis")) {
        String::from_str(base)
    } else {
        join_path(base, "bin")
    }
}

/// The file name of a tool's canonical binary.
pub fn binary_name(tool: &str, platform: &Platform) -> (r: String)
    ensures
        r@ == spec_binary_name(tool@, *platform),
{
    if str_eq(tool, "python") && !platform.is_windows() {
        String::from_str("python3")
    } else if str_eq(tool, "redis") {
        exe_name("redis-server", platform)
    } else {
        exe_name(tool, platform)
    }
}

/// The tool's executable in an install tree rooted at `base`, such as a
/// staging directory.
pub fn binary_in(base: &str, tool: &str, platform: &Platform) -> (r: String)
    ensures
        r@ == binary_under(base@, tool@, *platform),
{
    let dir = bin_dir_in(base, tool, platform);
    let exe = binary_name(tool, platform);
    join_path(dir.as_str(), exe.as_str())
}

/// The file name of an executable: `.exe` is added on Windows.
pub open spec fn spec_exe_name(name: Seq<char>, platform: Platform) -> Seq<char> {
    if platform.os == Os::Windows {
        name + ".exe"@
    } else {
        name
    }
}

/// The file name of the executable called `name`.
pub fn exe_name(name: &str, platform: &Platform) -> (r: String)
    ensures
        r@ == spec_exe_name(name@, *platform),
{
    let mut r = String::from_str(name);
    if platform.is_windows() {
        r.append(".exe");
    }
    r
}

} // verus!
