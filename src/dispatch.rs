//! The decisions of the shim dispatcher: which tool a shim stands for,
//! which binary runs, and which exit status the shim ends with.

use vstd::prelude::*;
use crate::binding::{resolve_version, spec_resolve, opt_string_view, opt_view, BindingScope, ConfigurationError};
use crate::paths::EnvManPaths;
use crate::platform::Platform;
use crate::text::str_eq;

verus! {

/// The names the manager itself runs under.
pub open spec fn is_manager_name(stem: Seq<char>) -> bool {
    stem == "em"@ || stem == "enman"@
}

/// The tool a shim stands for, from the file stem of the running
/// executable; `None` when the manager runs under its own name.
pub fn shim_tool(stem: &str) -> (r: Option<String>)
    ensures
        r matches Some(t) ==> t@ == stem@ && !is_manager_name(stem@),
        r is None ==> is_manager_name(stem@),
{
    if str_eq(stem, "em") || str_eq(stem, "enman") {
        None
    } else {
        Some(String::from_str(stem))
    }
}

/// Why a shim cannot hand over to a binary.
#[derive(Debug, Clone, Copy, PartialEq, Eq, Structural)]
pub enum DispatchError {
    /// No version could be resolved.
    Configuration(ConfigurationError),
    /// The resolved version is not installed.
    NotInstalled,
}

/// A binary resolved for a shim.
#[derive(Debug, Clone, PartialEq, Eq)]
pub struct DispatchTarget {
    pub version: String,
    pub scope: BindingScope,
    /// The binding named another tool; its version is used.
    pub tool_mismatch: bool,
    /// The canonical binary of the resolved version.
    pub binary: String,
}

/// Resolves the binary that a shim for `tool` runs, from the binding
/// files found for the invocation (see `resolve_version`).
pub fn dispatch_target(
    paths: &EnvManPaths,
    platform: &Platform,
    tool: &str,
    marker: Option<&str>,
    project: Option<String>,
    global: Option<&str>,
) -> (r: Result<DispatchTarget, DispatchError>)
    ensures
        r matches Ok(t) ==> spec_resolve(tool@, opt_view(marker), opt_string_view(project), opt_view(global))
            == Ok::<(Seq<char>, BindingScope, bool), ConfigurationError>((t.version@, t.scope, t.tool_mismatch))
            && t.binary@ == paths.spec_binary_path(tool@, t.version@, *platform),
        r matches Err(e) ==> spec_resolve(tool@, opt_view(marker), opt_string_view(project), opt_view(global))
            == Err::<(Seq<char>, BindingScope, bool), ConfigurationError>(e->Configuration_0)
            && e is Configuration,
{
    match resolve_version(tool, marker, project, global) {
        Ok(res) => {
            let binary = paths.binary_path(tool, res.version.as_str(), platform);
            Ok(DispatchTarget { version: res.version, scope: res.scope, tool_mismatch: res.tool_mismatch, binary })
        },
        Err(e) => Err(DispatchError::Configuration(e)),
    }
}

/// A resolved binary that is absent means the version is not installed;
/// the shim never installs it by itself.
pub fn check_installed(binary_present: bool) -> (r: Result<(), DispatchError>)
    ensures
        r is Ok <==> binary_present,
        r matches Err(e) ==> e == DispatchError::NotInstalled,
{
    if binary_present {
        Ok(())
    } else {
        Err(DispatchError::NotInstalled)
    }
}

/// The exit status of a shim: the child's own code, or 1 where the child
/// ended without one (killed by a signal).
pub open spec fn spec_exit_status(child: Option<i32>) -> i32 {
    match child {
        Some(c) => c,
        None => 1,
    }
}

/// The status a shim exits with once its child has ended.
pub fn exit_status(child: Option<i32>) -> (r: i32)
    ensures
        r == spec_exit_status(child),
{
    match child {
        Some(c) => c,
        None => 1,
    }
}

/// The command that fixes a failed dispatch: installing the resolved
/// version when it is missing, or binding a version when none resolves.
pub fn remedy(tool: &str, version: &str, e: DispatchError) -> (r: String)
    ensures
        e == DispatchError::NotInstalled ==> r@ == "Run: em install "@ + tool@ + "@"@ + version@,
        e != DispatchError::NotInstalled ==> r@ == "Run: em global "@ + tool@ + "@<version>"@,
{
    match e {
        DispatchError::NotInstalled => {
            let mut r = String::from_str("Run: em install ");
            r.append(tool);
            r.append("@");
            r.append(version);
            r
        },
        _ => {
            let mut r = String::from_str("Run: em global ");
            r.append(tool);
            r.append("@<version>");
            r
        },
    }
}

} // verus!
