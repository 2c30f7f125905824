//! The decision of an uninstall: an installed version is removed unless it
//! is the tool's active global binding.

use vstd::prelude::*;
use crate::binding::{parse_binding, spec_binding, ConfigurationError};
use crate::text::{str_eq, trim_ws, trimmed, CharClass};

verus! {

/// What an uninstall does.
#[derive(Debug, Clone, Copy, PartialEq, Eq, Structural)]
pub enum UninstallPlan {
    /// The version is not installed: nothing to remove.
    NotInstalled,
    /// Remove the version's directory, then the tool's directory if it is
    /// left empty.
    Remove,
}

/// The global binding file's content names `version` for `tool`: the
/// trimmed content is the version, or reads as a binding to it.
pub open spec fn binds_version(global: Option<Seq<char>>, tool: Seq<char>, version: Seq<char>) -> bool {
    match global {
        Some(g) => trim_ws(g) == version || (spec_binding(g, tool) matches Some((v, _)) && v == version),
        None => false,
    }
}

pub open spec fn opt_str_view(o: Option<&str>) -> Option<Seq<char>> {
    match o {
        Some(s) => Some(s@),
        None => None,
    }
}

/// Decides an uninstall of `version` of `tool`: `installed` tells whether
/// its directory exists, `global` holds the content of the tool's global
/// binding file, if there is one. The active global version is refused and
/// left in place.
pub fn plan_uninstall(tool: &str, version: &str, installed: bool, global: Option<&str>) -> (r: Result<UninstallPlan, ConfigurationError>)
    ensures
        !installed ==> r == Ok::<UninstallPlan, ConfigurationError>(UninstallPlan::NotInstalled),
        installed && binds_version(opt_str_view(global), tool@, version@)
            ==> r == Err::<UninstallPlan, ConfigurationError>(ConfigurationError::ActiveGlobalBinding),
        installed && !binds_version(opt_str_view(global), tool@, version@)
            ==> r == Ok::<UninstallPlan, ConfigurationError>(UninstallPlan::Remove),
{
    if !installed {
        return Ok(UninstallPlan::NotInstalled);
    }
    match global {
        Some(g) => if str_eq(trimmed(g, CharClass::Whitespace).as_str(), version) {
            Err(ConfigurationError::ActiveGlobalBinding)
        } else {
            match parse_binding(g, tool) {
            Some(b) => {
                if str_eq(b.version.as_str(), version) {
                    Err(ConfigurationError::ActiveGlobalBinding)
                } else {
                    Ok(UninstallPlan::Remove)
                }
            },
            None => Ok(UninstallPlan::Remove),
            }
        },
        None => Ok(UninstallPlan::Remove),
    }
}

/// Uninstall refusal: an installed version whose trimmed text is the whole
/// content of the tool's global binding file is refused, so nothing is
/// removed.
pub proof fn lemma_active_global_refused(tool: Seq<char>, version: Seq<char>, content: Seq<char>)
    requires
        trim_ws(content) == version,
    ensures
        binds_version(Some(content), tool, version),
{
}

} // verus!
