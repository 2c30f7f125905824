//! Redis installs.

use vstd::prelude::*;
use crate::paths::{path_exists, EnvManPaths, LayoutError};
use crate::platform::Platform;

verus! {

/// Whether `version` of Redis is installed for this user: its canonical
/// binary exists. `false` where the user has no home directory.
pub fn is_redis_installed(version: &str, platform: &Platform) -> (r: bool) {
    match EnvManPaths::new() {
        Ok(paths) => {
            let binary = paths.binary_path("redis", version, platform);
            path_exists(binary.as_str())
        },
        Err(_) => false,
    }
}

/// The directory of the Redis executables of `version` for this user.
pub fn get_redis_install_path(version: &str, platform: &Platform) -> (r: Result<String, LayoutError>)
    ensures
        r matches Ok(p) ==> exists|paths: EnvManPaths| paths.well_formed()
            && p@ == #[trigger] paths.spec_bin_dir("redis"@, version@, *platform),
{
    match EnvManPaths::new() {
        Ok(paths) => Ok(paths.install_bin_path("redis", version, platform)),
        Err(e) => Err(e),
    }
}

} // verus!
