//! The (operating system, architecture) pair that downloads are chosen for.

use vstd::prelude::*;
use crate::text::str_eq;

verus! {

#[derive(Debug, Clone, Copy, PartialEq, Eq, Structural)]
pub enum Os {
    Windows,
    Macos,
    Linux,
}

#[derive(Debug, Clone, Copy, PartialEq, Eq, Structural)]
pub enum Arch {
    X64,
    Arm64,
}

#[derive(Debug, Clone, Copy, PartialEq, Eq, Structural)]
pub struct Platform {
    pub os: Os,
    pub arch: Arch,
}

/// The platform named by the operating-system and architecture names that
/// Rust reports (`std::env::consts::OS` and `ARCH`): `windows` and `macos`
/// are themselves, every other system counts as Linux; only `x86_64` and
/// `aarch64` are supported architectures.
pub open spec fn spec_detect(os_name: Seq<char>, arch_name: Seq<char>) -> Option<Platform> {
    let os = if os_name == "windows"@ {
        Os::Windows
    } else if os_name == "macos"@ {
        Os::Macos
    } else {
        Os::Linux
    };
    if arch_name == "x86_64"@ {
        Some(Platform { os, arch: Arch::X64 })
    } else if arch_name == "aarch64"@ {
        Some(Platform { os, arch: Arch::Arm64 })
    } else {
        None
    }
}

impl Platform {
    /// The platform of a process, from the names Rust reports for it;
    /// `None` on an unsupported architecture.
    pub fn detect(os_name: &str, arch_name: &str) -> (r: Option<Platform>)
        ensures
            r == spec_detect(os_name@, arch_name@),
    {
        let os = if str_eq(os_name, "windows") {
            Os::Windows
        } else if str_eq(os_name, "macos") {
            Os::Macos
        } else {
            Os::Linux
        };
        if str_eq(arch_name, "x86_64") {
            Some(Platform { os, arch: Arch::X64 })
        } else if str_eq(arch_name, "aarch64") {
            Some(Platform { os, arch: Arch::Arm64 })
        } else {
            None
        }
    }

    pub fn is_windows(&self) -> (r: bool)
        ensures
            r == (self.os == Os::Windows),
    {
        match self.os {
            Os::Windows => true,
            _ => false,
        }
    }
}

} // verus!
