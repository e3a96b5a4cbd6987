//! Classification of the host platform.
//!
//! The installer reads the operating-system and CPU-architecture names once
//! at process start and classifies them into the classes its decision table
//! distinguishes. Every name outside the table maps to `Other`.

use vstd::prelude::*;
use crate::text::str_eq;

verus! {

/// Operating-system classes the installer distinguishes.
#[derive(Clone, Copy, PartialEq, Eq, Structural, Debug)]
pub enum Os {
    /// Disk-image platform: the artifact is a mountable image.
    MacOs,
    /// Installer platform: the artifact is an installer the user runs.
    Windows,
    /// Self-contained-executable platform; also the only platform with a
    /// system-dependency step.
    Linux,
    /// Any operating system outside the supported table.
    Other,
}

/// CPU-architecture classes the installer distinguishes.
#[derive(Clone, Copy, PartialEq, Eq, Structural, Debug)]
pub enum Arch {
    Arm64,
    X64,
    /// Any architecture outside the table; the disk-image platform falls
    /// back to a universal artifact for it.
    Other,
}

/// The class of an operating-system name as the standard library reports it.
pub open spec fn os_class_of(name: Seq<char>) -> Os {
    if name == "macos"@ {
        Os::MacOs
    } else if name == "windows"@ {
        Os::Windows
    } else if name == "linux"@ {
        Os::Linux
    } else {
        Os::Other
    }
}

/// The class of a CPU-architecture name as the standard library reports it.
pub open spec fn arch_class_of(name: Seq<char>) -> Arch {
    if name == "aarch64"@ {
        Arch::Arm64
    } else if name == "x86_64"@ {
        Arch::X64
    } else {
        Arch::Other
    }
}

/// Classifies an operating-system name.
pub fn classify_os(name: &str) -> (os: Os)
    ensures
        os == os_class_of(name@),
{
    if str_eq(name, "macos") {
        Os::MacOs
    } else if str_eq(name, "windows") {
        Os::Windows
    } else if str_eq(name, "linux") {
        Os::Linux
    } else {
        Os::Other
    }
}

/// Classifies a CPU-architecture name.
pub fn classify_arch(name: &str) -> (arch: Arch)
    ensures
        arch == arch_class_of(name@),
{
    if str_eq(name, "aarch64") {
        Arch::Arm64
    } else if str_eq(name, "x86_64") {
        Arch::X64
    } else {
        Arch::Other
    }
}

} // verus!
