//! The platforms that release binaries are published for, and how a release
//! names the binary of each.

use vstd::prelude::*;

verus! {

/// An operating system the editor can run on.
#[derive(Clone, Copy, Debug, PartialEq, Eq, Structural)]
pub enum Os {
    Mac,
    Linux,
    Windows,
}

/// A processor architecture the editor can run on.
#[derive(Clone, Copy, Debug, PartialEq, Eq, Structural)]
pub enum Architecture {
    Aarch64,
    X8664,
    X86,
}

/// What an asset's name says for the operating system `os`.
pub open spec fn os_label(os: Os) -> Seq<char> {
    match os {
        Os::Mac => "darwin"@,
        Os::Linux => "linux"@,
        Os::Windows => "windows"@,
    }
}

/// What an asset's name says for the architecture `arch`.
///
/// Releases carry no binary for 32-bit x86: such a machine is given the
/// label of the 64-bit one.
pub open spec fn arch_label(arch: Architecture) -> Seq<char> {
    match arch {
        Architecture::Aarch64 => "arm64"@,
        Architecture::X8664 => "amd64"@,
        Architecture::X86 => "amd64"@,
    }
}

/// The name of the release asset that holds the binary for `os` and `arch`:
/// `cem-`, the operating system's label, a hyphen, the architecture's label.
pub open spec fn asset_name(os: Os, arch: Architecture) -> Seq<char> {
    "cem-"@ + os_label(os) + "-"@ + arch_label(arch)
}

impl Os {
    /// This operating system's label in asset names.
    pub fn label(self) -> (label: &'static str)
        ensures
            label@ == os_label(self),
    {
        match self {
            Os::Mac => "darwin",
            Os::Linux => "linux",
            Os::Windows => "windows",
        }
    }
}

impl Architecture {
    /// This architecture's label in asset names.
    pub fn label(self) -> (label: &'static str)
        ensures
            label@ == arch_label(self),
    {
        match self {
            Architecture::Aarch64 => "arm64",
            Architecture::X8664 => "amd64",
            Architecture::X86 => "amd64",
        }
    }
}

/// Builds the name of the release asset for `os` and `arch`.
pub fn expected_asset_name(os: Os, arch: Architecture) -> (name: String)
    ensures
        name@ == asset_name(os, arch),
{
    let mut name = String::from_str("cem-");
    name.append(os.label());
    name.append("-");
    name.append(arch.label());
    name
}

} // verus!
