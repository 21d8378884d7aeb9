//! Platform identification: maps the host's reported operating system and
//! CPU architecture to the canonical release-asset name, rejecting
//! unsupported combinations.

use vstd::prelude::*;
use vstd::string::StringExecFns;

verus! {

/// The host's operating system as reported by the editor runtime. Anything
/// other than macOS or Linux is collapsed into `Other`: no release asset
/// exists for it.
#[derive(Clone, Copy, Debug, PartialEq, Eq, Structural)]
pub enum HostOs {
    Mac,
    Linux,
    Other,
}

/// The host's CPU architecture. Anything other than `aarch64` or `x86_64`
/// is collapsed into `Other`.
#[derive(Clone, Copy, Debug, PartialEq, Eq, Structural)]
pub enum HostArch {
    Aarch64,
    X8664,
    Other,
}

pub open spec fn os_supported(os: HostOs) -> bool {
    os is Mac || os is Linux
}

pub open spec fn arch_supported(arch: HostArch) -> bool {
    arch is Aarch64 || arch is X8664
}

/// The asset-name fragment a supported operating system contributes.
pub open spec fn os_fragment(os: HostOs) -> Seq<char> {
    match os {
        HostOs::Mac => "darwin"@,
        HostOs::Linux => "linux"@,
        HostOs::Other => Seq::<char>::empty(),
    }
}

/// The asset-name fragment a supported architecture contributes (reported
/// verbatim).
pub open spec fn arch_fragment(arch: HostArch) -> Seq<char> {
    match arch {
        HostArch::Aarch64 => "aarch64"@,
        HostArch::X8664 => "x86_64"@,
        HostArch::Other => Seq::<char>::empty(),
    }
}

/// The full asset name looked up in a release:
/// `{stem}-{os}-{arch}.tar.gz`, where the stem is the configured server
/// name.
pub open spec fn asset_name_spec(stem: Seq<char>, os: HostOs, arch: HostArch) -> Seq<char>
    recommends
        os_supported(os),
        arch_supported(arch),
{
    stem + "-"@ + os_fragment(os) + "-"@ + arch_fragment(arch) + ".tar.gz"@
}

pub open spec fn unsupported_os_message() -> Seq<char> {
    "Unsupported OS — only macOS and Linux are supported"@
}

pub open spec fn unsupported_arch_message() -> Seq<char> {
    "Unsupported architecture — only aarch64 and x86_64 are supported"@
}

/// Derive the release-asset name for a platform report, or the documented
/// error for an unsupported combination. Pure and deterministic; an
/// unsupported operating system is reported before an unsupported
/// architecture.
pub fn asset_name(stem: &str, os: HostOs, arch: HostArch) -> (r: Result<String, String>)
    ensures
        os_supported(os) && arch_supported(arch) ==> (r matches Ok(name)
            && name@ == asset_name_spec(stem@, os, arch)),
        !os_supported(os) ==> (r matches Err(m) && m@ == unsupported_os_message()),
        os_supported(os) && !arch_supported(arch) ==> (r matches Err(m)
            && m@ == unsupported_arch_message()),
{
    let os_str: &str = match os {
        HostOs::Mac => "darwin",
        HostOs::Linux => "linux",
        HostOs::Other => {
            return Err(String::from_str("Unsupported OS — only macOS and Linux are supported"));
        },
    };
    let arch_str: &str = match arch {
        HostArch::Aarch64 => "aarch64",
        HostArch::X8664 => "x86_64",
        HostArch::Other => {
            return Err(
                String::from_str("Unsupported architecture — only aarch64 and x86_64 are supported"),
            );
        },
    };
    let mut name = String::from_str(stem);
    name.append("-");
    name.append(os_str);
    name.append("-");
    name.append(arch_str);
    name.append(".tar.gz");
    Ok(name)
}

} // verus!
