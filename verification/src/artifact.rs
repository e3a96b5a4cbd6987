//! The artifact table: which download descriptor serves a platform pair.
//!
//! Every URL and file name is a deterministic function of the pinned
//! version; the table never consults the network.

use vstd::prelude::*;
use crate::platform::{Arch, Os};
use crate::text::{concat2, concat3, concat5};

verus! {

/// The pinned version of the browser this installer provisions.
pub open spec fn version_spec() -> Seq<char> {
    "0.39.0.3"@
}

/// The pinned version, as the one configuration value all descriptors
/// are built from.
pub fn version() -> (r: &'static str)
    ensures
        r@ == version_spec(),
{
    "0.39.0.3"
}

/// One download descriptor: where to fetch the artifact and what to call
/// the downloaded file.
pub struct Artifact {
    pub url: String,
    pub file_name: String,
}

/// The artifact file name for a platform pair. The disk-image platform
/// distinguishes architectures, with a universal image for any
/// architecture outside the table; the other supported platforms serve
/// one artifact each. Unsupported platforms have no file name.
pub open spec fn artifact_file_of(os: Os, arch: Arch) -> Seq<char> {
    match os {
        Os::MacOs => match arch {
            Arch::Arm64 => "BrowserOS_v"@ + version_spec() + "_arm64.dmg"@,
            Arch::X64 => "BrowserOS_v"@ + version_spec() + "_x64.dmg"@,
            Arch::Other => "BrowserOS_v"@ + version_spec() + "_universal.dmg"@,
        },
        Os::Windows => "BrowserOS_v"@ + version_spec() + "_x64_installer.exe"@,
        Os::Linux => "BrowserOS_v"@ + version_spec() + "_x64.AppImage"@,
        Os::Other => Seq::<char>::empty(),
    }
}

/// The per-platform directory on the release server.
pub open spec fn release_dir_of(os: Os) -> Seq<char> {
    match os {
        Os::MacOs => "macos"@,
        Os::Windows => "win"@,
        Os::Linux => "linux"@,
        Os::Other => Seq::<char>::empty(),
    }
}

/// The download URL for a platform pair.
pub open spec fn artifact_url_of(os: Os, arch: Arch) -> Seq<char> {
    "http://cdn.browseros.com/releases/"@ + version_spec() + "/"@ + release_dir_of(os) + "/"@
        + artifact_file_of(os, arch)
}

/// What the resolver promises of its answer: a descriptor exists exactly
/// for the supported platforms, and its fields are the table's entries
/// for the pair.
pub open spec fn resolved_artifact(os: Os, arch: Arch, r: Option<Artifact>) -> bool {
    &&& (r is Some <==> os != Os::Other)
    &&& (r matches Some(a) ==> a.url@ == artifact_url_of(os, arch) && a.file_name@
        == artifact_file_of(os, arch))
}

/// Builds the URL for a file under the per-platform release directory.
fn build_url(dir: &str, file: &str) -> (r: String)
    ensures
        r@ == "http://cdn.browseros.com/releases/"@ + version_spec() + "/"@ + dir@ + "/"@ + file@,
{
    let head = concat5("http://cdn.browseros.com/releases/", version(), "/", dir, "/");
    concat2(head.as_str(), file)
}

/// Selects the download descriptor for a platform pair, or nothing when
/// the operating system is outside the supported table.
pub fn resolve_artifact(os: Os, arch: Arch) -> (r: Option<Artifact>)
    ensures
        resolved_artifact(os, arch, r),
{
    match os {
        Os::MacOs => {
            let file = match arch {
                Arch::Arm64 => concat3("BrowserOS_v", version(), "_arm64.dmg"),
                Arch::X64 => concat3("BrowserOS_v", version(), "_x64.dmg"),
                Arch::Other => concat3("BrowserOS_v", version(), "_universal.dmg"),
            };
            let url = build_url("macos", file.as_str());
            Some(Artifact { url, file_name: file })
        },
        Os::Windows => {
            let file = concat3("BrowserOS_v", version(), "_x64_installer.exe");
            let url = build_url("win", file.as_str());
            Some(Artifact { url, file_name: file })
        },
        Os::Linux => {
            let file = concat3("BrowserOS_v", version(), "_x64.AppImage");
            let url = build_url("linux", file.as_str());
            Some(Artifact { url, file_name: file })
        },
        Os::Other => None,
    }
}

/// Law: on every supported platform pair the table yields exactly one
/// descriptor, and any two resolutions of the same pair agree byte for
/// byte — the descriptor is a deterministic function of the pair and the
/// pinned version.
pub proof fn lemma_artifact_resolution_deterministic(
    os: Os,
    arch: Arch,
    r1: Option<Artifact>,
    r2: Option<Artifact>,
)
    requires
        os != Os::Other,
        resolved_artifact(os, arch, r1),
        resolved_artifact(os, arch, r2),
    ensures
        r1 is Some,
        r2 is Some,
        r1->0.url@ == r2->0.url@,
        r1->0.file_name@ == r2->0.file_name@,
{
}

/// Law: outside the supported table the resolver never yields a
/// descriptor.
pub proof fn lemma_unsupported_platform_resolves_to_none(os: Os, arch: Arch, r: Option<Artifact>)
    requires
        os == Os::Other,
        resolved_artifact(os, arch, r),
    ensures
        r is None,
{
}

} // verus!
