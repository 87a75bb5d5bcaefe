//! The static table from an operating system and architecture to the runtime
//! distribution that is downloaded for it.

use vstd::prelude::*;

verus! {

/// Version of the Node.js distribution that is bundled.
pub const NODE_VERSION: &'static str = "22.13.1";

#[derive(Clone, Copy, Debug, PartialEq, Eq, Structural)]
pub enum Os {
    MacOs,
    Linux,
    Windows,
    Other,
}

#[derive(Clone, Copy, Debug, PartialEq, Eq, Structural)]
pub enum Arch {
    Aarch64,
    X86_64,
    Other,
}

/// The host an install runs on.
#[derive(Clone, Copy, Debug, PartialEq, Eq, Structural)]
pub struct Platform {
    pub os: Os,
    pub arch: Arch,
}

/// Where the distribution of one platform is downloaded from, and the name
/// of the top-level folder that its archive unpacks to.
#[derive(Clone, Debug)]
pub struct PlatformTarget {
    pub download_url: String,
    pub folder_name: String,
}

/// The name that the Node.js release uses for a supported platform.
pub open spec fn platform_slug(p: Platform) -> Option<Seq<char>> {
    match (p.os, p.arch) {
        (Os::MacOs, Arch::Aarch64) => Some("darwin-arm64"@),
        (Os::MacOs, Arch::X86_64) => Some("darwin-x64"@),
        (Os::Linux, Arch::X86_64) => Some("linux-x64"@),
        (Os::Linux, Arch::Aarch64) => Some("linux-arm64"@),
        (Os::Windows, Arch::X86_64) => Some("win-x64"@),
        _ => None,
    }
}

pub open spec fn is_supported(p: Platform) -> bool {
    platform_slug(p) is Some
}

/// Windows distributions are zip archives, the others gzip-compressed tars.
pub open spec fn archive_suffix(p: Platform) -> Seq<char> {
    if p.os == Os::Windows {
        ".zip"@
    } else {
        ".tar.gz"@
    }
}

pub open spec fn folder_name_of(slug: Seq<char>) -> Seq<char> {
    "node-v"@ + NODE_VERSION@ + "-"@ + slug
}

pub open spec fn download_url_of(p: Platform, slug: Seq<char>) -> Seq<char> {
    "https://nodejs.org/dist/v"@ + NODE_VERSION@ + "/"@ + folder_name_of(slug) + archive_suffix(p)
}

/// The target of a supported platform, as plain character sequences.
pub open spec fn target_spec(p: Platform) -> Option<(Seq<char>, Seq<char>)> {
    match platform_slug(p) {
        Some(slug) => Some((download_url_of(p, slug), folder_name_of(slug))),
        None => None,
    }
}

fn slug_of(p: Platform) -> (r: Option<&'static str>)
    ensures
        match r {
            Some(s) => platform_slug(p) == Some(s@),
            None => platform_slug(p) is None,
        },
{
    match (p.os, p.arch) {
        (Os::MacOs, Arch::Aarch64) => Some("darwin-arm64"),
        (Os::MacOs, Arch::X86_64) => Some("darwin-x64"),
        (Os::Linux, Arch::X86_64) => Some("linux-x64"),
        (Os::Linux, Arch::Aarch64) => Some("linux-arm64"),
        (Os::Windows, Arch::X86_64) => Some("win-x64"),
        _ => None,
    }
}

/// The distribution for `platform`, or `None` where no distribution exists.
pub fn get_node_url(platform: Platform) -> (r: Option<PlatformTarget>)
    ensures
        r is Some <==> is_supported(platform),
        match r {
            Some(t) => target_spec(platform) == Some((t.download_url@, t.folder_name@)),
            None => true,
        },
{
    match slug_of(platform) {
        Some(slug) => {
            let folder = String::from_str("node-v").concat(NODE_VERSION).concat("-").concat(slug);
            let suffix = if platform.os == Os::Windows {
                ".zip"
            } else {
                ".tar.gz"
            };
            let url = String::from_str("https://nodejs.org/dist/v").concat(NODE_VERSION).concat(
                "/",
            ).concat(folder.as_str()).concat(suffix);
            Some(PlatformTarget { download_url: url, folder_name: folder })
        },
        None => None,
    }
}

/// Every supported platform has a non-empty URL and folder name; every other
/// platform has no target at all.
pub proof fn lemma_target_nonempty(p: Platform)
    ensures
        match target_spec(p) {
            Some((url, folder)) => url.len() > 0 && folder.len() > 0,
            None => !is_supported(p),
        },
        !is_supported(p) ==> target_spec(p) is None,
{
    reveal_strlit("node-v");
    reveal_strlit("https://nodejs.org/dist/v");
}

} // verus!
