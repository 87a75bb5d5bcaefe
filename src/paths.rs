//! The install layout: where the runtime lives under the local data
//! directory, and where its two binaries sit inside it.

use vstd::prelude::*;
use crate::platform::{Os, Platform};

verus! {

pub open spec fn separator_char(p: Platform) -> char {
    if p.os == Os::Windows {
        '\\'
    } else {
        '/'
    }
}

pub open spec fn separator(p: Platform) -> Seq<char> {
    seq![separator_char(p)]
}

/// `a` and `b` with one separator between them: none is added where `a`
/// already ends with one.
pub open spec fn join_spec(a: Seq<char>, b: Seq<char>, p: Platform) -> Seq<char> {
    if a.len() > 0 && a.last() == separator_char(p) {
        a + b
    } else {
        a + separator(p) + b
    }
}

/// `<base>/simplestclaw/runtime`
pub open spec fn runtime_root_spec(base: Seq<char>, p: Platform) -> Seq<char> {
    join_spec(join_spec(base, "simplestclaw"@, p), "runtime"@, p)
}

/// The directory that holds the binaries: the distribution's folder itself on
/// Windows, its `bin` directory elsewhere.
pub open spec fn binary_dir_spec(root: Seq<char>, folder: Seq<char>, p: Platform) -> Seq<char> {
    if p.os == Os::Windows {
        join_spec(root, folder, p)
    } else {
        join_spec(join_spec(root, folder, p), "bin"@, p)
    }
}

pub open spec fn node_binary_spec(root: Seq<char>, folder: Seq<char>, p: Platform) -> Seq<char> {
    join_spec(
        binary_dir_spec(root, folder, p),
        if p.os == Os::Windows {
            "node.exe"@
        } else {
            "node"@
        },
        p,
    )
}

pub open spec fn npx_binary_spec(root: Seq<char>, folder: Seq<char>, p: Platform) -> Seq<char> {
    join_spec(
        binary_dir_spec(root, folder, p),
        if p.os == Os::Windows {
            "npx.cmd"@
        } else {
            "npx"@
        },
        p,
    )
}

pub open spec fn temp_archive_spec(root: Seq<char>, p: Platform) -> Seq<char> {
    join_spec(root, "download.tmp"@, p)
}

fn separator_of(p: Platform) -> (r: &'static str)
    ensures
        r@ == separator(p),
{
    proof {
        reveal_strlit("\\");
        reveal_strlit("/");
        assert("\\"@ =~= seq!['\\']);
        assert("/"@ =~= seq!['/']);
    }
    if p.os == Os::Windows {
        "\\"
    } else {
        "/"
    }
}

/// `a` and `b` joined by the platform's path separator.
pub fn join(a: &str, b: &str, platform: Platform) -> (r: String)
    ensures
        r@ == join_spec(a@, b@, platform),
{
    let sep = if platform.os == Os::Windows {
        '\\'
    } else {
        '/'
    };
    let n = a.unicode_len();
    if n > 0 && a.get_char(n - 1) == sep {
        String::from_str(a).concat(b)
    } else {
        String::from_str(a).concat(separator_of(platform)).concat(b)
    }
}

/// The install root under the local data directory `base`.
pub fn runtime_root(base: &str, platform: Platform) -> (r: String)
    ensures
        r@ == runtime_root_spec(base@, platform),
{
    let product = join(base, "simplestclaw", platform);
    join(product.as_str(), "runtime", platform)
}

pub fn binary_dir(root: &str, folder: &str, platform: Platform) -> (r: String)
    ensures
        r@ == binary_dir_spec(root@, folder@, platform),
{
    let dist = join(root, folder, platform);
    if platform.os == Os::Windows {
        dist
    } else {
        join(dist.as_str(), "bin", platform)
    }
}

pub fn node_binary_path(root: &str, folder: &str, platform: Platform) -> (r: String)
    ensures
        r@ == node_binary_spec(root@, folder@, platform),
{
    let dir = binary_dir(root, folder, platform);
    let name = if platform.os == Os::Windows {
        "node.exe"
    } else {
        "node"
    };
    join(dir.as_str(), name, platform)
}

pub fn npx_binary_path(root: &str, folder: &str, platform: Platform) -> (r: String)
    ensures
        r@ == npx_binary_spec(root@, folder@, platform),
{
    let dir = binary_dir(root, folder, platform);
    let name = if platform.os == Os::Windows {
        "npx.cmd"
    } else {
        "npx"
    };
    join(dir.as_str(), name, platform)
}

/// The file that the archive is downloaded to, inside the install root.
pub fn temp_archive_path(root: &str, platform: Platform) -> (r: String)
    ensures
        r@ == temp_archive_spec(root@, platform),
{
    join(root, "download.tmp", platform)
}

} // verus!
