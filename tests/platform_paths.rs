use simplestclaw::manager::{node_path_under, npx_path_under};
use simplestclaw::paths::{join, runtime_root, temp_archive_path};
use simplestclaw::platform::{get_node_url, Arch, Os, Platform, NODE_VERSION};

fn linux_x64() -> Platform {
    Platform { os: Os::Linux, arch: Arch::X86_64 }
}

#[test]
fn linux_x64_target() {
    let t = get_node_url(linux_x64()).unwrap();
    assert_eq!(
        t.download_url,
        "https://nodejs.org/dist/v22.13.1/node-v22.13.1-linux-x64.tar.gz"
    );
    assert_eq!(t.folder_name, "node-v22.13.1-linux-x64");
}

#[test]
fn every_supported_target() {
    let cases = [
        (Os::MacOs, Arch::Aarch64, "node-v22.13.1-darwin-arm64", ".tar.gz"),
        (Os::MacOs, Arch::X86_64, "node-v22.13.1-darwin-x64", ".tar.gz"),
        (Os::Linux, Arch::X86_64, "node-v22.13.1-linux-x64", ".tar.gz"),
        (Os::Linux, Arch::Aarch64, "node-v22.13.1-linux-arm64", ".tar.gz"),
        (Os::Windows, Arch::X86_64, "node-v22.13.1-win-x64", ".zip"),
    ];
    for (os, arch, folder, ext) in cases {
        let t = get_node_url(Platform { os, arch }).unwrap();
        assert!(!t.download_url.is_empty());
        assert_eq!(t.folder_name, folder);
        assert_eq!(
            t.download_url,
            format!("https://nodejs.org/dist/v22.13.1/{}{}", folder, ext)
        );
    }
}

#[test]
fn unsupported_targets() {
    let cases = [
        (Os::Windows, Arch::Aarch64),
        (Os::Windows, Arch::Other),
        (Os::MacOs, Arch::Other),
        (Os::Linux, Arch::Other),
        (Os::Other, Arch::X86_64),
        (Os::Other, Arch::Aarch64),
    ];
    for (os, arch) in cases {
        assert!(get_node_url(Platform { os, arch }).is_none());
    }
}

#[test]
fn version_constant() {
    assert_eq!(NODE_VERSION, "22.13.1");
}

#[test]
fn unix_layout() {
    let p = linux_x64();
    assert_eq!(join("a", "b", p), "a/b");
    assert_eq!(
        runtime_root("/home/alice/.local/share", p),
        "/home/alice/.local/share/simplestclaw/runtime"
    );
    assert_eq!(
        temp_archive_path("/r", p),
        "/r/download.tmp"
    );
    let node = node_path_under("/home/alice/.local/share", p).unwrap();
    let npx = npx_path_under("/home/alice/.local/share", p).unwrap();
    assert_eq!(
        node,
        "/home/alice/.local/share/simplestclaw/runtime/node-v22.13.1-linux-x64/bin/node"
    );
    assert!(node.ends_with("node-v22.13.1-linux-x64/bin/node"));
    assert_eq!(
        npx,
        "/home/alice/.local/share/simplestclaw/runtime/node-v22.13.1-linux-x64/bin/npx"
    );
}

#[test]
fn windows_layout() {
    let p = Platform { os: Os::Windows, arch: Arch::X86_64 };
    let base = "C:\\Users\\Alice\\AppData\\Local";
    assert_eq!(
        node_path_under(base, p).unwrap(),
        "C:\\Users\\Alice\\AppData\\Local\\simplestclaw\\runtime\\node-v22.13.1-win-x64\\node.exe"
    );
    assert_eq!(
        npx_path_under(base, p).unwrap(),
        "C:\\Users\\Alice\\AppData\\Local\\simplestclaw\\runtime\\node-v22.13.1-win-x64\\npx.cmd"
    );
}

#[test]
fn no_paths_on_unsupported_platform() {
    let p = Platform { os: Os::Other, arch: Arch::X86_64 };
    assert!(node_path_under("/x", p).is_none());
    assert!(npx_path_under("/x", p).is_none());
}

#[test]
fn join_keeps_one_separator() {
    let unix = linux_x64();
    let win = Platform { os: Os::Windows, arch: Arch::X86_64 };
    assert_eq!(join("/data/", "b", unix), "/data/b");
    assert_eq!(join("C:\\Local\\", "b", win), "C:\\Local\\b");
    assert_eq!(join("C:\\Local/", "b", win), "C:\\Local/\\b");
    assert_eq!(join("", "b", unix), "/b");
    assert_eq!(
        runtime_root("/data/", unix),
        "/data/simplestclaw/runtime"
    );
}
