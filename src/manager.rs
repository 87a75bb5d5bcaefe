//! The runtime manager: the install layout on this host, the binary probes,
//! the status snapshot and the shared state that install attempts update.

use vstd::prelude::*;
use crate::host::{data_local_dir, path_exists};
use crate::install::{InstallAttempt, target_folder};
use crate::paths::{
    node_binary_path, node_binary_spec, npx_binary_path, npx_binary_spec, runtime_root,
    runtime_root_spec,
};
use crate::platform::{get_node_url, is_supported, Platform};
use crate::state::{installed_from, status_from, view_opt, RuntimeState, RuntimeStatus};

verus! {

/// Where the node binary of `platform` lies under the local data directory `base`.
pub open spec fn node_path_spec(base: Seq<char>, p: Platform) -> Seq<char> {
    node_binary_spec(runtime_root_spec(base, p), target_folder(p), p)
}

/// Where the npx launcher of `platform` lies under the local data directory `base`.
pub open spec fn npx_path_spec(base: Seq<char>, p: Platform) -> Seq<char> {
    npx_binary_spec(runtime_root_spec(base, p), target_folder(p), p)
}

pub struct RuntimeManager {
    pub platform: Platform,
    pub state: RuntimeState,
}

/// The node binary's path under `base`, or `None` on an unsupported platform.
pub fn node_path_under(base: &str, platform: Platform) -> (r: Option<String>)
    ensures
        r is Some <==> is_supported(platform),
        r is Some ==> r->0@ == node_path_spec(base@, platform),
{
    match get_node_url(platform) {
        Some(target) => {
            let root = runtime_root(base, platform);
            Some(node_binary_path(root.as_str(), target.folder_name.as_str(), platform))
        },
        None => None,
    }
}

/// The npx launcher's path under `base`, or `None` on an unsupported platform.
pub fn npx_path_under(base: &str, platform: Platform) -> (r: Option<String>)
    ensures
        r is Some <==> is_supported(platform),
        r is Some ==> r->0@ == npx_path_spec(base@, platform),
{
    match get_node_url(platform) {
        Some(target) => {
            let root = runtime_root(base, platform);
            Some(npx_binary_path(root.as_str(), target.folder_name.as_str(), platform))
        },
        None => None,
    }
}

fn existing(path: Option<String>) -> (r: Option<String>)
    ensures
        r is Some ==> r == path,
{
    match path {
        Some(p) => {
            if path_exists(p.as_str()) {
                Some(p)
            } else {
                None
            }
        },
        None => None,
    }
}

impl RuntimeManager {
    /// A manager for `platform` with nothing downloading, no progress and no error.
    pub fn new(platform: Platform) -> (r: Self)
        ensures
            r.platform == platform,
            !r.state.downloading,
            r.state.progress == 0,
            r.state.error is None,
    {
        RuntimeManager { platform, state: RuntimeState::default() }
    }

    /// The install root, where the local data directory is known.
    pub fn runtime_dir(&self) -> (r: Option<String>)
        ensures
            r is Some ==> exists|base: Seq<char>| r->0@ == runtime_root_spec(base, self.platform),
    {
        match data_local_dir() {
            Some(base) => Some(runtime_root(base.as_str(), self.platform)),
            None => None,
        }
    }

    /// The node binary's path, where it exists now.
    pub fn node_path(&self) -> (r: Option<String>)
        ensures
            r is Some ==> is_supported(self.platform) && exists|base: Seq<char>|
                r->0@ == node_path_spec(base, self.platform),
            !is_supported(self.platform) ==> r is None,
    {
        match data_local_dir() {
            Some(base) => existing(node_path_under(base.as_str(), self.platform)),
            None => None,
        }
    }

    /// The npx launcher's path, where it exists now.
    pub fn npx_path(&self) -> (r: Option<String>)
        ensures
            r is Some ==> is_supported(self.platform) && exists|base: Seq<char>|
                r->0@ == npx_path_spec(base, self.platform),
            !is_supported(self.platform) ==> r is None,
    {
        match data_local_dir() {
            Some(base) => existing(npx_path_under(base.as_str(), self.platform)),
            None => None,
        }
    }

    /// Whether both binaries exist now. Never true on an unsupported platform.
    pub fn is_installed(&self) -> (r: bool)
        ensures
            !is_supported(self.platform) ==> !r,
    {
        installed_from(&self.node_path(), &self.npx_path())
    }

    /// A snapshot: the binaries are probed afresh, and the download fields are
    /// read from the shared state. It never fails.
    pub fn status(&self) -> (r: RuntimeStatus)
        ensures
            r.installed == (r.node_path is Some && r.npx_path is Some),
            r.installed ==> is_supported(self.platform) && view_opt(r.version) == Some(
                crate::platform::NODE_VERSION@,
            ),
            !r.installed ==> r.version is None,
            r.node_path is Some ==> exists|base: Seq<char>|
                r.node_path->0@ == node_path_spec(base, self.platform),
            r.npx_path is Some ==> exists|base: Seq<char>|
                r.npx_path->0@ == npx_path_spec(base, self.platform),
            r.downloading == self.state.downloading,
            r.download_progress == self.state.progress,
            r.error == self.state.error,
    {
        let node = self.node_path();
        let npx = self.npx_path();
        status_from(node, npx, &self.state)
    }

    /// A new install attempt on this host. Its first action is a probe.
    pub fn start_install(&self) -> (r: InstallAttempt)
        ensures
            r.wf(),
            r.platform == self.platform,
            r.phase is Probing,
    {
        InstallAttempt::new(self.platform, data_local_dir())
    }
}

} // verus!
