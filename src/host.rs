//! Calls that ask the host: its local data directory, and whether a file
//! exists. Both answers depend on the machine and may change between calls,
//! so nothing is promised of them.

use vstd::prelude::*;

verus! {

/// Relies on `dirs::data_local_dir`: the user's local data directory, where
/// one can be determined, as a lossily converted string.
#[verifier::external_body]
pub(crate) fn data_local_dir() -> (r: Option<String>) {
    dirs::data_local_dir().map(|d| d.to_string_lossy().into_owned())
}

/// Relies on `std::path::Path::exists`: whether a file or directory is found
/// at `path` now.
#[verifier::external_body]
pub(crate) fn path_exists(path: &str) -> (r: bool) {
    std::path::Path::new(path).exists()
}

} // verus!
