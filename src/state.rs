//! Install errors, the shared record of the current install attempt, and the
//! status snapshot that observers read.

use vstd::prelude::*;
use crate::platform::NODE_VERSION;

verus! {

/// Why an install attempt failed. The `String` fields hold the underlying
/// cause as reported by the operation that failed.
#[derive(Clone, Debug)]
pub enum InstallError {
    UnsupportedPlatform,
    NoRuntimeDirectory,
    DirectoryCreateFailed(String),
    NetworkError(String),
    WriteError(String),
    ExtractionError(String),
    VerificationFailed,
    SchedulingError(String),
}

pub open spec fn message_spec(e: InstallError) -> Seq<char> {
    match e {
        InstallError::UnsupportedPlatform => "Unsupported platform"@,
        InstallError::NoRuntimeDirectory => "Could not determine runtime directory"@,
        InstallError::DirectoryCreateFailed(m) => "Failed to create runtime directory: "@ + m@,
        InstallError::NetworkError(m) => "Download failed: "@ + m@,
        InstallError::WriteError(m) => "Write error: "@ + m@,
        InstallError::ExtractionError(m) => "Failed to extract: "@ + m@,
        InstallError::VerificationFailed => "Installation verification failed"@,
        InstallError::SchedulingError(m) => "Task error: "@ + m@,
    }
}

/// Every error message is non-empty.
pub proof fn lemma_message_nonempty(e: InstallError)
    ensures
        message_spec(e).len() > 0,
{
    reveal_strlit("Unsupported platform");
    reveal_strlit("Could not determine runtime directory");
    reveal_strlit("Failed to create runtime directory: ");
    reveal_strlit("Download failed: ");
    reveal_strlit("Write error: ");
    reveal_strlit("Failed to extract: ");
    reveal_strlit("Installation verification failed");
    reveal_strlit("Task error: ");
}

impl InstallError {
    /// The human-readable message of this error.
    pub fn message(&self) -> (r: String)
        ensures
            r@ == message_spec(*self),
            r@.len() > 0,
    {
        proof {
            lemma_message_nonempty(*self);
        }
        match self {
            InstallError::UnsupportedPlatform => String::from_str("Unsupported platform"),
            InstallError::NoRuntimeDirectory => String::from_str(
                "Could not determine runtime directory",
            ),
            InstallError::DirectoryCreateFailed(m) => String::from_str(
                "Failed to create runtime directory: ",
            ).concat(m.as_str()),
            InstallError::NetworkError(m) => String::from_str("Download failed: ").concat(m.as_str()),
            InstallError::WriteError(m) => String::from_str("Write error: ").concat(m.as_str()),
            InstallError::ExtractionError(m) => String::from_str("Failed to extract: ").concat(
                m.as_str(),
            ),
            InstallError::VerificationFailed => String::from_str("Installation verification failed"),
            InstallError::SchedulingError(m) => String::from_str("Task error: ").concat(m.as_str()),
        }
    }

    /// A copy of this error.
    pub fn duplicate(&self) -> (r: Self)
        ensures
            r == *self,
    {
        match self {
            InstallError::UnsupportedPlatform => InstallError::UnsupportedPlatform,
            InstallError::NoRuntimeDirectory => InstallError::NoRuntimeDirectory,
            InstallError::DirectoryCreateFailed(m) => InstallError::DirectoryCreateFailed(m.clone()),
            InstallError::NetworkError(m) => InstallError::NetworkError(m.clone()),
            InstallError::WriteError(m) => InstallError::WriteError(m.clone()),
            InstallError::ExtractionError(m) => InstallError::ExtractionError(m.clone()),
            InstallError::VerificationFailed => InstallError::VerificationFailed,
            InstallError::SchedulingError(m) => InstallError::SchedulingError(m.clone()),
        }
    }
}

/// The shared record of the current install attempt.
pub struct RuntimeState {
    pub downloading: bool,
    /// Download progress in percent.
    pub progress: u32,
    /// Message of the last failed attempt, cleared when a new one begins.
    pub error: Option<String>,
}

impl RuntimeState {
    pub open spec fn wf(&self) -> bool {
        self.progress <= 100
    }

    /// A new attempt begins: downloading, no progress, no error.
    pub fn begin_attempt(&mut self)
        ensures
            final(self).downloading,
            final(self).progress == 0,
            final(self).error is None,
            final(self).wf(),
    {
        self.downloading = true;
        self.progress = 0;
        self.error = None;
    }

    /// Takes the percentage of `p` where the response declared its length,
    /// and leaves the progress as it was otherwise.
    pub fn report_progress(&mut self, p: &crate::progress::DownloadProgress)
        requires
            p.wf(),
        ensures
            final(self).progress == if p.total_bytes is Some {
                p.percent
            } else {
                old(self).progress
            },
            final(self).downloading == old(self).downloading,
            final(self).error == old(self).error,
            old(self).wf() ==> final(self).wf(),
    {
        if p.total_bytes.is_some() {
            self.progress = p.percent;
        }
    }

    /// The transfer is complete: progress shows 100.
    pub fn complete_download(&mut self)
        ensures
            final(self).progress == 100,
            final(self).downloading == old(self).downloading,
            final(self).error == old(self).error,
            final(self).wf(),
    {
        self.progress = 100;
    }

    /// The attempt ended with `result`: no longer downloading, and a failure
    /// recorded by its message.
    pub fn end_attempt(&mut self, result: &Result<(), InstallError>)
        ensures
            !final(self).downloading,
            final(self).progress == old(self).progress,
            view_opt(final(self).error) == match result {
                Ok(()) => view_opt(old(self).error),
                Err(e) => Some(message_spec(*e)),
            },
            old(self).wf() ==> final(self).wf(),
    {
        self.downloading = false;
        if let Err(e) = result {
            self.error = Some(e.message());
        }
    }
}

impl Default for RuntimeState {
    fn default() -> (r: Self)
        ensures
            !r.downloading,
            r.progress == 0,
            r.error is None,
    {
        RuntimeState { downloading: false, progress: 0, error: None }
    }
}

/// A snapshot of the runtime for observers.
#[derive(Clone, Debug)]
pub struct RuntimeStatus {
    pub installed: bool,
    pub version: Option<String>,
    pub node_path: Option<String>,
    pub npx_path: Option<String>,
    pub downloading: bool,
    /// Download progress in percent.
    pub download_progress: u32,
    pub error: Option<String>,
}

pub open spec fn view_opt(o: Option<String>) -> Option<Seq<char>> {
    match o {
        Some(s) => Some(s@),
        None => None,
    }
}

/// Whether the runtime counts as installed, given the two binary probes:
/// exactly when both binaries were found.
pub fn installed_from(node_path: &Option<String>, npx_path: &Option<String>) -> (r: bool)
    ensures
        r == (node_path is Some && npx_path is Some),
{
    node_path.is_some() && npx_path.is_some()
}

/// The status made of the two binary probes and the shared state: installed
/// exactly when both binaries were found, whatever the state says.
pub fn status_from(node_path: Option<String>, npx_path: Option<String>, state: &RuntimeState) -> (r:
    RuntimeStatus)
    ensures
        r.installed == (node_path is Some && npx_path is Some),
        view_opt(r.version) == if r.installed {
            Some(NODE_VERSION@)
        } else {
            None
        },
        r.node_path == node_path,
        r.npx_path == npx_path,
        r.downloading == state.downloading,
        r.download_progress == state.progress,
        r.error == state.error,
{
    let installed = installed_from(&node_path, &npx_path);
    let version = if installed {
        Some(String::from_str(NODE_VERSION))
    } else {
        None
    };
    let error = match &state.error {
        Some(e) => Some(e.clone()),
        None => None,
    };
    RuntimeStatus {
        installed,
        version,
        node_path,
        npx_path,
        downloading: state.downloading,
        download_progress: state.progress,
        error,
    }
}

} // verus!
