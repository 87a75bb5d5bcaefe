//! The decisions of one install attempt, as a state machine. The caller
//! performs each action (probing, creating the directory, downloading,
//! unpacking, removing the archive, setting permissions) and hands back what
//! came of it as an event.

use vstd::prelude::*;
use crate::paths::{
    binary_dir, binary_dir_spec, runtime_root, runtime_root_spec, temp_archive_path,
    temp_archive_spec,
};
use crate::platform::{get_node_url, is_supported, target_spec, Os, Platform, PlatformTarget};
use crate::state::{view_opt, InstallError, RuntimeState, message_spec};

verus! {

#[derive(Debug)]
pub enum InstallPhase {
    Probing,
    CreatingDir,
    Downloading,
    Extracting,
    RemovingArchive,
    Verifying,
    SettingPermissions,
    Done(Result<(), InstallError>),
}

/// What came of the action last asked for.
#[derive(Debug)]
pub enum InstallEvent {
    /// Whether both binaries were found.
    Probed(bool),
    DirCreated(Result<(), String>),
    Downloaded(Result<(), InstallError>),
    Extracted(Result<(), InstallError>),
    ArchiveRemoved,
    /// Whether both binaries were found after unpacking.
    Verified(bool),
    PermissionsSet(Result<(), String>),
}

/// What the caller is to do next.
#[derive(Debug)]
pub enum InstallAction {
    /// Check that both binaries exist.
    Probe,
    /// Create this directory and its parents.
    CreateDir(String),
    /// Stream the body at `url` into the file `dest`, reporting progress.
    Download { url: String, dest: String },
    ExtractZip { archive: String, dest: String },
    ExtractTarGz { archive: String, dest: String },
    /// Remove this file; a failure is ignored.
    RemoveArchive(String),
    /// Check again that both binaries exist.
    Verify,
    /// Make every file directly inside this directory executable.
    MakeExecutable(String),
    /// The attempt is over.
    Finish(Result<(), InstallError>),
}

/// One install attempt on `platform`, with the local data directory that was
/// found for it.
#[derive(Debug)]
pub struct InstallAttempt {
    pub platform: Platform,
    pub base_dir: Option<String>,
    pub phase: InstallPhase,
}

pub open spec fn next_phase(
    p: Platform,
    base: Option<Seq<char>>,
    phase: InstallPhase,
    event: InstallEvent,
) -> InstallPhase {
    match (phase, event) {
        (InstallPhase::Probing, InstallEvent::Probed(true)) => InstallPhase::Done(Ok(())),
        (InstallPhase::Probing, InstallEvent::Probed(false)) => {
            if !is_supported(p) {
                InstallPhase::Done(Err(InstallError::UnsupportedPlatform))
            } else if base is None {
                InstallPhase::Done(Err(InstallError::NoRuntimeDirectory))
            } else {
                InstallPhase::CreatingDir
            }
        },
        (InstallPhase::CreatingDir, InstallEvent::DirCreated(Ok(()))) => InstallPhase::Downloading,
        (InstallPhase::CreatingDir, InstallEvent::DirCreated(Err(m))) => InstallPhase::Done(
            Err(InstallError::DirectoryCreateFailed(m)),
        ),
        (InstallPhase::Downloading, InstallEvent::Downloaded(Ok(()))) => InstallPhase::Extracting,
        (InstallPhase::Downloading, InstallEvent::Downloaded(Err(e))) => InstallPhase::Done(Err(e)),
        (InstallPhase::Extracting, InstallEvent::Extracted(Ok(()))) => InstallPhase::RemovingArchive,
        (InstallPhase::Extracting, InstallEvent::Extracted(Err(e))) => InstallPhase::Done(Err(e)),
        (InstallPhase::RemovingArchive, InstallEvent::ArchiveRemoved) => InstallPhase::Verifying,
        (InstallPhase::Verifying, InstallEvent::Verified(false)) => InstallPhase::Done(
            Err(InstallError::VerificationFailed),
        ),
        (InstallPhase::Verifying, InstallEvent::Verified(true)) => {
            if p.os == Os::Windows {
                InstallPhase::Done(Ok(()))
            } else {
                InstallPhase::SettingPermissions
            }
        },
        (InstallPhase::SettingPermissions, InstallEvent::PermissionsSet(Ok(()))) => InstallPhase::Done(
            Ok(()),
        ),
        (InstallPhase::SettingPermissions, InstallEvent::PermissionsSet(Err(m))) => InstallPhase::Done(
            Err(InstallError::WriteError(m)),
        ),
        (phase, _) => phase,
    }
}

/// The transition that resets the shared state for a new download.
pub open spec fn starts_download(old: InstallPhase, new: InstallPhase) -> bool {
    old is CreatingDir && new is Downloading
}

/// The transition that marks the transfer complete.
pub open spec fn completes_download(old: InstallPhase, new: InstallPhase) -> bool {
    old is Downloading && new is Extracting
}

/// The transitions that end an attempt and record its outcome: all but the
/// short-circuit on a runtime that is already there.
pub open spec fn ends_attempt(old: InstallPhase, new: InstallPhase) -> bool {
    !(old is Done) && new is Done && !(old is Probing && new == InstallPhase::Done(Ok(())))
}

pub open spec fn ends_with(s: Seq<char>, suffix: Seq<char>) -> bool {
    s.len() >= suffix.len() && s.subrange(s.len() - suffix.len(), s.len() as int) == suffix
}

pub open spec fn target_url(p: Platform) -> Seq<char> {
    match target_spec(p) {
        Some((url, _)) => url,
        None => Seq::empty(),
    }
}

pub open spec fn target_folder(p: Platform) -> Seq<char> {
    match target_spec(p) {
        Some((_, folder)) => folder,
        None => Seq::empty(),
    }
}

/// Whether `s` ends with `suffix`.
pub fn has_suffix(s: &str, suffix: &str) -> (r: bool)
    ensures
        r == ends_with(s@, suffix@),
{
    let n = s.unicode_len();
    let m = suffix.unicode_len();
    if m > n {
        return false;
    }
    let off = n - m;
    let mut i: usize = 0;
    while i < m
        invariant
            n == s@.len(),
            m == suffix@.len(),
            off == n - m,
            i <= m,
            forall|j: int| 0 <= j < i ==> s@[off + j] == suffix@[j],
        decreases m - i,
    {
        if s.get_char(off + i) != suffix.get_char(i) {
            assert(s@.subrange(off as int, n as int)[i as int] != suffix@[i as int]);
            return false;
        }
        i = i + 1;
    }
    assert(s@.subrange(off as int, n as int) =~= suffix@);
    true
}

fn copy_result(res: &Result<(), InstallError>) -> (r: Result<(), InstallError>)
    ensures
        r == *res,
{
    match res {
        Ok(u) => Ok(*u),
        Err(e) => Err(e.duplicate()),
    }
}

impl InstallAttempt {
    /// Phases between resolving the target and the end need both a supported
    /// platform and a data directory.
    pub open spec fn wf(&self) -> bool {
        match self.phase {
            InstallPhase::Probing | InstallPhase::Done(_) => true,
            _ => is_supported(self.platform) && self.base_dir is Some,
        }
    }

    pub open spec fn root(&self) -> Seq<char> {
        runtime_root_spec(self.base_dir->0@, self.platform)
    }

    /// A new attempt, which starts by probing for an existing install.
    pub fn new(platform: Platform, base_dir: Option<String>) -> (r: Self)
        ensures
            r.wf(),
            r.platform == platform,
            r.base_dir == base_dir,
            r.phase is Probing,
    {
        InstallAttempt { platform, base_dir, phase: InstallPhase::Probing }
    }

    pub fn is_done(&self) -> (r: bool)
        ensures
            r == self.phase is Done,
    {
        matches!(self.phase, InstallPhase::Done(_))
    }

    /// Takes `event` in the current phase. An event that does not answer the
    /// current phase changes nothing.
    pub fn step(&mut self, state: &mut RuntimeState, event: InstallEvent)
        requires
            old(self).wf(),
        ensures
            final(self).wf(),
            final(self).platform == old(self).platform,
            final(self).base_dir == old(self).base_dir,
            final(self).phase == next_phase(
                old(self).platform,
                view_opt(old(self).base_dir),
                old(self).phase,
                event,
            ),
            starts_download(old(self).phase, final(self).phase) ==> {
                &&& final(state).downloading
                &&& final(state).progress == 0
                &&& final(state).error is None
            },
            completes_download(old(self).phase, final(self).phase) ==> {
                &&& final(state).progress == 100
                &&& final(state).downloading == old(state).downloading
                &&& final(state).error == old(state).error
            },
            ends_attempt(old(self).phase, final(self).phase) ==> {
                &&& !final(state).downloading
                &&& final(state).progress == old(state).progress
                &&& view_opt(final(state).error) == match final(self).phase {
                    InstallPhase::Done(Err(e)) => Some(message_spec(e)),
                    _ => view_opt(old(state).error),
                }
            },
            !starts_download(old(self).phase, final(self).phase) && !completes_download(
                old(self).phase,
                final(self).phase,
            ) && !ends_attempt(old(self).phase, final(self).phase) ==> *final(state) == *old(
                state,
            ),
            old(state).wf() ==> final(state).wf(),
    {
        let supported = get_node_url(self.platform).is_some();
        let has_base = self.base_dir.is_some();
        let windows = self.platform.os == Os::Windows;
        let ended: Option<Result<(), InstallError>> = match (&self.phase, event) {
            (InstallPhase::Probing, InstallEvent::Probed(found)) => {
                if found {
                    self.phase = InstallPhase::Done(Ok(()));
                    None
                } else if !supported {
                    Some(Err(InstallError::UnsupportedPlatform))
                } else if !has_base {
                    Some(Err(InstallError::NoRuntimeDirectory))
                } else {
                    self.phase = InstallPhase::CreatingDir;
                    None
                }
            },
            (InstallPhase::CreatingDir, InstallEvent::DirCreated(res)) => match res {
                Ok(()) => {
                    state.begin_attempt();
                    self.phase = InstallPhase::Downloading;
                    None
                },
                Err(m) => Some(Err(InstallError::DirectoryCreateFailed(m))),
            },
            (InstallPhase::Downloading, InstallEvent::Downloaded(res)) => match res {
                Ok(()) => {
                    state.complete_download();
                    self.phase = InstallPhase::Extracting;
                    None
                },
                Err(e) => Some(Err(e)),
            },
            (InstallPhase::Extracting, InstallEvent::Extracted(res)) => match res {
                Ok(()) => {
                    self.phase = InstallPhase::RemovingArchive;
                    None
                },
                Err(e) => Some(Err(e)),
            },
            (InstallPhase::RemovingArchive, InstallEvent::ArchiveRemoved) => {
                self.phase = InstallPhase::Verifying;
                None
            },
            (InstallPhase::Verifying, InstallEvent::Verified(found)) => {
                if !found {
                    Some(Err(InstallError::VerificationFailed))
                } else if windows {
                    Some(Ok(()))
                } else {
                    self.phase = InstallPhase::SettingPermissions;
                    None
                }
            },
            (InstallPhase::SettingPermissions, InstallEvent::PermissionsSet(res)) => match res {
                Ok(()) => Some(Ok(())),
                Err(m) => Some(Err(InstallError::WriteError(m))),
            },
            _ => None,
        };
        if let Some(result) = ended {
            state.end_attempt(&result);
            self.phase = InstallPhase::Done(result);
        }
    }

    /// The action that the current phase asks for.
    pub fn action(&self) -> (r: InstallAction)
        requires
            self.wf(),
        ensures
            match self.phase {
                InstallPhase::Probing => r is Probe,
                InstallPhase::CreatingDir => r is CreateDir && r->CreateDir_0@ == self.root(),
                InstallPhase::Downloading => r is Download && r->url@ == target_url(self.platform)
                    && r->Download_dest@ == temp_archive_spec(self.root(), self.platform),
                InstallPhase::Extracting => if ends_with(target_url(self.platform), ".zip"@) {
                    r is ExtractZip && r->ExtractZip_archive@ == temp_archive_spec(
                        self.root(),
                        self.platform,
                    ) && r->ExtractZip_dest@ == self.root()
                } else {
                    r is ExtractTarGz && r->ExtractTarGz_archive@ == temp_archive_spec(
                        self.root(),
                        self.platform,
                    ) && r->ExtractTarGz_dest@ == self.root()
                },
                InstallPhase::RemovingArchive => r is RemoveArchive && r->RemoveArchive_0@
                    == temp_archive_spec(self.root(), self.platform),
                InstallPhase::Verifying => r is Verify,
                InstallPhase::SettingPermissions => r is MakeExecutable && r->MakeExecutable_0@
                    == binary_dir_spec(self.root(), target_folder(self.platform), self.platform),
                InstallPhase::Done(res) => r == InstallAction::Finish(res),
            },
    {
        match &self.phase {
            InstallPhase::Probing => InstallAction::Probe,
            InstallPhase::CreatingDir => InstallAction::CreateDir(self.root_path()),
            InstallPhase::Downloading => InstallAction::Download {
                url: self.target().download_url,
                dest: temp_archive_path(self.root_path().as_str(), self.platform),
            },
            InstallPhase::Extracting => {
                let root = self.root_path();
                let archive = temp_archive_path(root.as_str(), self.platform);
                if has_suffix(self.target().download_url.as_str(), ".zip") {
                    InstallAction::ExtractZip { archive, dest: root }
                } else {
                    InstallAction::ExtractTarGz { archive, dest: root }
                }
            },
            InstallPhase::RemovingArchive => InstallAction::RemoveArchive(
                temp_archive_path(self.root_path().as_str(), self.platform),
            ),
            InstallPhase::Verifying => InstallAction::Verify,
            InstallPhase::SettingPermissions => InstallAction::MakeExecutable(
                binary_dir(
                    self.root_path().as_str(),
                    self.target().folder_name.as_str(),
                    self.platform,
                ),
            ),
            InstallPhase::Done(res) => InstallAction::Finish(copy_result(res)),
        }
    }

    fn root_path(&self) -> (r: String)
        requires
            self.base_dir is Some,
        ensures
            r@ == self.root(),
    {
        let base = self.base_dir.as_ref().unwrap();
        runtime_root(base.as_str(), self.platform)
    }

    fn target(&self) -> (r: PlatformTarget)
        requires
            is_supported(self.platform),
        ensures
            r.download_url@ == target_url(self.platform),
            r.folder_name@ == target_folder(self.platform),
    {
        get_node_url(self.platform).unwrap()
    }
}

/// An attempt that finds the runtime already installed ends at once with
/// success, and leaves the shared state as it was: no download is made.
pub proof fn lemma_installed_short_circuit(p: Platform, base: Option<Seq<char>>)
    ensures
        next_phase(p, base, InstallPhase::Probing, InstallEvent::Probed(true)) == InstallPhase::Done(
            Ok(()),
        ),
        !starts_download(InstallPhase::Probing, InstallPhase::Done(Ok(()))),
        !completes_download(InstallPhase::Probing, InstallPhase::Done(Ok(()))),
        !ends_attempt(InstallPhase::Probing, InstallPhase::Done(Ok(()))),
{
}

/// An attempt succeeds only on a probe that found both binaries: at the
/// start, after unpacking, or after setting permissions, which is entered
/// only from a verification that found them.
pub proof fn lemma_success_needs_binaries(
    p: Platform,
    base: Option<Seq<char>>,
    phase: InstallPhase,
    event: InstallEvent,
)
    requires
        !(phase is Done),
    ensures
        next_phase(p, base, phase, event) == InstallPhase::Done(Ok(())) ==> {
            ||| phase is Probing && event == InstallEvent::Probed(true)
            ||| phase is Verifying && event == InstallEvent::Verified(true)
            ||| phase is SettingPermissions
        },
        next_phase(p, base, phase, event) is SettingPermissions ==> {
            ||| phase is SettingPermissions
            ||| phase is Verifying && event == InstallEvent::Verified(true)
        },
{
}

/// A failed download ends the attempt with that failure; the shared state
/// then records a non-empty message and is no longer downloading.
pub proof fn lemma_download_failure(p: Platform, base: Option<Seq<char>>, e: InstallError)
    ensures
        next_phase(p, base, InstallPhase::Downloading, InstallEvent::Downloaded(Err(e)))
            == InstallPhase::Done(Err(e)),
        ends_attempt(InstallPhase::Downloading, InstallPhase::Done(Err(e))),
        message_spec(e).len() > 0,
{
    crate::state::lemma_message_nonempty(e);
}

/// Unpacking is always followed by removing the archive, and only then by
/// verification; a verification that misses a binary fails the attempt with
/// `VerificationFailed`.
pub proof fn lemma_verification_failure(
    p: Platform,
    base: Option<Seq<char>>,
    phase: InstallPhase,
    event: InstallEvent,
)
    ensures
        next_phase(p, base, InstallPhase::Extracting, InstallEvent::Extracted(Ok(())))
            is RemovingArchive,
        !(phase is Verifying) && next_phase(p, base, phase, event) is Verifying ==> phase is RemovingArchive,
        next_phase(p, base, InstallPhase::Verifying, InstallEvent::Verified(false))
            == InstallPhase::Done(Err(InstallError::VerificationFailed)),
        ends_attempt(
            InstallPhase::Verifying,
            InstallPhase::Done(Err(InstallError::VerificationFailed)),
        ),
{
}

} // verus!
