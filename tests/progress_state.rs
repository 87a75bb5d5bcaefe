use simplestclaw::progress::{percent, DownloadProgress};
use simplestclaw::state::{installed_from, status_from, InstallError, RuntimeState};

#[test]
fn percent_values() {
    assert_eq!(percent(50, 100), 50);
    assert_eq!(percent(1, 3), 33);
    assert_eq!(percent(0, 10), 0);
    assert_eq!(percent(10, 10), 100);
    assert_eq!(percent(20, 10), 100);
    assert_eq!(percent(0, 0), 100);
    assert_eq!(percent(u64::MAX - 1, u64::MAX), 99);
}

#[test]
fn progress_is_monotone_and_bounded() {
    let mut p = DownloadProgress::new(Some(1000));
    assert_eq!(p.percent, 0);
    let mut last = p.percent;
    for len in [0u64, 10, 90, 400, 1, 499, 300] {
        p.record_chunk(len);
        assert!(p.percent >= last);
        assert!(p.percent <= 100);
        last = p.percent;
    }
    assert_eq!(p.bytes_downloaded, 1300);
    assert_eq!(p.percent, 100);
}

#[test]
fn progress_without_length() {
    let mut p = DownloadProgress::new(None);
    p.record_chunk(500);
    assert_eq!(p.percent, 0);
    assert_eq!(p.bytes_downloaded, 500);
    p.finish();
    assert_eq!(p.percent, 100);
    assert_eq!(p.status, "extracting");
}

#[test]
fn byte_count_saturates() {
    let mut p = DownloadProgress::new(Some(10));
    p.record_chunk(u64::MAX);
    p.record_chunk(5);
    assert_eq!(p.bytes_downloaded, u64::MAX);
    assert_eq!(p.percent, 100);
}

#[test]
fn state_reports_only_known_lengths() {
    let mut s = RuntimeState::default();
    s.begin_attempt();
    let mut known = DownloadProgress::new(Some(200));
    known.record_chunk(50);
    s.report_progress(&known);
    assert_eq!(s.progress, 25);
    let mut unknown = DownloadProgress::new(None);
    unknown.record_chunk(50);
    s.report_progress(&unknown);
    assert_eq!(s.progress, 25);
    s.complete_download();
    assert_eq!(s.progress, 100);
}

#[test]
fn attempt_lifecycle_in_state() {
    let mut s = RuntimeState::default();
    assert!(!s.downloading);
    s.begin_attempt();
    assert!(s.downloading);
    assert_eq!(s.progress, 0);
    s.end_attempt(&Err(InstallError::NetworkError("timed out".to_string())));
    assert!(!s.downloading);
    assert_eq!(s.error.as_deref(), Some("Download failed: timed out"));
    s.begin_attempt();
    assert!(s.error.is_none());
    s.end_attempt(&Ok(()));
    assert!(!s.downloading);
    assert!(s.error.is_none());
}

#[test]
fn error_messages() {
    let d = || "x".to_string();
    let cases = [
        (InstallError::UnsupportedPlatform, "Unsupported platform"),
        (InstallError::NoRuntimeDirectory, "Could not determine runtime directory"),
        (InstallError::DirectoryCreateFailed(d()), "Failed to create runtime directory: x"),
        (InstallError::NetworkError(d()), "Download failed: x"),
        (InstallError::WriteError(d()), "Write error: x"),
        (InstallError::ExtractionError(d()), "Failed to extract: x"),
        (InstallError::VerificationFailed, "Installation verification failed"),
        (InstallError::SchedulingError(d()), "Task error: x"),
    ];
    for (e, m) in cases {
        assert_eq!(e.message(), m);
    }
}

#[test]
fn status_depends_on_probes_only() {
    let mut s = RuntimeState::default();
    s.begin_attempt();
    s.end_attempt(&Ok(()));
    let r = status_from(Some("/n".to_string()), Some("/x".to_string()), &s);
    assert!(r.installed);
    assert_eq!(r.version.as_deref(), Some("22.13.1"));
    assert_eq!(r.node_path.as_deref(), Some("/n"));
    assert_eq!(r.npx_path.as_deref(), Some("/x"));
    let gone = status_from(None, Some("/x".to_string()), &s);
    assert!(!gone.installed);
    assert!(gone.version.is_none());
    assert_eq!(gone.npx_path.as_deref(), Some("/x"));
}

#[test]
fn status_carries_state() {
    let mut s = RuntimeState::default();
    s.begin_attempt();
    let mut p = DownloadProgress::new(Some(4));
    p.record_chunk(3);
    s.report_progress(&p);
    let r = status_from(None, None, &s);
    assert!(r.downloading);
    assert_eq!(r.download_progress, 75);
    assert!(r.error.is_none());
    assert!(!r.installed);
}

#[test]
fn installed_needs_both_binaries() {
    let some = || Some("/p".to_string());
    assert!(installed_from(&some(), &some()));
    assert!(!installed_from(&some(), &None));
    assert!(!installed_from(&None, &some()));
    assert!(!installed_from(&None, &None));
}
