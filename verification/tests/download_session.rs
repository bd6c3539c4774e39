use llauncher::download::manager::{
    per_worker_speed_limit, total_known_size, total_pack_size, DownloadSession, LatestVersion,
    SessionAction, SessionEvent, SessionPhase, WorkerOutcome,
};
use llauncher::error::AppError;
use llauncher::types::PackFile;

fn pack(name: &str, size: &str) -> PackFile {
    PackFile {
        url: format!("https://cdn.example.com/1.5/{}", name),
        md5: "00000000000000000000000000000000".to_string(),
        package_size: size.to_string(),
    }
}

fn latest(version: &str, packs: Vec<PackFile>) -> SessionEvent {
    SessionEvent::VersionFetched(Ok(LatestVersion { version: version.to_string(), packs }))
}

fn step(s: &mut DownloadSession, e: SessionEvent) -> Vec<SessionAction> {
    assert!(s.sums_fit(&e));
    s.step(e)
}

#[test]
fn a_session_starts_by_raising_the_flag_and_fetching() {
    let (s, a) = DownloadSession::new("/g/_download".into(), "1.4".into(), 0, 4);
    assert_eq!(s.phase(), SessionPhase::AwaitVersion { retried: false });
    assert_eq!(a.len(), 2);
    assert!(matches!(a[0], SessionAction::SetActive(true)));
    assert!(matches!(&a[1], SessionAction::FetchVersion(v) if v == "1.4"));
}

#[test]
fn a_full_download_runs_to_completion() {
    let (mut s, _) = DownloadSession::new("/g/_download".into(), "".into(), 0, 2);
    let a = step(&mut s, latest("1.5", vec![pack("a.zip", "100"), pack("b.zip", "50")]));
    assert!(matches!(&a[..], [SessionAction::StatExistingParts(n)] if n == &vec!["a.zip".to_string(), "b.zip".to_string()]));
    let a = step(&mut s, SessionEvent::ExistingSizes(vec![Some(30), None]));
    assert!(matches!(&a[..], [SessionAction::CreateDownloadDir]));
    let a = step(&mut s, SessionEvent::DownloadDirCreated(Ok(())));
    assert_eq!(a.len(), 2);
    assert!(matches!(&a[0], SessionAction::EmitResuming(r) if r.bytes_existing == 30 && r.bytes_total == 150));
    assert!(matches!(a[1], SessionAction::QueryFreeSpace));
    // 120 bytes are still needed; exactly that much is enough.
    let a = step(&mut s, SessionEvent::FreeSpace(Some(120)));
    assert!(matches!(&a[..], [SessionAction::CheckActive]));
    let a = step(&mut s, SessionEvent::ActiveFlag(true));
    assert!(matches!(&a[..], [SessionAction::AcquirePermit]));
    let a = step(&mut s, SessionEvent::PermitAcquired(true));
    assert!(matches!(&a[0], SessionAction::SpawnWorker(j) if j.index == 0 && j.file_name == "a.zip" && j.total_files == 2 && j.speed_limit == 0));
    assert!(matches!(a[1], SessionAction::CheckActive));
    step(&mut s, SessionEvent::ActiveFlag(true));
    let a = step(&mut s, SessionEvent::PermitAcquired(true));
    assert!(matches!(&a[0], SessionAction::SpawnWorker(j) if j.index == 1 && j.file_name == "b.zip"));
    assert!(matches!(a[1], SessionAction::JoinWorker(0)));
    let a = step(&mut s, SessionEvent::WorkerJoined(WorkerOutcome::Done));
    assert!(matches!(&a[..], [SessionAction::JoinWorker(1)]));
    let a = step(&mut s, SessionEvent::WorkerJoined(WorkerOutcome::Done));
    assert!(matches!(&a[..], [SessionAction::CheckActive]));
    let a = step(&mut s, SessionEvent::ActiveFlag(true));
    assert!(matches!(a[0], SessionAction::WriteExtractionMarker));
    assert!(matches!(&a[1], SessionAction::Extract { parts, total_size: 150 } if parts.len() == 2));
    let a = step(&mut s, SessionEvent::ExtractionFinished(Ok(())));
    assert_eq!(a.len(), 5);
    assert!(matches!(a[0], SessionAction::RemoveExtractionMarker));
    assert!(matches!(&a[1], SessionAction::RemoveParts(p) if p.len() == 2));
    assert!(matches!(a[2], SessionAction::SetActive(false)));
    assert!(matches!(&a[3], SessionAction::EmitComplete(c) if c.version == "1.5"));
    assert!(matches!(&a[4], SessionAction::Finish(Ok(v)) if v == "1.5"));
    assert!(s.is_finished());
    // A finished session ignores everything.
    assert!(step(&mut s, SessionEvent::ActiveFlag(true)).is_empty());
}

#[test]
fn an_empty_list_for_the_installed_version_asks_once_for_the_full_list() {
    let (mut s, _) = DownloadSession::new("/d".into(), "1.4".into(), 0, 1);
    let a = step(&mut s, latest("1.4", vec![]));
    assert!(matches!(&a[..], [SessionAction::FetchVersion(v)] if v.is_empty()));
    assert_eq!(s.phase(), SessionPhase::AwaitVersion { retried: true });
    let a = step(&mut s, latest("1.4", vec![]));
    assert_eq!(a.len(), 3);
    assert!(matches!(a[0], SessionAction::SetActive(false)));
    assert!(matches!(&a[1], SessionAction::EmitError(e) if e.message == "No download packages available from server"));
    assert!(matches!(&a[2], SessionAction::Finish(Err(AppError::Api(m))) if m == "No download packages available from server"));
}

#[test]
fn an_empty_list_without_an_installed_version_fails_at_once() {
    let (mut s, _) = DownloadSession::new("/d".into(), "".into(), 0, 1);
    let a = step(&mut s, latest("1.5", vec![]));
    assert!(matches!(&a[..], [SessionAction::SetActive(false), SessionAction::EmitError(_), SessionAction::Finish(Err(_))]));
}

#[test]
fn a_failed_version_request_ends_the_session() {
    let (mut s, _) = DownloadSession::new("/d".into(), "".into(), 0, 1);
    let a = step(&mut s, SessionEvent::VersionFetched(Err(AppError::Http("timeout".into()))));
    assert!(matches!(&a[..], [SessionAction::Finish(Err(AppError::Http(m)))] if m == "timeout"));
}

fn to_free_space(s: &mut DownloadSession) {
    step(s, latest("2.0", vec![pack("a.zip", "3145728"), pack("b.zip", "x")]));
    step(s, SessionEvent::ExistingSizes(vec![None, None]));
    step(s, SessionEvent::DownloadDirCreated(Ok(())));
}

#[test]
fn too_little_disk_space_is_refused_early() {
    let (mut s, _) = DownloadSession::new("/g/_download".into(), "".into(), 0, 1);
    to_free_space(&mut s);
    let a = step(&mut s, SessionEvent::FreeSpace(Some(1048576 * 2)));
    assert_eq!(a.len(), 3);
    assert!(matches!(a[0], SessionAction::SetActive(false)));
    assert!(matches!(&a[1], SessionAction::EmitErrorOf(AppError::DiskSpace { .. })));
    match &a[2] {
        SessionAction::Finish(Err(AppError::DiskSpace { path, needed_mib, available_mib })) => {
            assert_eq!(path, "/g/_download");
            assert_eq!(*needed_mib, 3);
            assert_eq!(*available_mib, 2);
        }
        other => panic!("unexpected {:?}", matches!(other, SessionAction::Finish(_))),
    }
}

#[test]
fn unknown_free_space_does_not_block() {
    let (mut s, _) = DownloadSession::new("/g".into(), "".into(), 0, 1);
    to_free_space(&mut s);
    let a = step(&mut s, SessionEvent::FreeSpace(None));
    assert!(matches!(&a[..], [SessionAction::CheckActive]));
}

#[test]
fn cancellation_before_the_first_worker_skips_extraction() {
    let (mut s, _) = DownloadSession::new("/g".into(), "".into(), 0, 1);
    to_free_space(&mut s);
    step(&mut s, SessionEvent::FreeSpace(None));
    let a = step(&mut s, SessionEvent::ActiveFlag(false));
    assert!(matches!(&a[..], [SessionAction::CheckActive]));
    let a = step(&mut s, SessionEvent::ActiveFlag(false));
    assert!(matches!(&a[..], [SessionAction::EmitErrorOf(AppError::Cancelled), SessionAction::Finish(Err(AppError::Cancelled))]));
}

#[test]
fn cancellation_after_the_workers_skips_extraction() {
    let (mut s, _) = DownloadSession::new("/g".into(), "".into(), 0, 1);
    to_free_space(&mut s);
    step(&mut s, SessionEvent::FreeSpace(None));
    step(&mut s, SessionEvent::ActiveFlag(true));
    step(&mut s, SessionEvent::PermitAcquired(true));
    let a = step(&mut s, SessionEvent::ActiveFlag(false));
    assert!(matches!(&a[..], [SessionAction::JoinWorker(0)]));
    step(&mut s, SessionEvent::WorkerJoined(WorkerOutcome::Done));
    let a = step(&mut s, SessionEvent::ActiveFlag(false));
    assert!(a.iter().all(|x| !matches!(x, SessionAction::Extract { .. })));
    assert!(matches!(a.last(), Some(SessionAction::Finish(Err(AppError::Cancelled)))));
}

#[test]
fn a_closed_worker_slot_is_a_cancellation() {
    let (mut s, _) = DownloadSession::new("/g".into(), "".into(), 0, 1);
    to_free_space(&mut s);
    step(&mut s, SessionEvent::FreeSpace(None));
    step(&mut s, SessionEvent::ActiveFlag(true));
    let a = step(&mut s, SessionEvent::PermitAcquired(false));
    assert!(matches!(&a[..], [SessionAction::Finish(Err(AppError::Cancelled))]));
}

#[test]
fn a_failed_worker_fails_the_session() {
    let (mut s, _) = DownloadSession::new("/g".into(), "".into(), 0, 1);
    to_free_space(&mut s);
    step(&mut s, SessionEvent::FreeSpace(None));
    step(&mut s, SessionEvent::ActiveFlag(true));
    step(&mut s, SessionEvent::PermitAcquired(true));
    step(&mut s, SessionEvent::ActiveFlag(true));
    step(&mut s, SessionEvent::PermitAcquired(true));
    let e = AppError::Md5Mismatch { expected: "a".into(), actual: "b".into() };
    let a = step(&mut s, SessionEvent::WorkerJoined(WorkerOutcome::Failed(e)));
    assert!(matches!(&a[..], [SessionAction::SetActive(false), SessionAction::EmitErrorOf(AppError::Md5Mismatch { .. }), SessionAction::Finish(Err(AppError::Md5Mismatch { .. }))]));
}

#[test]
fn a_panicked_worker_reports_the_task_failure() {
    let (mut s, _) = DownloadSession::new("/g".into(), "".into(), 0, 1);
    to_free_space(&mut s);
    step(&mut s, SessionEvent::FreeSpace(None));
    step(&mut s, SessionEvent::ActiveFlag(true));
    step(&mut s, SessionEvent::PermitAcquired(true));
    step(&mut s, SessionEvent::ActiveFlag(false));
    let a = step(&mut s, SessionEvent::WorkerJoined(WorkerOutcome::Panicked("boom".into())));
    assert!(matches!(&a[1], SessionAction::EmitError(e) if e.message == "Download task failed: boom"));
    assert!(matches!(&a[2], SessionAction::Finish(Err(AppError::Api(m))) if m == "Download task failed: boom"));
}

#[test]
fn failed_extraction_and_failed_directory() {
    let (mut s, _) = DownloadSession::new("/g".into(), "".into(), 0, 1);
    to_free_space(&mut s);
    step(&mut s, SessionEvent::FreeSpace(None));
    step(&mut s, SessionEvent::ActiveFlag(false));
    step(&mut s, SessionEvent::ActiveFlag(true));
    let a = step(&mut s, SessionEvent::ExtractionPanicked("oops".into()));
    assert!(matches!(&a[2], SessionAction::Finish(Err(AppError::Api(m))) if m == "Extraction task failed: oops"));

    let (mut s, _) = DownloadSession::new("/g".into(), "".into(), 0, 1);
    step(&mut s, latest("2.0", vec![pack("a.zip", "1")]));
    step(&mut s, SessionEvent::ExistingSizes(vec![None]));
    let a = step(&mut s, SessionEvent::DownloadDirCreated(Err(AppError::Io("denied".into()))));
    assert!(matches!(&a[..], [SessionAction::Finish(Err(AppError::Io(_)))]));
}

#[test]
fn sums_and_speed_limits() {
    assert_eq!(total_pack_size(&vec![pack("a", "1"), pack("b", "oops"), pack("c", "41")]), Some(42));
    assert_eq!(total_pack_size(&vec![pack("a", "18446744073709551615"), pack("b", "1")]), None);
    assert_eq!(total_known_size(&vec![Some(1), None, Some(2)]), Some(3));
    assert_eq!(total_known_size(&vec![Some(u64::MAX), Some(1)]), None);
    assert_eq!(per_worker_speed_limit(0, 4), 0);
    assert_eq!(per_worker_speed_limit(4_000_000, 4), 1_000_000);
    assert_eq!(per_worker_speed_limit(2000, 4), 1024);
    let (s, _) = DownloadSession::new("/g".into(), "".into(), 0, 1);
    let big = latest("x", vec![pack("a", "18446744073709551615"), pack("b", "1")]);
    assert!(!s.sums_fit(&big));
}
