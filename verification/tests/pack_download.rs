use llauncher::download::worker::{check_digest, range_header_for, FileDownload, WorkerAction, WorkerEvent, WorkerPhase};
use llauncher::error::AppError;
use llauncher::types::PackFile;

const HELLO_WORLD_MD5: &str = "5eb63bbbe01eeed093cb22bb8f5acdc3";

fn pack(md5: &str, size: &str) -> PackFile {
    PackFile {
        url: "https://cdn.example.com/1.5/pack_07.zip".to_string(),
        md5: md5.to_string(),
        package_size: size.to_string(),
    }
}

fn step(d: &mut FileDownload, e: WorkerEvent) -> Vec<WorkerAction> {
    assert!(d.counters_fit(&e));
    d.step(e)
}

fn chunk(data: &[u8]) -> WorkerEvent {
    WorkerEvent::Chunk { active: true, body: Ok(data.to_vec()) }
}

fn stream(d: &mut FileDownload, parts: &[&[u8]]) -> Vec<WorkerAction> {
    for p in parts {
        let a = step(d, chunk(p));
        assert!(matches!(&a[..], [WorkerAction::WriteChunk(w)] if w.as_slice() == *p));
        let a = step(d, WorkerEvent::ChunkWritten(Ok(())));
        assert!(matches!(&a[..], [WorkerAction::SetProgressBytes(_), WorkerAction::Throttle(n), WorkerAction::NextChunk] if *n == p.len() as u64));
    }
    let a = step(d, WorkerEvent::StreamEnded);
    assert!(matches!(&a[..], [WorkerAction::Flush]));
    step(d, WorkerEvent::Flushed(Ok(())))
}

#[test]
fn a_fresh_download_is_checked_against_its_md5() {
    let (mut d, a) = FileDownload::new(pack(HELLO_WORLD_MD5, "11"), 3, 9, 0, 0);
    assert!(matches!(&a[..], [WorkerAction::SetProgressActive(true), WorkerAction::CreateParentDir]));
    let a = step(&mut d, WorkerEvent::ParentDirReady(Ok(())));
    assert!(matches!(&a[1], WorkerAction::SendRequest { url, range: None } if url.ends_with("pack_07.zip")));
    let a = step(&mut d, WorkerEvent::Response(Ok(200)));
    assert!(matches!(&a[..], [WorkerAction::OpenFile { append: false }]));
    let a = step(&mut d, WorkerEvent::FileOpened(Ok(())));
    assert!(matches!(&a[..], [WorkerAction::NextChunk]));
    let a = stream(&mut d, &[b"hello", b" world"]);
    assert_eq!(a.len(), 4);
    assert!(matches!(a[0], WorkerAction::SetProgressBytes(11)));
    assert!(matches!(&a[1], WorkerAction::EmitFileComplete(c) if c.file_index == 3 && c.total_files == 9 && c.file_name == "pack_07.zip"));
    assert!(matches!(a[2], WorkerAction::SetProgressActive(false)));
    assert!(matches!(a[3], WorkerAction::Finish(Ok(()))));
    assert_eq!(d.phase(), WorkerPhase::Finished);
}

#[test]
fn a_corrupt_download_fails_with_both_digests() {
    let (mut d, _) = FileDownload::new(pack(HELLO_WORLD_MD5, "11"), 0, 1, 0, 0);
    step(&mut d, WorkerEvent::ParentDirReady(Ok(())));
    step(&mut d, WorkerEvent::Response(Ok(200)));
    step(&mut d, WorkerEvent::FileOpened(Ok(())));
    let a = stream(&mut d, &[b"hello"]);
    match &a[..] {
        [WorkerAction::SetProgressActive(false), WorkerAction::Finish(Err(AppError::Md5Mismatch { expected, actual }))] => {
            assert_eq!(expected, HELLO_WORLD_MD5);
            assert_eq!(actual, "5d41402abc4b2a76b9719d911017c592");
        }
        _ => panic!("expected an MD5 mismatch"),
    }
}

#[test]
fn a_valid_file_on_disk_is_kept_without_a_request() {
    let (mut d, a) = FileDownload::new(pack(HELLO_WORLD_MD5, "11"), 0, 1, 0, 11);
    assert!(matches!(&a[..], [WorkerAction::SetProgressActive(true), WorkerAction::SetVerifying(true), WorkerAction::ReadExisting]));
    let a = step(&mut d, WorkerEvent::ExistingBlock { active: true, data: b"hello w".to_vec() });
    assert!(matches!(&a[..], [WorkerAction::SetProgressBytes(7)]));
    step(&mut d, WorkerEvent::ExistingBlock { active: true, data: b"orld".to_vec() });
    let a = step(&mut d, WorkerEvent::ExistingBlock { active: true, data: vec![] });
    assert_eq!(a.len(), 5);
    assert!(matches!(a[0], WorkerAction::SetProgressBytes(11)));
    assert!(matches!(a[1], WorkerAction::SetVerifying(false)));
    assert!(matches!(a[4], WorkerAction::Finish(Ok(()))));
    assert!(a.iter().all(|x| !matches!(x, WorkerAction::SendRequest { .. })));
}

#[test]
fn an_invalid_file_on_disk_is_removed_and_downloaded_again() {
    let (mut d, _) = FileDownload::new(pack(HELLO_WORLD_MD5, "0"), 0, 1, 0, 5);
    step(&mut d, WorkerEvent::ExistingBlock { active: true, data: b"hello".to_vec() });
    let a = step(&mut d, WorkerEvent::ExistingBlock { active: true, data: vec![] });
    assert!(matches!(&a[..], [WorkerAction::RemoveFile, WorkerAction::SetProgressBytes(0), WorkerAction::CreateParentDir]));
    let a = step(&mut d, WorkerEvent::ParentDirReady(Ok(())));
    assert!(matches!(&a[1], WorkerAction::SendRequest { range: None, .. }));
    step(&mut d, WorkerEvent::Response(Ok(200)));
    step(&mut d, WorkerEvent::FileOpened(Ok(())));
    let a = stream(&mut d, &[b"hello world"]);
    assert!(matches!(a.last(), Some(WorkerAction::Finish(Ok(())))));
}

#[test]
fn a_partial_file_is_resumed_on_partial_content() {
    let (mut d, a) = FileDownload::new(pack(HELLO_WORLD_MD5, "11"), 0, 1, 0, 5);
    assert!(matches!(&a[..], [WorkerAction::SetProgressActive(true), WorkerAction::SetVerifying(true), WorkerAction::ReadExisting]));
    assert_eq!(d.phase(), WorkerPhase::HashingPrefix);
    step(&mut d, WorkerEvent::ExistingBlock { active: true, data: b"hello".to_vec() });
    let a = step(&mut d, WorkerEvent::ExistingBlock { active: true, data: vec![] });
    assert!(matches!(&a[..], [WorkerAction::CreateParentDir]));
    let a = step(&mut d, WorkerEvent::ParentDirReady(Ok(())));
    assert!(matches!(&a[0], WorkerAction::SetVerifying(false)));
    assert!(matches!(&a[1], WorkerAction::SendRequest { range: Some(r), .. } if r == "bytes=5-"));
    let a = step(&mut d, WorkerEvent::Response(Ok(206)));
    assert!(matches!(&a[..], [WorkerAction::OpenFile { append: true }]));
    step(&mut d, WorkerEvent::FileOpened(Ok(())));
    let a = step(&mut d, chunk(b" world"));
    assert!(matches!(&a[..], [WorkerAction::WriteChunk(_)]));
    let a = step(&mut d, WorkerEvent::ChunkWritten(Ok(())));
    assert!(matches!(a[0], WorkerAction::SetProgressBytes(11)));
    step(&mut d, WorkerEvent::StreamEnded);
    let a = step(&mut d, WorkerEvent::Flushed(Ok(())));
    assert!(matches!(a.last(), Some(WorkerAction::Finish(Ok(())))));
}

#[test]
fn a_full_answer_to_a_range_request_restarts_the_file() {
    let (mut d, _) = FileDownload::new(pack(HELLO_WORLD_MD5, "11"), 0, 1, 0, 5);
    step(&mut d, WorkerEvent::ExistingBlock { active: true, data: b"HELLO".to_vec() });
    step(&mut d, WorkerEvent::ExistingBlock { active: true, data: vec![] });
    step(&mut d, WorkerEvent::ParentDirReady(Ok(())));
    let a = step(&mut d, WorkerEvent::Response(Ok(200)));
    assert!(matches!(&a[..], [WorkerAction::SetProgressBytes(0), WorkerAction::OpenFile { append: false }]));
    step(&mut d, WorkerEvent::FileOpened(Ok(())));
    let a = stream(&mut d, &[b"hello world"]);
    assert!(matches!(a.last(), Some(WorkerAction::Finish(Ok(())))));
}

#[test]
fn cancellation_and_errors_end_the_download() {
    let (mut d, _) = FileDownload::new(pack(HELLO_WORLD_MD5, "11"), 0, 1, 0, 0);
    step(&mut d, WorkerEvent::ParentDirReady(Ok(())));
    step(&mut d, WorkerEvent::Response(Ok(200)));
    step(&mut d, WorkerEvent::FileOpened(Ok(())));
    let a = step(&mut d, WorkerEvent::Chunk { active: false, body: Ok(b"x".to_vec()) });
    assert!(matches!(&a[..], [WorkerAction::SetProgressActive(false), WorkerAction::Finish(Err(AppError::Cancelled))]));

    let (mut d, _) = FileDownload::new(pack(HELLO_WORLD_MD5, "11"), 0, 1, 0, 5);
    let a = step(&mut d, WorkerEvent::ExistingBlock { active: false, data: vec![] });
    assert!(matches!(&a[..], [_, WorkerAction::Finish(Err(AppError::Cancelled))]));

    let (mut d, _) = FileDownload::new(pack(HELLO_WORLD_MD5, "11"), 0, 1, 0, 20);
    let a = step(&mut d, WorkerEvent::TaskPanicked("join".into()));
    assert!(matches!(&a[1], WorkerAction::Finish(Err(AppError::Api(m))) if m == "verify task panicked: join"));

    let (mut d, _) = FileDownload::new(pack(HELLO_WORLD_MD5, "11"), 0, 1, 0, 5);
    let a = step(&mut d, WorkerEvent::TaskPanicked("join".into()));
    assert!(matches!(&a[1], WorkerAction::Finish(Err(AppError::Api(m))) if m == "resume hash task panicked: join"));

    let (mut d, _) = FileDownload::new(pack(HELLO_WORLD_MD5, "11"), 0, 1, 0, 0);
    step(&mut d, WorkerEvent::ParentDirReady(Ok(())));
    let a = step(&mut d, WorkerEvent::Response(Err(AppError::Http("404 Not Found".into()))));
    assert!(matches!(&a[..], [WorkerAction::SetProgressActive(false), WorkerAction::Finish(Err(AppError::Http(_)))]));
}

#[test]
fn range_headers() {
    assert_eq!(range_header_for(1), "bytes=1-");
    assert_eq!(range_header_for(1073741824), "bytes=1073741824-");
}

#[test]
fn digests_are_compared_in_lower_case_hex() {
    let digest: [u8; 16] = [
        0x5e, 0xb6, 0x3b, 0xbb, 0xe0, 0x1e, 0xee, 0xd0, 0x93, 0xcb, 0x22, 0xbb, 0x8f, 0x5a, 0xcd,
        0xc3,
    ];
    let (hex, ok) = check_digest(&digest, HELLO_WORLD_MD5);
    assert_eq!(hex, HELLO_WORLD_MD5);
    assert!(ok);
    let (_, upper_ok) = check_digest(&digest, "5EB63BBBE01EEED093CB22BB8F5ACDC3");
    assert!(!upper_ok);
    let (hex, ok) = check_digest(&[0x00, 0x0f, 0xa0], "000fa1");
    assert_eq!(hex, "000fa0");
    assert!(!ok);
}
