//! The download of one pack file, as a state machine. The caller performs each
//! action (file system, HTTP, progress counters, frontend events) and hands
//! back what came of it as an event.
//!
//! A complete file already on disk is checked against the pack's MD5 and kept
//! when it matches. A partial file is hashed and the download resumes after it
//! when the server answers a range request with 206 Partial Content; otherwise
//! the file is downloaded from the start. The file is accepted only when the
//! MD5 of all its bytes equals the pack's.

use crate::error::{AppError, AppErrorView};
use crate::hashing::{md5_input, md5_new, md5_of, md5_update, Md5Hasher};
use crate::text::{
    decimal, hex_lower, last_segment, parse_size, push_decimal, same_text, size_or_zero,
    to_hex_lower, url_file_name,
};
use crate::types::{DownloadFileComplete, PackFile, PackFileView};
use vstd::prelude::*;
use vstd::string::StringExecFns;

verus! {

/// The HTTP status of a partial answer to a range request.
pub const PARTIAL_CONTENT: u16 = 206;

/// Where a pack download stands: what it waits for next.
#[derive(PartialEq, Eq, Structural, Clone, Copy, Debug)]
pub enum WorkerPhase {
    /// Reading a complete file on disk to check its MD5.
    VerifyingExisting,
    /// Reading a partial file on disk to hash it before resuming.
    HashingPrefix,
    /// Waiting for the destination's parent directory.
    AwaitParentDir,
    /// Waiting for the HTTP answer.
    AwaitResponse,
    /// Waiting for the destination file to be opened.
    AwaitFile,
    /// Waiting for the next chunk of the body.
    Streaming,
    /// Waiting for a chunk to be written.
    AwaitWrite,
    /// Waiting for the written data to be flushed.
    AwaitFlush,
    /// The download has ended.
    Finished,
}

/// What the caller reports back to a pack download.
pub enum WorkerEvent {
    /// The next block read from the file on disk (after `ReadExisting`), and
    /// whether the download was still active; an empty block is the end of the
    /// file.
    ExistingBlock { active: bool, data: Vec<u8> },
    /// Reading the file on disk failed.
    ReadFailed(AppError),
    /// The task reading the file on disk failed itself; the text says how.
    TaskPanicked(String),
    /// The result of `CreateParentDir`.
    ParentDirReady(Result<(), AppError>),
    /// The HTTP status of the answer to `SendRequest`, or why there is none
    /// (a status of 400 or more counts as an error).
    Response(Result<u16, AppError>),
    /// The result of `OpenFile`.
    FileOpened(Result<(), AppError>),
    /// The next chunk of the body (after `NextChunk`), and whether the download
    /// was still active.
    Chunk { active: bool, body: Result<Vec<u8>, AppError> },
    /// The result of `WriteChunk`.
    ChunkWritten(Result<(), AppError>),
    /// The body has no more chunks.
    StreamEnded,
    /// The result of `Flush`.
    Flushed(Result<(), AppError>),
}

/// What a pack download asks the caller to do, in order.
pub enum WorkerAction {
    /// Mark this file's progress as active or not.
    SetProgressActive(bool),
    /// Mark this file's progress as checking data on disk or not.
    SetVerifying(bool),
    /// Set this file's progress to this many bytes.
    SetProgressBytes(u64),
    /// Read the destination file block by block from its start.
    ReadExisting,
    /// Delete the destination file.
    RemoveFile,
    /// Create the destination's parent directory.
    CreateParentDir,
    /// Send a GET request for the pack's URL, with this `Range` header if any.
    SendRequest { url: String, range: Option<String> },
    /// Open the destination file, appending to it or truncating it.
    OpenFile { append: bool },
    /// Read the next chunk of the body.
    NextChunk,
    /// Write this chunk at the end of the destination file.
    WriteChunk(Vec<u8>),
    /// Keep to the speed limit after a chunk of this many bytes.
    Throttle(u64),
    /// Flush the destination file.
    Flush,
    /// Tell the frontend that this file is complete.
    EmitFileComplete(DownloadFileComplete),
    /// The download ends with this result.
    Finish(Result<(), AppError>),
}

// ---------------------------------------------------------------------------
// Views
// ---------------------------------------------------------------------------

/// A pack download as values. `hashed` is what the MD5 hasher has been fed;
/// `file` is what the destination file holds as far as this download knows it
/// (what it read of it, then what it wrote to it).
#[verifier::ext_equal]
pub struct WorkerView {
    pub url: Seq<char>,
    pub md5: Seq<char>,
    pub file_index: usize,
    pub total_files: usize,
    pub file_name: Seq<char>,
    pub expected: u64,
    pub existing: u64,
    pub speed_limit: u64,
    pub phase: WorkerPhase,
    pub resume_from: u64,
    pub verified: u64,
    pub current: u64,
    pub pending: u64,
    pub hashed: Seq<u8>,
    pub file: Seq<u8>,
}

pub enum WorkerEventView {
    ExistingBlock { active: bool, data: Seq<u8> },
    ReadFailed(AppErrorView),
    TaskPanicked(Seq<char>),
    ParentDirReady(Result<(), AppErrorView>),
    Response(Result<u16, AppErrorView>),
    FileOpened(Result<(), AppErrorView>),
    Chunk { active: bool, body: Result<Seq<u8>, AppErrorView> },
    ChunkWritten(Result<(), AppErrorView>),
    StreamEnded,
    Flushed(Result<(), AppErrorView>),
}

pub enum WorkerActionView {
    SetProgressActive(bool),
    SetVerifying(bool),
    SetProgressBytes(u64),
    ReadExisting,
    RemoveFile,
    CreateParentDir,
    SendRequest { url: Seq<char>, range: Option<Seq<char>> },
    OpenFile { append: bool },
    NextChunk,
    WriteChunk(Seq<u8>),
    Throttle(u64),
    Flush,
    EmitFileComplete { file_index: usize, total_files: usize, file_name: Seq<char> },
    Finish(Result<(), AppErrorView>),
}

/// The view of a unit result.
pub open spec fn unit_result_view(r: Result<(), AppError>) -> Result<(), AppErrorView> {
    match r {
        Ok(_) => Ok(()),
        Err(e) => Err(e@),
    }
}

impl View for WorkerEvent {
    type V = WorkerEventView;

    open spec fn view(&self) -> WorkerEventView {
        match self {
            WorkerEvent::ExistingBlock { active, data } => WorkerEventView::ExistingBlock {
                active: *active,
                data: data@,
            },
            WorkerEvent::ReadFailed(e) => WorkerEventView::ReadFailed(e@),
            WorkerEvent::TaskPanicked(t) => WorkerEventView::TaskPanicked(t@),
            WorkerEvent::ParentDirReady(r) => WorkerEventView::ParentDirReady(unit_result_view(*r)),
            WorkerEvent::Response(r) => WorkerEventView::Response(
                match r {
                    Ok(s) => Ok(*s),
                    Err(e) => Err(e@),
                },
            ),
            WorkerEvent::FileOpened(r) => WorkerEventView::FileOpened(unit_result_view(*r)),
            WorkerEvent::Chunk { active, body } => WorkerEventView::Chunk {
                active: *active,
                body: match body {
                    Ok(d) => Ok(d@),
                    Err(e) => Err(e@),
                },
            },
            WorkerEvent::ChunkWritten(r) => WorkerEventView::ChunkWritten(unit_result_view(*r)),
            WorkerEvent::StreamEnded => WorkerEventView::StreamEnded,
            WorkerEvent::Flushed(r) => WorkerEventView::Flushed(unit_result_view(*r)),
        }
    }
}

impl View for WorkerAction {
    type V = WorkerActionView;

    open spec fn view(&self) -> WorkerActionView {
        match self {
            WorkerAction::SetProgressActive(b) => WorkerActionView::SetProgressActive(*b),
            WorkerAction::SetVerifying(b) => WorkerActionView::SetVerifying(*b),
            WorkerAction::SetProgressBytes(n) => WorkerActionView::SetProgressBytes(*n),
            WorkerAction::ReadExisting => WorkerActionView::ReadExisting,
            WorkerAction::RemoveFile => WorkerActionView::RemoveFile,
            WorkerAction::CreateParentDir => WorkerActionView::CreateParentDir,
            WorkerAction::SendRequest { url, range } => WorkerActionView::SendRequest {
                url: url@,
                range: match range {
                    Some(r) => Some(r@),
                    None => None,
                },
            },
            WorkerAction::OpenFile { append } => WorkerActionView::OpenFile { append: *append },
            WorkerAction::NextChunk => WorkerActionView::NextChunk,
            WorkerAction::WriteChunk(d) => WorkerActionView::WriteChunk(d@),
            WorkerAction::Throttle(n) => WorkerActionView::Throttle(*n),
            WorkerAction::Flush => WorkerActionView::Flush,
            WorkerAction::EmitFileComplete(c) => WorkerActionView::EmitFileComplete {
                file_index: c.file_index,
                total_files: c.total_files,
                file_name: c.file_name@,
            },
            WorkerAction::Finish(r) => WorkerActionView::Finish(unit_result_view(*r)),
        }
    }
}

/// The views of a list of actions.
pub open spec fn worker_actions_view(v: Seq<WorkerAction>) -> Seq<WorkerActionView> {
    v.map_values(|a: WorkerAction| a@)
}

// ---------------------------------------------------------------------------
// The rules of a pack download
// ---------------------------------------------------------------------------

/// The `Range` header that asks for the bytes from offset `n` on.
pub open spec fn range_header(n: u64) -> Seq<char> {
    "bytes="@ + decimal(n as nat) + "-"@
}

/// A file of this size on disk is complete enough to be checked as it is:
/// the pack's size is unknown (zero) or reached.
pub open spec fn checks_existing(existing: u64, expected: u64) -> bool {
    existing > 0 && (expected == 0 || existing >= expected)
}

/// A file of this size on disk is a part to resume after.
pub open spec fn resumes_existing(existing: u64, expected: u64) -> bool {
    existing > 0 && existing < expected
}

/// The digest that the download computes of `data`: its MD5 in lower-case hex.
pub open spec fn md5_hex(data: Seq<u8>) -> Seq<char> {
    hex_lower(md5_of(data))
}

/// The event that tells the frontend this file is complete.
pub open spec fn file_complete(w: WorkerView) -> WorkerActionView {
    WorkerActionView::EmitFileComplete {
        file_index: w.file_index,
        total_files: w.total_files,
        file_name: w.file_name,
    }
}

/// The actions that end a download with an error.
pub open spec fn worker_fail(e: AppErrorView) -> Seq<WorkerActionView> {
    seq![WorkerActionView::SetProgressActive(false), WorkerActionView::Finish(Err(e))]
}

/// The actions that end a download whose file is complete and checked.
pub open spec fn worker_success(w: WorkerView) -> Seq<WorkerActionView> {
    seq![
        WorkerActionView::SetProgressBytes(w.expected),
        WorkerActionView::SetVerifying(false),
        file_complete(w),
        WorkerActionView::SetProgressActive(false),
        WorkerActionView::Finish(Ok(())),
    ]
}

/// The actions that end a download after its body was written and flushed.
pub open spec fn worker_after_body(w: WorkerView) -> Seq<WorkerActionView> {
    seq![
        WorkerActionView::SetProgressBytes(w.expected),
        file_complete(w),
        WorkerActionView::SetProgressActive(false),
        WorkerActionView::Finish(Ok(())),
    ]
}

/// A download state with another phase.
pub open spec fn wphase(w: WorkerView, p: WorkerPhase) -> WorkerView {
    WorkerView { phase: p, ..w }
}

/// The first state of a download and its first actions.
pub open spec fn worker_start(
    pack: PackFileView,
    file_index: usize,
    total_files: usize,
    speed_limit: u64,
    existing: u64,
) -> (WorkerView, Seq<WorkerActionView>) {
    let expected = size_or_zero(pack.package_size);
    let w = WorkerView {
        url: pack.url,
        md5: pack.md5,
        file_index,
        total_files,
        file_name: last_segment(pack.url),
        expected,
        existing,
        speed_limit,
        phase: WorkerPhase::AwaitParentDir,
        resume_from: 0,
        verified: 0,
        current: 0,
        pending: 0,
        hashed: Seq::empty(),
        file: Seq::empty(),
    };
    if checks_existing(existing, expected) {
        (
            wphase(w, WorkerPhase::VerifyingExisting),
            seq![
                WorkerActionView::SetProgressActive(true),
                WorkerActionView::SetVerifying(true),
                WorkerActionView::ReadExisting,
            ],
        )
    } else if resumes_existing(existing, expected) {
        (
            wphase(w, WorkerPhase::HashingPrefix),
            seq![
                WorkerActionView::SetProgressActive(true),
                WorkerActionView::SetVerifying(true),
                WorkerActionView::ReadExisting,
            ],
        )
    } else {
        (w, seq![WorkerActionView::SetProgressActive(true), WorkerActionView::CreateParentDir])
    }
}

/// The request that the download sends.
pub open spec fn request_of(w: WorkerView) -> WorkerActionView {
    WorkerActionView::SendRequest {
        url: w.url,
        range: if w.resume_from > 0 {
            Some(range_header(w.resume_from))
        } else {
            None
        },
    }
}

/// How a pack download answers one event: its next state and what it asks
/// for, in order. An event that the current phase does not wait for changes
/// nothing.
pub open spec fn worker_next(w: WorkerView, e: WorkerEventView) -> (
    WorkerView,
    Seq<WorkerActionView>,
) {
    match (w.phase, e) {
        (WorkerPhase::VerifyingExisting, WorkerEventView::ExistingBlock { active, data }) => {
            if data.len() == 0 {
                if md5_hex(w.hashed) == w.md5 {
                    (wphase(w, WorkerPhase::Finished), worker_success(w))
                } else {
                    (
                        WorkerView {
                            phase: WorkerPhase::AwaitParentDir,
                            hashed: Seq::empty(),
                            file: Seq::empty(),
                            ..w
                        },
                        seq![
                            WorkerActionView::RemoveFile,
                            WorkerActionView::SetProgressBytes(0),
                            WorkerActionView::CreateParentDir,
                        ],
                    )
                }
            } else if !active {
                (wphase(w, WorkerPhase::Finished), worker_fail(AppErrorView::Cancelled))
            } else {
                let v = (w.verified + data.len()) as u64;
                (
                    WorkerView { verified: v, hashed: w.hashed + data, file: w.file + data, ..w },
                    seq![WorkerActionView::SetProgressBytes(v)],
                )
            }
        },
        (WorkerPhase::HashingPrefix, WorkerEventView::ExistingBlock { active, data }) => {
            if !active {
                (wphase(w, WorkerPhase::Finished), worker_fail(AppErrorView::Cancelled))
            } else if data.len() == 0 {
                (
                    WorkerView {
                        phase: WorkerPhase::AwaitParentDir,
                        resume_from: w.existing,
                        ..w
                    },
                    seq![WorkerActionView::CreateParentDir],
                )
            } else {
                let v = (w.verified + data.len()) as u64;
                (
                    WorkerView { verified: v, hashed: w.hashed + data, file: w.file + data, ..w },
                    seq![WorkerActionView::SetProgressBytes(v)],
                )
            }
        },
        (WorkerPhase::VerifyingExisting, WorkerEventView::ReadFailed(err)) => (
            wphase(w, WorkerPhase::Finished),
            worker_fail(err),
        ),
        (WorkerPhase::HashingPrefix, WorkerEventView::ReadFailed(err)) => (
            wphase(w, WorkerPhase::Finished),
            worker_fail(err),
        ),
        (WorkerPhase::VerifyingExisting, WorkerEventView::TaskPanicked(t)) => (
            wphase(w, WorkerPhase::Finished),
            worker_fail(AppErrorView::Api("verify task panicked: "@ + t)),
        ),
        (WorkerPhase::HashingPrefix, WorkerEventView::TaskPanicked(t)) => (
            wphase(w, WorkerPhase::Finished),
            worker_fail(AppErrorView::Api("resume hash task panicked: "@ + t)),
        ),
        (WorkerPhase::AwaitParentDir, WorkerEventView::ParentDirReady(r)) => match r {
            Err(err) => (wphase(w, WorkerPhase::Finished), worker_fail(err)),
            Ok(_) => (
                wphase(w, WorkerPhase::AwaitResponse),
                seq![WorkerActionView::SetVerifying(false), request_of(w)],
            ),
        },
        (WorkerPhase::AwaitResponse, WorkerEventView::Response(r)) => match r {
            Err(err) => (wphase(w, WorkerPhase::Finished), worker_fail(err)),
            Ok(status) => if w.resume_from > 0 && status == PARTIAL_CONTENT {
                (
                    WorkerView { phase: WorkerPhase::AwaitFile, current: w.resume_from, ..w },
                    seq![WorkerActionView::OpenFile { append: true }],
                )
            } else if w.resume_from > 0 {
                (
                    WorkerView {
                        phase: WorkerPhase::AwaitFile,
                        resume_from: 0,
                        current: 0,
                        hashed: Seq::empty(),
                        file: Seq::empty(),
                        ..w
                    },
                    seq![
                        WorkerActionView::SetProgressBytes(0),
                        WorkerActionView::OpenFile { append: false },
                    ],
                )
            } else {
                (
                    WorkerView { phase: WorkerPhase::AwaitFile, current: 0, ..w },
                    seq![WorkerActionView::OpenFile { append: false }],
                )
            },
        },
        (WorkerPhase::AwaitFile, WorkerEventView::FileOpened(r)) => match r {
            Err(err) => (wphase(w, WorkerPhase::Finished), worker_fail(err)),
            Ok(_) => (wphase(w, WorkerPhase::Streaming), seq![WorkerActionView::NextChunk]),
        },
        (WorkerPhase::Streaming, WorkerEventView::Chunk { active, body }) => if !active {
            (wphase(w, WorkerPhase::Finished), worker_fail(AppErrorView::Cancelled))
        } else {
            match body {
                Err(err) => (wphase(w, WorkerPhase::Finished), worker_fail(err)),
                Ok(d) => (
                    WorkerView {
                        phase: WorkerPhase::AwaitWrite,
                        pending: d.len() as u64,
                        current: (w.current + d.len()) as u64,
                        hashed: w.hashed + d,
                        file: w.file + d,
                        ..w
                    },
                    seq![WorkerActionView::WriteChunk(d)],
                ),
            }
        },
        (WorkerPhase::Streaming, WorkerEventView::StreamEnded) => (
            wphase(w, WorkerPhase::AwaitFlush),
            seq![WorkerActionView::Flush],
        ),
        (WorkerPhase::AwaitWrite, WorkerEventView::ChunkWritten(r)) => match r {
            Err(err) => (wphase(w, WorkerPhase::Finished), worker_fail(err)),
            Ok(_) => (
                wphase(w, WorkerPhase::Streaming),
                seq![
                    WorkerActionView::SetProgressBytes(w.current),
                    WorkerActionView::Throttle(w.pending),
                    WorkerActionView::NextChunk,
                ],
            ),
        },
        (WorkerPhase::AwaitFlush, WorkerEventView::Flushed(r)) => match r {
            Err(err) => (wphase(w, WorkerPhase::Finished), worker_fail(err)),
            Ok(_) => if md5_hex(w.hashed) != w.md5 {
                (
                    wphase(w, WorkerPhase::Finished),
                    worker_fail(
                        AppErrorView::Md5Mismatch { expected: w.md5, actual: md5_hex(w.hashed) },
                    ),
                )
            } else {
                (wphase(w, WorkerPhase::Finished), worker_after_body(w))
            },
        },
        _ => (w, Seq::empty()),
    }
}

/// An event that the download can take without a byte counter overflowing a
/// `u64`.
pub open spec fn counters_fit(w: WorkerView, e: WorkerEventView) -> bool {
    match (w.phase, e) {
        (WorkerPhase::VerifyingExisting, WorkerEventView::ExistingBlock { data, .. }) => w.verified
            + data.len() <= u64::MAX,
        (WorkerPhase::HashingPrefix, WorkerEventView::ExistingBlock { data, .. }) => w.verified
            + data.len() <= u64::MAX,
        (WorkerPhase::Streaming, WorkerEventView::Chunk { body: Ok(d), .. }) => w.current + d.len()
            <= u64::MAX,
        _ => true,
    }
}

/// The download's state is consistent: the hasher has been fed exactly what
/// the destination holds, and a resume offset is the size of a partial file.
pub open spec fn worker_wf(w: WorkerView) -> bool {
    &&& w.hashed == w.file
    &&& w.file_name == last_segment(w.url)
    &&& w.resume_from > 0 ==> w.resume_from == w.existing && resumes_existing(
        w.existing,
        w.expected,
    )
    &&& match w.phase {
        WorkerPhase::VerifyingExisting => checks_existing(w.existing, w.expected),
        WorkerPhase::HashingPrefix => resumes_existing(w.existing, w.expected),
        WorkerPhase::AwaitParentDir | WorkerPhase::AwaitResponse => w.resume_from == 0 ==> w.file
            == Seq::<u8>::empty(),
        _ => true,
    }
}


// ---------------------------------------------------------------------------
// The download
// ---------------------------------------------------------------------------

/// The download of one pack file (see the module documentation).
pub struct FileDownload {
    url: String,
    md5: String,
    file_index: usize,
    total_files: usize,
    file_name: String,
    expected: u64,
    existing: u64,
    speed_limit: u64,
    phase: WorkerPhase,
    resume_from: u64,
    verified: u64,
    current: u64,
    pending: u64,
    hasher: Md5Hasher,
    file: Ghost<Seq<u8>>,
}

impl View for FileDownload {
    type V = WorkerView;

    closed spec fn view(&self) -> WorkerView {
        WorkerView {
            url: self.url@,
            md5: self.md5@,
            file_index: self.file_index,
            total_files: self.total_files,
            file_name: self.file_name@,
            expected: self.expected,
            existing: self.existing,
            speed_limit: self.speed_limit,
            phase: self.phase,
            resume_from: self.resume_from,
            verified: self.verified,
            current: self.current,
            pending: self.pending,
            hashed: md5_input(self.hasher),
            file: self.file@,
        }
    }
}

fn push_waction(v: &mut Vec<WorkerAction>, a: WorkerAction)
    ensures
        worker_actions_view(final(v)@) == worker_actions_view(old(v)@).push(a@),
{
    let ghost before = v@;
    v.push(a);
    assert(v@ =~= before.push(a));
    assert(worker_actions_view(v@) =~= worker_actions_view(before).push(a@));
}

fn fail_worker(e: AppError) -> (v: Vec<WorkerAction>)
    ensures
        worker_actions_view(v@) == worker_fail(e@),
{
    let mut v: Vec<WorkerAction> = Vec::new();
    push_waction(&mut v, WorkerAction::SetProgressActive(false));
    push_waction(&mut v, WorkerAction::Finish(Err(e)));
    assert(worker_actions_view(v@) =~= worker_fail(e@));
    v
}

fn one_waction(a: WorkerAction) -> (v: Vec<WorkerAction>)
    ensures
        worker_actions_view(v@) == seq![a@],
{
    let mut v: Vec<WorkerAction> = Vec::new();
    push_waction(&mut v, a);
    assert(worker_actions_view(v@) =~= seq![a@]);
    v
}

/// The `Range` header that asks for the bytes from offset `n` on.
pub fn range_header_for(n: u64) -> (r: String)
    ensures
        r@ == range_header(n),
{
    let mut r = String::from_str("bytes=");
    push_decimal(&mut r, n);
    r.append("-");
    r
}

/// Checks an MD5 digest against the expected lower-case hex text: the
/// digest in lower-case hex, and whether that is the expected text.
pub fn check_digest(digest: &[u8], expected: &str) -> (r: (String, bool))
    ensures
        r.0@ == hex_lower(digest@),
        r.1 == (hex_lower(digest@) == expected@),
{
    let actual = to_hex_lower(digest);
    let matches = same_text(actual.as_str(), expected);
    (actual, matches)
}

impl FileDownload {
    /// The download is consistent.
    pub open spec fn wf(&self) -> bool {
        worker_wf(self@)
    }

    fn completion(&self) -> (a: WorkerAction)
        ensures
            a@ == file_complete(self@),
    {
        WorkerAction::EmitFileComplete(
            DownloadFileComplete {
                file_index: self.file_index,
                total_files: self.total_files,
                file_name: self.file_name.clone(),
            },
        )
    }

    /// Starts the download of `pack`, the file at `file_index` of
    /// `total_files`, with a speed limit (zero for none), given the size of the
    /// destination file already on disk (zero when there is none).
    pub fn new(
        pack: PackFile,
        file_index: usize,
        total_files: usize,
        speed_limit: u64,
        existing: u64,
    ) -> (r: (FileDownload, Vec<WorkerAction>))
        ensures
            r.0.wf(),
            (r.0@, worker_actions_view(r.1@)) == worker_start(
                pack@,
                file_index,
                total_files,
                speed_limit,
                existing,
            ),
    {
        let ghost start = worker_start(pack@, file_index, total_files, speed_limit, existing);
        let file_name = url_file_name(pack.url.as_str());
        let expected = parse_size(pack.package_size.as_str());
        let phase = if existing > 0 && (expected == 0 || existing >= expected) {
            WorkerPhase::VerifyingExisting
        } else if existing > 0 && existing < expected {
            WorkerPhase::HashingPrefix
        } else {
            WorkerPhase::AwaitParentDir
        };
        let d = FileDownload {
            url: pack.url,
            md5: pack.md5,
            file_index,
            total_files,
            file_name,
            expected,
            existing,
            speed_limit,
            phase,
            resume_from: 0,
            verified: 0,
            current: 0,
            pending: 0,
            hasher: md5_new(),
            file: Ghost(Seq::empty()),
        };
        let mut v: Vec<WorkerAction> = Vec::new();
        push_waction(&mut v, WorkerAction::SetProgressActive(true));
        if phase == WorkerPhase::AwaitParentDir {
            push_waction(&mut v, WorkerAction::CreateParentDir);
        } else {
            push_waction(&mut v, WorkerAction::SetVerifying(true));
            push_waction(&mut v, WorkerAction::ReadExisting);
        }
        assert(d@ =~= start.0);
        assert(worker_actions_view(v@) =~= start.1);
        (d, v)
    }

    /// Where the download stands.
    pub fn phase(&self) -> (p: WorkerPhase)
        ensures
            p == self@.phase,
    {
        self.phase
    }

    /// The speed limit of this download, in bytes per second (zero for none).
    pub fn speed_limit(&self) -> (n: u64)
        ensures
            n == self@.speed_limit,
    {
        self.speed_limit
    }

    /// Whether the download can take `event` without a byte counter
    /// overflowing a `u64`.
    pub fn counters_fit(&self, event: &WorkerEvent) -> (b: bool)
        ensures
            b == counters_fit(self@, event@),
    {
        match (self.phase, event) {
            (WorkerPhase::VerifyingExisting, WorkerEvent::ExistingBlock { data, .. }) => {
                self.verified.checked_add(data.len() as u64).is_some()
            },
            (WorkerPhase::HashingPrefix, WorkerEvent::ExistingBlock { data, .. }) => {
                self.verified.checked_add(data.len() as u64).is_some()
            },
            (WorkerPhase::Streaming, WorkerEvent::Chunk { body: Ok(d), .. }) => {
                self.current.checked_add(d.len() as u64).is_some()
            },
            _ => true,
        }
    }

    /// Takes one event: the download moves on and says what to do next.
    pub fn step(&mut self, event: WorkerEvent) -> (actions: Vec<WorkerAction>)
        requires
            old(self).wf(),
            counters_fit(old(self)@, event@),
        ensures
            final(self).wf(),
            final(self)@ == worker_next(old(self)@, event@).0,
            worker_actions_view(actions@) == worker_next(old(self)@, event@).1,
    {
        let ghost w = self@;
        let ghost e = event@;
        match event {
            WorkerEvent::ExistingBlock { active, data } => {
                if self.phase == WorkerPhase::VerifyingExisting {
                    if data.len() == 0 {
                        let digest = crate::hashing::md5_digest(&self.hasher);
                        let (_, matches) = check_digest(digest.as_slice(), self.md5.as_str());
                        if matches {
                            self.phase = WorkerPhase::Finished;
                            let mut v: Vec<WorkerAction> = Vec::new();
                            push_waction(&mut v, WorkerAction::SetProgressBytes(self.expected));
                            push_waction(&mut v, WorkerAction::SetVerifying(false));
                            push_waction(&mut v, self.completion());
                            push_waction(&mut v, WorkerAction::SetProgressActive(false));
                            push_waction(&mut v, WorkerAction::Finish(Ok(())));
                            assert(worker_actions_view(v@) =~= worker_next(w, e).1);
                            assert(self@ =~= worker_next(w, e).0);
                            v
                        } else {
                            self.phase = WorkerPhase::AwaitParentDir;
                            self.hasher = md5_new();
                            self.file = Ghost(Seq::empty());
                            let mut v: Vec<WorkerAction> = Vec::new();
                            push_waction(&mut v, WorkerAction::RemoveFile);
                            push_waction(&mut v, WorkerAction::SetProgressBytes(0));
                            push_waction(&mut v, WorkerAction::CreateParentDir);
                            assert(worker_actions_view(v@) =~= worker_next(w, e).1);
                            assert(self@ =~= worker_next(w, e).0);
                            v
                        }
                    } else if !active {
                        self.phase = WorkerPhase::Finished;
                        let v = fail_worker(AppError::Cancelled);
                        assert(self@ =~= worker_next(w, e).0);
                        v
                    } else {
                        self.absorb_block(&data)
                    }
                } else if self.phase == WorkerPhase::HashingPrefix {
                    if !active {
                        self.phase = WorkerPhase::Finished;
                        let v = fail_worker(AppError::Cancelled);
                        assert(self@ =~= worker_next(w, e).0);
                        v
                    } else if data.len() == 0 {
                        self.phase = WorkerPhase::AwaitParentDir;
                        self.resume_from = self.existing;
                        let v = one_waction(WorkerAction::CreateParentDir);
                        assert(self@ =~= worker_next(w, e).0);
                        v
                    } else {
                        self.absorb_block(&data)
                    }
                } else {
                    Vec::new()
                }
            },
            WorkerEvent::ReadFailed(err) => {
                if self.phase == WorkerPhase::VerifyingExisting || self.phase
                    == WorkerPhase::HashingPrefix {
                    self.phase = WorkerPhase::Finished;
                    let v = fail_worker(err);
                    assert(self@ =~= worker_next(w, e).0);
                    v
                } else {
                    Vec::new()
                }
            },
            WorkerEvent::TaskPanicked(t) => {
                if self.phase == WorkerPhase::VerifyingExisting {
                    self.phase = WorkerPhase::Finished;
                    let mut msg = String::from_str("verify task panicked: ");
                    msg.append(t.as_str());
                    let v = fail_worker(AppError::Api(msg));
                    assert(self@ =~= worker_next(w, e).0);
                    v
                } else if self.phase == WorkerPhase::HashingPrefix {
                    self.phase = WorkerPhase::Finished;
                    let mut msg = String::from_str("resume hash task panicked: ");
                    msg.append(t.as_str());
                    let v = fail_worker(AppError::Api(msg));
                    assert(self@ =~= worker_next(w, e).0);
                    v
                } else {
                    Vec::new()
                }
            },
            WorkerEvent::ParentDirReady(r) => {
                if self.phase == WorkerPhase::AwaitParentDir {
                    match r {
                        Err(err) => {
                            self.phase = WorkerPhase::Finished;
                            let v = fail_worker(err);
                            assert(self@ =~= worker_next(w, e).0);
                            v
                        },
                        Ok(_) => {
                            self.phase = WorkerPhase::AwaitResponse;
                            let range = if self.resume_from > 0 {
                                Some(range_header_for(self.resume_from))
                            } else {
                                None
                            };
                            let mut v: Vec<WorkerAction> = Vec::new();
                            push_waction(&mut v, WorkerAction::SetVerifying(false));
                            push_waction(
                                &mut v,
                                WorkerAction::SendRequest { url: self.url.clone(), range },
                            );
                            assert(worker_actions_view(v@) =~= worker_next(w, e).1);
                            assert(self@ =~= worker_next(w, e).0);
                            v
                        },
                    }
                } else {
                    Vec::new()
                }
            },
            WorkerEvent::Response(r) => {
                if self.phase == WorkerPhase::AwaitResponse {
                    match r {
                        Err(err) => {
                            self.phase = WorkerPhase::Finished;
                            let v = fail_worker(err);
                            assert(self@ =~= worker_next(w, e).0);
                            v
                        },
                        Ok(status) => {
                            self.phase = WorkerPhase::AwaitFile;
                            if self.resume_from > 0 && status == PARTIAL_CONTENT {
                                self.current = self.resume_from;
                                let v = one_waction(WorkerAction::OpenFile { append: true });
                                assert(self@ =~= worker_next(w, e).0);
                                v
                            } else if self.resume_from > 0 {
                                self.resume_from = 0;
                                self.current = 0;
                                self.hasher = md5_new();
                                self.file = Ghost(Seq::empty());
                                let mut v: Vec<WorkerAction> = Vec::new();
                                push_waction(&mut v, WorkerAction::SetProgressBytes(0));
                                push_waction(&mut v, WorkerAction::OpenFile { append: false });
                                assert(worker_actions_view(v@) =~= worker_next(w, e).1);
                                assert(self@ =~= worker_next(w, e).0);
                                v
                            } else {
                                self.current = 0;
                                let v = one_waction(WorkerAction::OpenFile { append: false });
                                assert(self@ =~= worker_next(w, e).0);
                                v
                            }
                        },
                    }
                } else {
                    Vec::new()
                }
            },
            WorkerEvent::FileOpened(r) => {
                if self.phase == WorkerPhase::AwaitFile {
                    match r {
                        Err(err) => {
                            self.phase = WorkerPhase::Finished;
                            let v = fail_worker(err);
                            assert(self@ =~= worker_next(w, e).0);
                            v
                        },
                        Ok(_) => {
                            self.phase = WorkerPhase::Streaming;
                            let v = one_waction(WorkerAction::NextChunk);
                            assert(self@ =~= worker_next(w, e).0);
                            v
                        },
                    }
                } else {
                    Vec::new()
                }
            },
            WorkerEvent::Chunk { active, body } => {
                if self.phase == WorkerPhase::Streaming {
                    if !active {
                        self.phase = WorkerPhase::Finished;
                        let v = fail_worker(AppError::Cancelled);
                        assert(self@ =~= worker_next(w, e).0);
                        v
                    } else {
                        match body {
                            Err(err) => {
                                self.phase = WorkerPhase::Finished;
                                let v = fail_worker(err);
                                assert(self@ =~= worker_next(w, e).0);
                                v
                            },
                            Ok(d) => {
                                let n = d.len() as u64;
                                md5_update(&mut self.hasher, d.as_slice());
                                self.file = Ghost(self.file@ + d@);
                                self.pending = n;
                                self.current = self.current + n;
                                self.phase = WorkerPhase::AwaitWrite;
                                let v = one_waction(WorkerAction::WriteChunk(d));
                                assert(self@ =~= worker_next(w, e).0);
                                v
                            },
                        }
                    }
                } else {
                    Vec::new()
                }
            },
            WorkerEvent::StreamEnded => {
                if self.phase == WorkerPhase::Streaming {
                    self.phase = WorkerPhase::AwaitFlush;
                    let v = one_waction(WorkerAction::Flush);
                    assert(self@ =~= worker_next(w, e).0);
                    v
                } else {
                    Vec::new()
                }
            },
            WorkerEvent::ChunkWritten(r) => {
                if self.phase == WorkerPhase::AwaitWrite {
                    match r {
                        Err(err) => {
                            self.phase = WorkerPhase::Finished;
                            let v = fail_worker(err);
                            assert(self@ =~= worker_next(w, e).0);
                            v
                        },
                        Ok(_) => {
                            self.phase = WorkerPhase::Streaming;
                            let mut v: Vec<WorkerAction> = Vec::new();
                            push_waction(&mut v, WorkerAction::SetProgressBytes(self.current));
                            push_waction(&mut v, WorkerAction::Throttle(self.pending));
                            push_waction(&mut v, WorkerAction::NextChunk);
                            assert(worker_actions_view(v@) =~= worker_next(w, e).1);
                            assert(self@ =~= worker_next(w, e).0);
                            v
                        },
                    }
                } else {
                    Vec::new()
                }
            },
            WorkerEvent::Flushed(r) => {
                if self.phase == WorkerPhase::AwaitFlush {
                    self.phase = WorkerPhase::Finished;
                    match r {
                        Err(err) => {
                            let v = fail_worker(err);
                            assert(self@ =~= worker_next(w, e).0);
                            v
                        },
                        Ok(_) => {
                            let digest = crate::hashing::md5_digest(&self.hasher);
                            let (actual, matches) = check_digest(digest.as_slice(), self.md5.as_str());
                            if !matches {
                                let v = fail_worker(
                                    AppError::Md5Mismatch { expected: self.md5.clone(), actual },
                                );
                                assert(self@ =~= worker_next(w, e).0);
                                v
                            } else {
                                let mut v: Vec<WorkerAction> = Vec::new();
                                push_waction(&mut v, WorkerAction::SetProgressBytes(self.expected));
                                push_waction(&mut v, self.completion());
                                push_waction(&mut v, WorkerAction::SetProgressActive(false));
                                push_waction(&mut v, WorkerAction::Finish(Ok(())));
                                assert(worker_actions_view(v@) =~= worker_next(w, e).1);
                                assert(self@ =~= worker_next(w, e).0);
                                v
                            }
                        },
                    }
                } else {
                    Vec::new()
                }
            },
        }
    }

    fn absorb_block(&mut self, data: &Vec<u8>) -> (actions: Vec<WorkerAction>)
        requires
            old(self).wf(),
            old(self)@.phase == WorkerPhase::VerifyingExisting || old(self)@.phase
                == WorkerPhase::HashingPrefix,
            data@.len() > 0,
            old(self)@.verified + data@.len() <= u64::MAX,
        ensures
            final(self).wf(),
            final(self)@ == (WorkerView {
                verified: (old(self)@.verified + data@.len()) as u64,
                hashed: old(self)@.hashed + data@,
                file: old(self)@.file + data@,
                ..old(self)@
            }),
            worker_actions_view(actions@) == seq![
                WorkerActionView::SetProgressBytes((old(self)@.verified + data@.len()) as u64),
            ],
    {
        let ghost w = self@;
        md5_update(&mut self.hasher, data.as_slice());
        self.file = Ghost(self.file@ + data@);
        self.verified = self.verified + data.len() as u64;
        let v = one_waction(WorkerAction::SetProgressBytes(self.verified));
        assert(self@ =~= (WorkerView {
            verified: (w.verified + data@.len()) as u64,
            hashed: w.hashed + data@,
            file: w.file + data@,
            ..w
        }));
        v
    }
}


// ---------------------------------------------------------------------------
// Laws of a pack download
// ---------------------------------------------------------------------------

/// Every step keeps a download consistent; in particular the hasher is always
/// fed exactly the bytes that the destination file holds.
pub proof fn law_step_keeps_consistency(w: WorkerView, e: WorkerEventView)
    requires
        worker_wf(w),
    ensures
        worker_wf(worker_next(w, e).0),
{
}

/// A download succeeds only when the MD5 of the destination file's content,
/// as read from disk or as written to it, equals the pack's digest; when the
/// written content does not match, it fails with both digests.
pub proof fn law_accepts_exactly_the_matching_file(w: WorkerView, e: WorkerEventView)
    requires
        worker_wf(w),
    ensures
        worker_next(w, e).1.contains(WorkerActionView::Finish(Ok(()))) ==> md5_hex(w.file)
            == w.md5,
        w.phase == WorkerPhase::AwaitFlush && e == WorkerEventView::Flushed(Ok(())) ==> {
            ||| md5_hex(w.file) == w.md5 && worker_next(w, e).1 == worker_after_body(w)
            ||| md5_hex(w.file) != w.md5 && worker_next(w, e).1 == worker_fail(
                AppErrorView::Md5Mismatch { expected: w.md5, actual: md5_hex(w.file) },
            )
        },
{
    let acts = worker_next(w, e).1;
    if acts.contains(WorkerActionView::Finish(Ok(()))) {
        let i = choose|i: int| 0 <= i < acts.len() && acts[i] == WorkerActionView::Finish(Ok(()));
        match (w.phase, e) {
            (WorkerPhase::VerifyingExisting, WorkerEventView::ExistingBlock { active, data }) => {
                if !(data.len() == 0 && md5_hex(w.hashed) == w.md5) {
                    assert(acts[i] != WorkerActionView::Finish(Ok(())));
                }
            },
            (WorkerPhase::AwaitFlush, WorkerEventView::Flushed(r)) => {
                if !(r is Ok && md5_hex(w.hashed) == w.md5) {
                    assert(acts[i] != WorkerActionView::Finish(Ok(())));
                }
            },
            _ => {
                assert(acts[i] != WorkerActionView::Finish(Ok(())));
            },
        }
    }
}

/// A complete file already on disk whose MD5 matches is kept: the download
/// ends successfully without any request.
pub proof fn law_keeps_a_valid_file_on_disk(w: WorkerView, active: bool)
    requires
        worker_wf(w),
        w.phase == WorkerPhase::VerifyingExisting,
        md5_hex(w.file) == w.md5,
    ensures
        worker_next(w, WorkerEventView::ExistingBlock { active, data: Seq::empty() }).1
            == worker_success(w),
        worker_next(w, WorkerEventView::ExistingBlock { active, data: Seq::empty() }).0.phase
            == WorkerPhase::Finished,
{
}

/// A request carries a `Range` header only to resume after a partial file on
/// disk, and then asks for the bytes from the end of that file on.
pub proof fn law_resumes_only_after_partial_files(
    w: WorkerView,
    e: WorkerEventView,
    url: Seq<char>,
    r: Seq<char>,
)
    requires
        worker_wf(w),
        worker_next(w, e).1.contains(WorkerActionView::SendRequest { url, range: Some(r) }),
    ensures
        url == w.url,
        resumes_existing(w.existing, w.expected),
        r == range_header(w.existing),
{
    let acts = worker_next(w, e).1;
    let a = WorkerActionView::SendRequest { url, range: Some(r) };
    let i = choose|i: int| 0 <= i < acts.len() && acts[i] == a;
    match (w.phase, e) {
        (WorkerPhase::AwaitParentDir, WorkerEventView::ParentDirReady(res)) => {
            if res is Err || w.resume_from == 0 {
                assert(acts[i] != a);
            }
        },
        _ => {
            assert(acts[i] != a);
        },
    }
}

/// The download appends to the file on disk only when it resumes and the
/// server answered 206 Partial Content; the bytes already hashed are then
/// exactly those of that file.
pub proof fn law_appends_only_on_partial_content(w: WorkerView, e: WorkerEventView)
    requires
        worker_wf(w),
        worker_next(w, e).1.contains(WorkerActionView::OpenFile { append: true }),
    ensures
        e == WorkerEventView::Response(Ok(PARTIAL_CONTENT)),
        w.resume_from > 0,
        worker_next(w, e).0.hashed == w.file,
        worker_next(w, e).0.current == w.resume_from,
{
    let acts = worker_next(w, e).1;
    let a = WorkerActionView::OpenFile { append: true };
    let i = choose|i: int| 0 <= i < acts.len() && acts[i] == a;
    match (w.phase, e) {
        (WorkerPhase::AwaitResponse, WorkerEventView::Response(res)) => {
            match res {
                Ok(status) => {
                    if !(w.resume_from > 0 && status == PARTIAL_CONTENT) {
                        assert(acts[i] != a);
                    }
                },
                Err(_) => {
                    assert(acts[i] != a);
                },
            }
        },
        _ => {
            assert(acts[i] != a);
        },
    }
}

/// Whenever a download ends, its progress is marked inactive in the same step.
pub proof fn law_every_end_clears_the_active_mark(
    w: WorkerView,
    e: WorkerEventView,
    r: Result<(), AppErrorView>,
)
    requires
        worker_next(w, e).1.contains(WorkerActionView::Finish(r)),
    ensures
        worker_next(w, e).1.contains(WorkerActionView::SetProgressActive(false)),
        worker_next(w, e).0.phase == WorkerPhase::Finished,
{
    let acts = worker_next(w, e).1;
    let a = WorkerActionView::Finish(r);
    let i = choose|i: int| 0 <= i < acts.len() && acts[i] == a;
    match (w.phase, e) {
        (WorkerPhase::VerifyingExisting, WorkerEventView::ExistingBlock { active, data }) => {
            if data.len() == 0 && md5_hex(w.hashed) == w.md5 {
                assert(acts[3] == WorkerActionView::SetProgressActive(false));
            } else if data.len() == 0 || active {
                assert(acts[i] != a);
            } else {
                assert(acts[0] == WorkerActionView::SetProgressActive(false));
            }
        },
        (WorkerPhase::AwaitFlush, WorkerEventView::Flushed(res)) => {
            if res is Ok && md5_hex(w.hashed) == w.md5 {
                assert(acts[2] == WorkerActionView::SetProgressActive(false));
            } else {
                assert(acts[0] == WorkerActionView::SetProgressActive(false));
            }
        },
        (WorkerPhase::HashingPrefix, WorkerEventView::ExistingBlock { active, data }) => {
            if active {
                assert(acts[i] != a);
            } else {
                assert(acts[0] == WorkerActionView::SetProgressActive(false));
            }
        },
        (WorkerPhase::AwaitParentDir, WorkerEventView::ParentDirReady(res)) => {
            if res is Ok {
                assert(acts[i] != a);
            } else {
                assert(acts[0] == WorkerActionView::SetProgressActive(false));
            }
        },
        (WorkerPhase::AwaitResponse, WorkerEventView::Response(res)) => {
            if res is Ok {
                assert(acts[i] != a);
            } else {
                assert(acts[0] == WorkerActionView::SetProgressActive(false));
            }
        },
        (WorkerPhase::AwaitFile, WorkerEventView::FileOpened(res)) => {
            if res is Ok {
                assert(acts[i] != a);
            } else {
                assert(acts[0] == WorkerActionView::SetProgressActive(false));
            }
        },
        (WorkerPhase::Streaming, WorkerEventView::Chunk { active, body }) => {
            if active && body is Ok {
                assert(acts[i] != a);
            } else {
                assert(acts[0] == WorkerActionView::SetProgressActive(false));
            }
        },
        (WorkerPhase::AwaitWrite, WorkerEventView::ChunkWritten(res)) => {
            if res is Ok {
                assert(acts[i] != a);
            } else {
                assert(acts[0] == WorkerActionView::SetProgressActive(false));
            }
        },
        (WorkerPhase::VerifyingExisting, WorkerEventView::ReadFailed(_)) => {
            assert(acts[0] == WorkerActionView::SetProgressActive(false));
        },
        (WorkerPhase::HashingPrefix, WorkerEventView::ReadFailed(_)) => {
            assert(acts[0] == WorkerActionView::SetProgressActive(false));
        },
        (WorkerPhase::VerifyingExisting, WorkerEventView::TaskPanicked(_)) => {
            assert(acts[0] == WorkerActionView::SetProgressActive(false));
        },
        (WorkerPhase::HashingPrefix, WorkerEventView::TaskPanicked(_)) => {
            assert(acts[0] == WorkerActionView::SetProgressActive(false));
        },
        _ => {
            assert(acts[i] != a);
        },
    }
}

/// A chunk that arrives after the download was cancelled is not written: the
/// download ends with `Cancelled`.
pub proof fn law_cancellation_stops_the_stream(w: WorkerView, body: Result<Seq<u8>, AppErrorView>)
    requires
        w.phase == WorkerPhase::Streaming,
    ensures
        worker_next(w, WorkerEventView::Chunk { active: false, body }).1 == worker_fail(
            AppErrorView::Cancelled,
        ),
{
}

/// Every request that a pack download sends goes to the pack's own URL,
/// whether it resumes or not, and carries a `Range` header asking for the bytes
/// from the resume offset on exactly when it resumes; the URL is the pack's
/// from the start, and no step changes it.
pub proof fn law_requests_go_to_the_pack_url(
    pack: PackFileView,
    file_index: usize,
    total_files: usize,
    speed_limit: u64,
    existing: u64,
    w: WorkerView,
    e: WorkerEventView,
    url: Seq<char>,
    range: Option<Seq<char>>,
)
    ensures
        worker_start(pack, file_index, total_files, speed_limit, existing).0.url == pack.url,
        worker_next(w, e).0.url == w.url,
        worker_next(w, e).1.contains(WorkerActionView::SendRequest { url, range }) ==> {
            &&& url == w.url
            &&& range == if w.resume_from > 0 {
                Some("bytes="@ + decimal(w.resume_from as nat) + "-"@)
            } else {
                None::<Seq<char>>
            }
        },
{
    let acts = worker_next(w, e).1;
    let a = WorkerActionView::SendRequest { url, range };
    if acts.contains(a) {
        let i = choose|i: int| 0 <= i < acts.len() && acts[i] == a;
        match (w.phase, e) {
            (WorkerPhase::AwaitParentDir, WorkerEventView::ParentDirReady(res)) => {
                if res is Err {
                    assert(acts[i] != a);
                } else if i == 0 {
                    assert(acts[i] != a);
                }
            },
            (WorkerPhase::VerifyingExisting, WorkerEventView::ExistingBlock { active, data }) => {
                assert(acts[i] != a);
            },
            (WorkerPhase::HashingPrefix, WorkerEventView::ExistingBlock { active, data }) => {
                assert(acts[i] != a);
            },
            (WorkerPhase::AwaitResponse, WorkerEventView::Response(r)) => {
                assert(acts[i] != a);
            },
            (WorkerPhase::AwaitFile, WorkerEventView::FileOpened(r)) => {
                assert(acts[i] != a);
            },
            (WorkerPhase::Streaming, WorkerEventView::Chunk { active, body }) => {
                assert(acts[i] != a);
            },
            (WorkerPhase::AwaitWrite, WorkerEventView::ChunkWritten(r)) => {
                assert(acts[i] != a);
            },
            (WorkerPhase::AwaitFlush, WorkerEventView::Flushed(r)) => {
                assert(acts[i] != a);
            },
            _ => {
                assert(acts[i] != a);
            },
        }
    }
}

} // verus!
