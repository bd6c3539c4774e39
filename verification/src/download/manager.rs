//! A pack-download session: the decisions of a full game download, as a state
//! machine. The caller performs each action (network, disk, worker tasks,
//! extraction, frontend events) and hands back what came of it as an event.
//!
//! The session fetches the latest version's pack list (once more with an empty
//! version when the installed version yields none), sizes the download, refuses
//! early when the disk cannot hold it, starts one worker per pack while the
//! download stays active, waits for every worker, and extracts only when the
//! download was not cancelled meanwhile.

use crate::error::{AppError, AppErrorView};
use crate::text::{last_segment, parse_size, size_or_zero, url_file_name};
use vstd::string::StringExecFns;
use crate::types::{
    packs_view, DownloadComplete, DownloadError, PackFile, PackFileView, ResumeInfo,
};
use vstd::prelude::*;

verus! {

/// Bytes in a mebibyte.
pub const MIB: u64 = 1048576;

/// The least per-worker speed limit, in bytes per second, when a limit is set.
pub const MIN_WORKER_SPEED_LIMIT: u64 = 1024;

/// Where a session stands: what it waits for next.
#[derive(PartialEq, Eq, Structural, Clone, Copy, Debug)]
pub enum SessionPhase {
    /// Waiting for the pack list; `retried` once the full list was asked for.
    AwaitVersion { retried: bool },
    /// Waiting for the sizes of pack files already on disk.
    AwaitExistingSizes,
    /// Waiting for the download directory to be created.
    AwaitDownloadDir,
    /// Waiting for the free space of the download directory's disk.
    AwaitFreeSpace,
    /// Waiting for the active flag before starting the next worker.
    CheckBeforeSpawn,
    /// Waiting for a worker slot.
    AwaitPermit,
    /// Waiting for the next started worker to end.
    Joining,
    /// Waiting for the active flag after every worker ended.
    FinalCheck,
    /// Waiting for the extraction of the packs.
    Extracting,
    /// The session has ended.
    Finished,
}

/// The latest version as the API reports it: its name and its packs.
pub struct LatestVersion {
    pub version: String,
    pub packs: Vec<PackFile>,
}

/// How a worker task ended.
pub enum WorkerOutcome {
    /// The pack file is downloaded and checked.
    Done,
    /// The worker failed with an error.
    Failed(AppError),
    /// The worker task itself failed (it panicked or was aborted); the text says how.
    Panicked(String),
}

/// What the caller reports back to a session.
pub enum SessionEvent {
    /// The result of `FetchVersion`.
    VersionFetched(Result<LatestVersion, AppError>),
    /// The result of `StatExistingParts`: for each name, the size of that file in
    /// the download directory, or `None` where it cannot be read.
    ExistingSizes(Vec<Option<u64>>),
    /// The result of `CreateDownloadDir`.
    DownloadDirCreated(Result<(), AppError>),
    /// The result of `QueryFreeSpace`: the free bytes, where they are known.
    FreeSpace(Option<u64>),
    /// The result of `CheckActive`: whether the download is still active.
    ActiveFlag(bool),
    /// The result of `AcquirePermit`: whether a worker slot was obtained.
    PermitAcquired(bool),
    /// The result of `JoinWorker`.
    WorkerJoined(WorkerOutcome),
    /// The result of `Extract`.
    ExtractionFinished(Result<(), AppError>),
    /// The extraction task itself failed; the text says how.
    ExtractionPanicked(String),
}

/// One pack for a worker to download.
pub struct WorkerJob {
    pub index: usize,
    pub file_name: String,
    pub pack: PackFile,
    pub total_files: usize,
    pub speed_limit: u64,
}

/// What a session asks the caller to do, in order.
pub enum SessionAction {
    /// Store `true` or `false` in the shared download-active flag.
    SetActive(bool),
    /// Ask the API for the latest version relative to this installed version.
    FetchVersion(String),
    /// Read the sizes of these files in the download directory.
    StatExistingParts(Vec<String>),
    /// Create the download directory and its parents.
    CreateDownloadDir,
    /// Tell the frontend that part of the download is already on disk.
    EmitResuming(ResumeInfo),
    /// Find the free space of the download directory's disk.
    QueryFreeSpace,
    /// Read the shared download-active flag.
    CheckActive,
    /// Wait for a worker slot.
    AcquirePermit,
    /// Start a worker task for this job.
    SpawnWorker(WorkerJob),
    /// Wait for the worker task with this index to end.
    JoinWorker(usize),
    /// Tell the frontend that the download failed with this message.
    EmitError(DownloadError),
    /// Tell the frontend that the download failed with this error's message.
    EmitErrorOf(AppError),
    /// Mark the game directory as being extracted into.
    WriteExtractionMarker,
    /// Extract these pack files of the download directory into the game directory.
    Extract { parts: Vec<String>, total_size: u64 },
    /// Remove the extraction mark.
    RemoveExtractionMarker,
    /// Delete these pack files from the download directory.
    RemoveParts(Vec<String>),
    /// Tell the frontend that the download is complete.
    EmitComplete(DownloadComplete),
    /// The session ends with this result: the version now installed, or an error.
    Finish(Result<String, AppError>),
}

// ---------------------------------------------------------------------------
// Views
// ---------------------------------------------------------------------------

/// A session as values.
#[verifier::ext_equal]
pub struct SessionView {
    pub download_dir: Seq<char>,
    pub current_version: Seq<char>,
    pub speed_limit: u64,
    pub max_concurrent: u32,
    pub phase: SessionPhase,
    pub version: Seq<char>,
    pub packs: Seq<PackFileView>,
    pub names: Seq<Seq<char>>,
    pub total_size: u64,
    pub existing: u64,
    pub spawned: usize,
    pub joined: usize,
}

pub struct LatestVersionView {
    pub version: Seq<char>,
    pub packs: Seq<PackFileView>,
}

pub enum WorkerOutcomeView {
    Done,
    Failed(AppErrorView),
    Panicked(Seq<char>),
}

pub enum SessionEventView {
    VersionFetched(Result<LatestVersionView, AppErrorView>),
    ExistingSizes(Seq<Option<u64>>),
    DownloadDirCreated(Result<(), AppErrorView>),
    FreeSpace(Option<u64>),
    ActiveFlag(bool),
    PermitAcquired(bool),
    WorkerJoined(WorkerOutcomeView),
    ExtractionFinished(Result<(), AppErrorView>),
    ExtractionPanicked(Seq<char>),
}

pub struct WorkerJobView {
    pub index: usize,
    pub file_name: Seq<char>,
    pub pack: PackFileView,
    pub total_files: usize,
    pub speed_limit: u64,
}

pub enum SessionActionView {
    SetActive(bool),
    FetchVersion(Seq<char>),
    StatExistingParts(Seq<Seq<char>>),
    CreateDownloadDir,
    EmitResuming { bytes_existing: u64, bytes_total: u64 },
    QueryFreeSpace,
    CheckActive,
    AcquirePermit,
    SpawnWorker(WorkerJobView),
    JoinWorker(usize),
    EmitError(Seq<char>),
    EmitErrorOf(AppErrorView),
    WriteExtractionMarker,
    Extract { parts: Seq<Seq<char>>, total_size: u64 },
    RemoveExtractionMarker,
    RemoveParts(Seq<Seq<char>>),
    EmitComplete(Seq<char>),
    Finish(Result<Seq<char>, AppErrorView>),
}

/// The view of a version answer.
pub open spec fn version_result_view(r: Result<LatestVersion, AppError>) -> Result<
    LatestVersionView,
    AppErrorView,
> {
    match r {
        Ok(v) => Ok(v@),
        Err(e) => Err(e@),
    }
}

/// The views of a list of strings.
pub open spec fn strings_view(v: Seq<String>) -> Seq<Seq<char>> {
    v.map_values(|s: String| s@)
}

impl View for LatestVersion {
    type V = LatestVersionView;

    open spec fn view(&self) -> LatestVersionView {
        LatestVersionView { version: self.version@, packs: packs_view(self.packs@) }
    }
}

impl View for WorkerOutcome {
    type V = WorkerOutcomeView;

    open spec fn view(&self) -> WorkerOutcomeView {
        match self {
            WorkerOutcome::Done => WorkerOutcomeView::Done,
            WorkerOutcome::Failed(e) => WorkerOutcomeView::Failed(e@),
            WorkerOutcome::Panicked(t) => WorkerOutcomeView::Panicked(t@),
        }
    }
}

impl View for SessionEvent {
    type V = SessionEventView;

    open spec fn view(&self) -> SessionEventView {
        match self {
            SessionEvent::VersionFetched(r) => SessionEventView::VersionFetched(
                version_result_view(*r),
            ),
            SessionEvent::ExistingSizes(v) => SessionEventView::ExistingSizes(v@),
            SessionEvent::DownloadDirCreated(r) => SessionEventView::DownloadDirCreated(
                match r {
                    Ok(_) => Ok(()),
                    Err(e) => Err(e@),
                },
            ),
            SessionEvent::FreeSpace(a) => SessionEventView::FreeSpace(*a),
            SessionEvent::ActiveFlag(b) => SessionEventView::ActiveFlag(*b),
            SessionEvent::PermitAcquired(b) => SessionEventView::PermitAcquired(*b),
            SessionEvent::WorkerJoined(o) => SessionEventView::WorkerJoined(o@),
            SessionEvent::ExtractionFinished(r) => SessionEventView::ExtractionFinished(
                match r {
                    Ok(_) => Ok(()),
                    Err(e) => Err(e@),
                },
            ),
            SessionEvent::ExtractionPanicked(t) => SessionEventView::ExtractionPanicked(t@),
        }
    }
}

impl View for WorkerJob {
    type V = WorkerJobView;

    open spec fn view(&self) -> WorkerJobView {
        WorkerJobView {
            index: self.index,
            file_name: self.file_name@,
            pack: self.pack@,
            total_files: self.total_files,
            speed_limit: self.speed_limit,
        }
    }
}

impl View for SessionAction {
    type V = SessionActionView;

    open spec fn view(&self) -> SessionActionView {
        match self {
            SessionAction::SetActive(b) => SessionActionView::SetActive(*b),
            SessionAction::FetchVersion(v) => SessionActionView::FetchVersion(v@),
            SessionAction::StatExistingParts(n) => SessionActionView::StatExistingParts(
                strings_view(n@),
            ),
            SessionAction::CreateDownloadDir => SessionActionView::CreateDownloadDir,
            SessionAction::EmitResuming(r) => SessionActionView::EmitResuming {
                bytes_existing: r.bytes_existing,
                bytes_total: r.bytes_total,
            },
            SessionAction::QueryFreeSpace => SessionActionView::QueryFreeSpace,
            SessionAction::CheckActive => SessionActionView::CheckActive,
            SessionAction::AcquirePermit => SessionActionView::AcquirePermit,
            SessionAction::SpawnWorker(j) => SessionActionView::SpawnWorker(j@),
            SessionAction::JoinWorker(i) => SessionActionView::JoinWorker(*i),
            SessionAction::EmitError(e) => SessionActionView::EmitError(e.message@),
            SessionAction::EmitErrorOf(e) => SessionActionView::EmitErrorOf(e@),
            SessionAction::WriteExtractionMarker => SessionActionView::WriteExtractionMarker,
            SessionAction::Extract { parts, total_size } => SessionActionView::Extract {
                parts: strings_view(parts@),
                total_size: *total_size,
            },
            SessionAction::RemoveExtractionMarker => SessionActionView::RemoveExtractionMarker,
            SessionAction::RemoveParts(n) => SessionActionView::RemoveParts(strings_view(n@)),
            SessionAction::EmitComplete(c) => SessionActionView::EmitComplete(c.version@),
            SessionAction::Finish(r) => SessionActionView::Finish(
                match r {
                    Ok(v) => Ok(v@),
                    Err(e) => Err(e@),
                },
            ),
        }
    }
}

/// The views of a list of actions.
pub open spec fn actions_view(v: Seq<SessionAction>) -> Seq<SessionActionView> {
    v.map_values(|a: SessionAction| a@)
}

// ---------------------------------------------------------------------------
// The session's rules
// ---------------------------------------------------------------------------

/// The file names of the packs: the last segment of each URL.
pub open spec fn pack_names(packs: Seq<PackFileView>) -> Seq<Seq<char>> {
    packs.map_values(|p: PackFileView| last_segment(p.url))
}

/// The sum of the pack sizes, a size that is not a number counting as zero.
pub open spec fn packs_total(packs: Seq<PackFileView>) -> nat
    decreases packs.len(),
{
    if packs.len() == 0 {
        0
    } else {
        packs_total(packs.drop_last()) + size_or_zero(packs.last().package_size) as nat
    }
}

/// The sum of the sizes that are known.
pub open spec fn known_total(sizes: Seq<Option<u64>>) -> nat
    decreases sizes.len(),
{
    if sizes.len() == 0 {
        0
    } else {
        known_total(sizes.drop_last()) + match sizes.last() {
            Some(n) => n as nat,
            None => 0,
        }
    }
}

/// The bytes still to download: the total less what is on disk, at least zero.
pub open spec fn bytes_needed(total: u64, existing: u64) -> u64 {
    if total >= existing {
        (total - existing) as u64
    } else {
        0
    }
}

/// The speed limit of each worker: the session's limit shared between the
/// workers that may run at once, at least `MIN_WORKER_SPEED_LIMIT`; no limit
/// (zero) when the session has none.
pub open spec fn worker_speed_limit(speed_limit: u64, max_concurrent: u32) -> u64 {
    if speed_limit > 0 {
        let share = speed_limit / (max_concurrent as u64);
        if share >= MIN_WORKER_SPEED_LIMIT {
            share
        } else {
            MIN_WORKER_SPEED_LIMIT
        }
    } else {
        0
    }
}

/// The message when the API offers nothing to download.
pub open spec fn no_packages_message() -> Seq<char> {
    "No download packages available from server"@
}

/// The error when the disk cannot hold what is still to download.
pub open spec fn disk_space_error(
    download_dir: Seq<char>,
    needed: u64,
    available: u64,
) -> AppErrorView {
    AppErrorView::DiskSpace {
        path: download_dir,
        needed_mib: needed / MIB,
        available_mib: available / MIB,
    }
}

/// The actions that end a session with an error after the active flag was
/// raised: lower the flag, report the error, finish.
pub open spec fn fail_actions(e: AppErrorView) -> Seq<SessionActionView> {
    seq![
        SessionActionView::SetActive(false),
        SessionActionView::EmitErrorOf(e),
        SessionActionView::Finish(Err(e)),
    ]
}

/// The same, where the report carries its own message.
pub open spec fn fail_with_message(msg: Seq<char>) -> Seq<SessionActionView> {
    seq![
        SessionActionView::SetActive(false),
        SessionActionView::EmitError(msg),
        SessionActionView::Finish(Err(AppErrorView::Api(msg))),
    ]
}

/// The job of the pack at `index`.
pub open spec fn job_at(s: SessionView, index: int) -> WorkerJobView {
    WorkerJobView {
        index: index as usize,
        file_name: s.names[index],
        pack: s.packs[index],
        total_files: s.packs.len() as usize,
        speed_limit: worker_speed_limit(s.speed_limit, s.max_concurrent),
    }
}

/// A session state with another phase.
pub open spec fn with_phase(s: SessionView, p: SessionPhase) -> SessionView {
    SessionView { phase: p, ..s }
}

/// The step after the version answer.
pub open spec fn on_version(
    s: SessionView,
    retried: bool,
    r: Result<LatestVersionView, AppErrorView>,
) -> (SessionView, Seq<SessionActionView>) {
    match r {
        Err(e) => (with_phase(s, SessionPhase::Finished), seq![SessionActionView::Finish(Err(e))]),
        Ok(info) => if info.packs.len() == 0 && s.current_version.len() > 0 && !retried {
            (
                with_phase(s, SessionPhase::AwaitVersion { retried: true }),
                seq![SessionActionView::FetchVersion(Seq::empty())],
            )
        } else if info.packs.len() == 0 {
            (with_phase(s, SessionPhase::Finished), fail_with_message(no_packages_message()))
        } else {
            (
                SessionView {
                    phase: SessionPhase::AwaitExistingSizes,
                    version: info.version,
                    packs: info.packs,
                    names: pack_names(info.packs),
                    total_size: packs_total(info.packs) as u64,
                    ..s
                },
                seq![SessionActionView::StatExistingParts(pack_names(info.packs))],
            )
        },
    }
}

/// The step that ends the start of workers, at `spawned` started ones.
pub open spec fn after_spawning(s: SessionView) -> (SessionView, Seq<SessionActionView>) {
    if s.spawned == 0 {
        (with_phase(s, SessionPhase::FinalCheck), seq![SessionActionView::CheckActive])
    } else {
        (
            SessionView { phase: SessionPhase::Joining, joined: 0, ..s },
            seq![SessionActionView::JoinWorker(0)],
        )
    }
}

/// How a session answers one event: its next state and what it asks for, in
/// order. An event that the current phase does not wait for changes nothing.
pub open spec fn session_next(s: SessionView, e: SessionEventView) -> (
    SessionView,
    Seq<SessionActionView>,
) {
    match (s.phase, e) {
        (SessionPhase::AwaitVersion { retried }, SessionEventView::VersionFetched(r)) => on_version(
            s,
            retried,
            r,
        ),
        (SessionPhase::AwaitExistingSizes, SessionEventView::ExistingSizes(sizes)) => (
            SessionView {
                phase: SessionPhase::AwaitDownloadDir,
                existing: known_total(sizes) as u64,
                ..s
            },
            seq![SessionActionView::CreateDownloadDir],
        ),
        (SessionPhase::AwaitDownloadDir, SessionEventView::DownloadDirCreated(r)) => match r {
            Err(err) => (
                with_phase(s, SessionPhase::Finished),
                seq![SessionActionView::Finish(Err(err))],
            ),
            Ok(_) => (
                with_phase(s, SessionPhase::AwaitFreeSpace),
                if s.existing > 0 {
                    seq![
                        SessionActionView::EmitResuming {
                            bytes_existing: s.existing,
                            bytes_total: s.total_size,
                        },
                        SessionActionView::QueryFreeSpace,
                    ]
                } else {
                    seq![SessionActionView::QueryFreeSpace]
                },
            ),
        },
        (SessionPhase::AwaitFreeSpace, SessionEventView::FreeSpace(a)) => match a {
            Some(avail) if avail < bytes_needed(s.total_size, s.existing) => (
                with_phase(s, SessionPhase::Finished),
                fail_actions(
                    disk_space_error(
                        s.download_dir,
                        bytes_needed(s.total_size, s.existing),
                        avail,
                    ),
                ),
            ),
            _ => (
                SessionView { phase: SessionPhase::CheckBeforeSpawn, spawned: 0, ..s },
                seq![SessionActionView::CheckActive],
            ),
        },
        (SessionPhase::CheckBeforeSpawn, SessionEventView::ActiveFlag(active)) => if active {
            (with_phase(s, SessionPhase::AwaitPermit), seq![SessionActionView::AcquirePermit])
        } else {
            after_spawning(s)
        },
        (SessionPhase::AwaitPermit, SessionEventView::PermitAcquired(ok)) => if !ok {
            (
                with_phase(s, SessionPhase::Finished),
                seq![SessionActionView::Finish(Err(AppErrorView::Cancelled))],
            )
        } else {
            let spawn = SessionActionView::SpawnWorker(job_at(s, s.spawned as int));
            let s1 = SessionView { spawned: (s.spawned + 1) as usize, ..s };
            if s1.spawned < s.packs.len() {
                (
                    with_phase(s1, SessionPhase::CheckBeforeSpawn),
                    seq![spawn, SessionActionView::CheckActive],
                )
            } else {
                (after_spawning(s1).0, seq![spawn] + after_spawning(s1).1)
            }
        },
        (SessionPhase::Joining, SessionEventView::WorkerJoined(o)) => match o {
            WorkerOutcomeView::Done => {
                let s1 = SessionView { joined: (s.joined + 1) as usize, ..s };
                if s1.joined < s.spawned {
                    (s1, seq![SessionActionView::JoinWorker(s1.joined)])
                } else {
                    (with_phase(s1, SessionPhase::FinalCheck), seq![SessionActionView::CheckActive])
                }
            },
            WorkerOutcomeView::Failed(err) => (
                with_phase(s, SessionPhase::Finished),
                fail_actions(err),
            ),
            WorkerOutcomeView::Panicked(t) => (
                with_phase(s, SessionPhase::Finished),
                fail_with_message("Download task failed: "@ + t),
            ),
        },
        (SessionPhase::FinalCheck, SessionEventView::ActiveFlag(active)) => if active {
            (
                with_phase(s, SessionPhase::Extracting),
                seq![
                    SessionActionView::WriteExtractionMarker,
                    SessionActionView::Extract { parts: s.names, total_size: s.total_size },
                ],
            )
        } else {
            (
                with_phase(s, SessionPhase::Finished),
                seq![
                    SessionActionView::EmitErrorOf(AppErrorView::Cancelled),
                    SessionActionView::Finish(Err(AppErrorView::Cancelled)),
                ],
            )
        },
        (SessionPhase::Extracting, SessionEventView::ExtractionFinished(r)) => match r {
            Ok(_) => (
                with_phase(s, SessionPhase::Finished),
                seq![
                    SessionActionView::RemoveExtractionMarker,
                    SessionActionView::RemoveParts(s.names),
                    SessionActionView::SetActive(false),
                    SessionActionView::EmitComplete(s.version),
                    SessionActionView::Finish(Ok(s.version)),
                ],
            ),
            Err(err) => (with_phase(s, SessionPhase::Finished), fail_actions(err)),
        },
        (SessionPhase::Extracting, SessionEventView::ExtractionPanicked(t)) => (
            with_phase(s, SessionPhase::Finished),
            fail_actions(AppErrorView::Api("Extraction task failed: "@ + t)),
        ),
        _ => (s, Seq::empty()),
    }
}

/// An event that the session can take without a sum of sizes overflowing a
/// `u64`.
pub open spec fn sums_fit(s: SessionView, e: SessionEventView) -> bool {
    match (s.phase, e) {
        (SessionPhase::AwaitVersion { .. }, SessionEventView::VersionFetched(Ok(info))) =>
            packs_total(info.packs) <= u64::MAX,
        (SessionPhase::AwaitExistingSizes, SessionEventView::ExistingSizes(sizes)) =>
            known_total(sizes) <= u64::MAX,
        _ => true,
    }
}

/// The parts of a session's consistency that hold in every phase.
pub open spec fn session_wf_core(s: SessionView) -> bool {
    &&& s.speed_limit > 0 ==> s.max_concurrent > 0
    &&& s.names.len() == s.packs.len()
    &&& s.packs.len() <= usize::MAX
    &&& s.spawned <= s.packs.len()
    &&& s.joined <= s.spawned
    &&& s.names == pack_names(s.packs)
}

/// An event as the caller can build it: a pack list is a vector, whose length
/// fits in a `usize`.
pub open spec fn event_wf(e: SessionEventView) -> bool {
    e matches SessionEventView::VersionFetched(Ok(info)) ==> info.packs.len() <= usize::MAX
}

/// The session's state is consistent.
pub open spec fn session_wf(s: SessionView) -> bool {
    &&& session_wf_core(s)
    &&& match s.phase {
        SessionPhase::AwaitVersion { retried } => {
            &&& retried ==> s.current_version.len() > 0
            &&& s.spawned == 0
        },
        SessionPhase::Finished => true,
        SessionPhase::CheckBeforeSpawn | SessionPhase::AwaitPermit => s.spawned < s.packs.len(),
        SessionPhase::Joining => s.joined < s.spawned,
        SessionPhase::FinalCheck | SessionPhase::Extracting => s.packs.len() > 0 && s.joined
            == s.spawned,
        SessionPhase::AwaitExistingSizes | SessionPhase::AwaitDownloadDir
        | SessionPhase::AwaitFreeSpace => s.packs.len() > 0 && s.spawned == 0,
    }
}

/// The first state of a session and its first actions: raise the active flag
/// and ask for the latest version relative to the installed one.
pub open spec fn session_start(
    download_dir: Seq<char>,
    current_version: Seq<char>,
    speed_limit: u64,
    max_concurrent: u32,
) -> (SessionView, Seq<SessionActionView>) {
    (
        SessionView {
            download_dir,
            current_version,
            speed_limit,
            max_concurrent,
            phase: SessionPhase::AwaitVersion { retried: false },
            version: Seq::empty(),
            packs: Seq::empty(),
            names: Seq::empty(),
            total_size: 0,
            existing: 0,
            spawned: 0,
            joined: 0,
        },
        seq![SessionActionView::SetActive(true), SessionActionView::FetchVersion(current_version)],
    )
}

// ---------------------------------------------------------------------------
// Sums
// ---------------------------------------------------------------------------

proof fn lemma_packs_total_prefix(packs: Seq<PackFileView>, k: int)
    requires
        0 <= k <= packs.len(),
    ensures
        packs_total(packs.take(k)) <= packs_total(packs),
    decreases packs.len() - k,
{
    if k < packs.len() {
        lemma_packs_total_prefix(packs, k + 1);
        assert(packs.take(k + 1).drop_last() =~= packs.take(k));
    } else {
        assert(packs.take(k) =~= packs);
    }
}

proof fn lemma_known_total_prefix(sizes: Seq<Option<u64>>, k: int)
    requires
        0 <= k <= sizes.len(),
    ensures
        known_total(sizes.take(k)) <= known_total(sizes),
    decreases sizes.len() - k,
{
    if k < sizes.len() {
        lemma_known_total_prefix(sizes, k + 1);
        assert(sizes.take(k + 1).drop_last() =~= sizes.take(k));
    } else {
        assert(sizes.take(k) =~= sizes);
    }
}

/// The sum of the pack sizes, where it fits in a `u64`.
pub fn total_pack_size(packs: &Vec<PackFile>) -> (r: Option<u64>)
    ensures
        match r {
            Some(t) => t == packs_total(packs_view(packs@)),
            None => packs_total(packs_view(packs@)) > u64::MAX,
        },
{
    let ghost pv = packs_view(packs@);
    let mut acc: u64 = 0;
    let mut i: usize = 0;
    while i < packs.len()
        invariant
            i <= packs.len(),
            pv == packs_view(packs@),
            acc == packs_total(pv.take(i as int)),
        decreases packs.len() - i,
    {
        let sz = parse_size(packs[i].package_size.as_str());
        assert(pv.take(i + 1).drop_last() =~= pv.take(i as int));
        assert(pv[i as int] == packs@[i as int]@);
        match acc.checked_add(sz) {
            Some(v) => {
                acc = v;
            },
            None => {
                proof {
                    lemma_packs_total_prefix(pv, i + 1);
                }
                return None;
            },
        }
        i = i + 1;
    }
    assert(pv.take(packs.len() as int) =~= pv);
    Some(acc)
}

/// The sum of the known sizes, where it fits in a `u64`.
pub fn total_known_size(sizes: &Vec<Option<u64>>) -> (r: Option<u64>)
    ensures
        match r {
            Some(t) => t == known_total(sizes@),
            None => known_total(sizes@) > u64::MAX,
        },
{
    let mut acc: u64 = 0;
    let mut i: usize = 0;
    while i < sizes.len()
        invariant
            i <= sizes.len(),
            acc == known_total(sizes@.take(i as int)),
        decreases sizes.len() - i,
    {
        assert(sizes@.take(i + 1).drop_last() =~= sizes@.take(i as int));
        let add: u64 = match sizes[i] {
            Some(n) => n,
            None => 0,
        };
        match acc.checked_add(add) {
            Some(v) => {
                acc = v;
            },
            None => {
                proof {
                    lemma_known_total_prefix(sizes@, i + 1);
                }
                return None;
            },
        }
        i = i + 1;
    }
    assert(sizes@.take(sizes.len() as int) =~= sizes@);
    Some(acc)
}

/// The file names of the packs.
pub fn names_of_packs(packs: &Vec<PackFile>) -> (names: Vec<String>)
    ensures
        strings_view(names@) == pack_names(packs_view(packs@)),
{
    let mut names: Vec<String> = Vec::new();
    let mut i: usize = 0;
    while i < packs.len()
        invariant
            i <= packs.len(),
            strings_view(names@) =~= pack_names(packs_view(packs@.take(i as int))),
        decreases packs.len() - i,
    {
        let n = url_file_name(packs[i].url.as_str());
        let ghost before = names@;
        names.push(n);
        assert(names@ =~= before.push(n));
        assert(strings_view(names@) =~= strings_view(before).push(n@));
        assert(packs@.take(i + 1) =~= packs@.take(i as int).push(packs@[i as int]));
        assert(packs_view(packs@.take(i + 1)) =~= packs_view(packs@.take(i as int)).push(
            packs@[i as int]@,
        ));
        i = i + 1;
    }
    assert(packs@.take(packs.len() as int) =~= packs@);
    names
}

/// The speed limit of each worker (see `worker_speed_limit`).
pub fn per_worker_speed_limit(speed_limit: u64, max_concurrent: u32) -> (r: u64)
    requires
        speed_limit > 0 ==> max_concurrent > 0,
    ensures
        r == worker_speed_limit(speed_limit, max_concurrent),
{
    if speed_limit > 0 {
        let share = speed_limit / (max_concurrent as u64);
        if share >= MIN_WORKER_SPEED_LIMIT {
            share
        } else {
            MIN_WORKER_SPEED_LIMIT
        }
    } else {
        0
    }
}

fn copy_strings(v: &Vec<String>) -> (r: Vec<String>)
    ensures
        strings_view(r@) == strings_view(v@),
{
    let mut r: Vec<String> = Vec::new();
    let mut i: usize = 0;
    while i < v.len()
        invariant
            i <= v.len(),
            strings_view(r@) =~= strings_view(v@.take(i as int)),
        decreases v.len() - i,
    {
        let ghost before = r@;
        let c = v[i].clone();
        r.push(c);
        assert(r@ =~= before.push(c));
        assert(strings_view(r@) =~= strings_view(before).push(c@));
        assert(v@.take(i + 1) =~= v@.take(i as int).push(v@[i as int]));
        assert(strings_view(v@.take(i + 1)) =~= strings_view(v@.take(i as int)).push(
            v@[i as int]@,
        ));
        i = i + 1;
    }
    assert(v@.take(v.len() as int) =~= v@);
    r
}


// ---------------------------------------------------------------------------
// The session
// ---------------------------------------------------------------------------

/// One full download of the game's packs (see the module documentation).
pub struct DownloadSession {
    download_dir: String,
    current_version: String,
    speed_limit: u64,
    max_concurrent: u32,
    phase: SessionPhase,
    version: String,
    packs: Vec<PackFile>,
    names: Vec<String>,
    total_size: u64,
    existing: u64,
    spawned: usize,
    joined: usize,
}

impl View for DownloadSession {
    type V = SessionView;

    closed spec fn view(&self) -> SessionView {
        SessionView {
            download_dir: self.download_dir@,
            current_version: self.current_version@,
            speed_limit: self.speed_limit,
            max_concurrent: self.max_concurrent,
            phase: self.phase,
            version: self.version@,
            packs: packs_view(self.packs@),
            names: strings_view(self.names@),
            total_size: self.total_size,
            existing: self.existing,
            spawned: self.spawned,
            joined: self.joined,
        }
    }
}

fn push_action(v: &mut Vec<SessionAction>, a: SessionAction)
    ensures
        actions_view(final(v)@) == actions_view(old(v)@).push(a@),
{
    let ghost before = v@;
    v.push(a);
    assert(v@ =~= before.push(a));
    assert(actions_view(v@) =~= actions_view(before).push(a@));
}

fn one_action(a: SessionAction) -> (v: Vec<SessionAction>)
    ensures
        actions_view(v@) == seq![a@],
{
    let mut v: Vec<SessionAction> = Vec::new();
    push_action(&mut v, a);
    assert(actions_view(v@) =~= seq![a@]);
    v
}

fn fail_with(e: AppError) -> (v: Vec<SessionAction>)
    ensures
        actions_view(v@) == fail_actions(e@),
{
    let mut v: Vec<SessionAction> = Vec::new();
    push_action(&mut v, SessionAction::SetActive(false));
    push_action(&mut v, SessionAction::EmitErrorOf(e.duplicate()));
    push_action(&mut v, SessionAction::Finish(Err(e)));
    assert(actions_view(v@) =~= fail_actions(e@));
    v
}

fn fail_with_text(msg: String) -> (v: Vec<SessionAction>)
    ensures
        actions_view(v@) == fail_with_message(msg@),
{
    let mut v: Vec<SessionAction> = Vec::new();
    push_action(&mut v, SessionAction::SetActive(false));
    push_action(&mut v, SessionAction::EmitError(DownloadError { message: msg.clone() }));
    push_action(&mut v, SessionAction::Finish(Err(AppError::Api(msg))));
    assert(actions_view(v@) =~= fail_with_message(msg@));
    v
}

impl DownloadSession {
    /// The session is consistent.
    pub open spec fn wf(&self) -> bool {
        session_wf(self@)
    }

    /// Starts a session for the given download directory, installed version
    /// and limits; its first actions raise the active flag and ask for the
    /// latest version.
    pub fn new(
        download_dir: String,
        current_version: String,
        speed_limit: u64,
        max_concurrent: u32,
    ) -> (r: (DownloadSession, Vec<SessionAction>))
        requires
            speed_limit > 0 ==> max_concurrent > 0,
        ensures
            r.0.wf(),
            (r.0@, actions_view(r.1@)) == session_start(
                download_dir@,
                current_version@,
                speed_limit,
                max_concurrent,
            ),
    {
        let fetch = current_version.clone();
        let s = DownloadSession {
            download_dir,
            current_version,
            speed_limit,
            max_concurrent,
            phase: SessionPhase::AwaitVersion { retried: false },
            version: String::new(),
            packs: Vec::new(),
            names: Vec::new(),
            total_size: 0,
            existing: 0,
            spawned: 0,
            joined: 0,
        };
        let mut v: Vec<SessionAction> = Vec::new();
        push_action(&mut v, SessionAction::SetActive(true));
        push_action(&mut v, SessionAction::FetchVersion(fetch));
        assert(s@.packs =~= Seq::<PackFileView>::empty());
        assert(s@.names =~= Seq::<Seq<char>>::empty());
        assert(pack_names(s@.packs) =~= Seq::<Seq<char>>::empty());
        let ghost start = session_start(s@.download_dir, s@.current_version, speed_limit, max_concurrent);
        assert(s@ =~= start.0);
        assert(actions_view(v@) =~= start.1);
        (s, v)
    }

    /// Where the session stands.
    pub fn phase(&self) -> (p: SessionPhase)
        ensures
            p == self@.phase,
    {
        self.phase
    }

    /// Whether the session has ended.
    pub fn is_finished(&self) -> (b: bool)
        ensures
            b == (self@.phase == SessionPhase::Finished),
    {
        self.phase == SessionPhase::Finished
    }

    /// Whether the session can take `event` without a sum of sizes
    /// overflowing a `u64`.
    pub fn sums_fit(&self, event: &SessionEvent) -> (b: bool)
        ensures
            b == sums_fit(self@, event@),
    {
        match (self.phase, event) {
            (SessionPhase::AwaitVersion { .. }, SessionEvent::VersionFetched(Ok(info))) => {
                total_pack_size(&info.packs).is_some()
            },
            (SessionPhase::AwaitExistingSizes, SessionEvent::ExistingSizes(sizes)) => {
                total_known_size(sizes).is_some()
            },
            _ => true,
        }
    }

    /// Takes one event: the session moves on and says what to do next.
    pub fn step(&mut self, event: SessionEvent) -> (actions: Vec<SessionAction>)
        requires
            old(self).wf(),
            sums_fit(old(self)@, event@),
        ensures
            final(self).wf(),
            final(self)@ == session_next(old(self)@, event@).0,
            actions_view(actions@) == session_next(old(self)@, event@).1,
    {
        let ghost s = self@;
        let ghost e = event@;
        match event {
            SessionEvent::VersionFetched(r) => {
                if let SessionPhase::AwaitVersion { retried } = self.phase {
                    self.on_version(retried, r)
                } else {
                    Vec::new()
                }
            },
            SessionEvent::ExistingSizes(sizes) => {
                if self.phase == SessionPhase::AwaitExistingSizes {
                    let existing = match total_known_size(&sizes) {
                        Some(t) => t,
                        None => 0,
                    };
                    self.existing = existing;
                    self.phase = SessionPhase::AwaitDownloadDir;
                    let v = one_action(SessionAction::CreateDownloadDir);
                    assert(self@ =~= session_next(s, e).0);
                    v
                } else {
                    Vec::new()
                }
            },
            SessionEvent::DownloadDirCreated(r) => {
                if self.phase == SessionPhase::AwaitDownloadDir {
                    match r {
                        Err(err) => {
                            self.phase = SessionPhase::Finished;
                            let v = one_action(SessionAction::Finish(Err(err)));
                            assert(self@ =~= session_next(s, e).0);
                            v
                        },
                        Ok(_) => {
                            self.phase = SessionPhase::AwaitFreeSpace;
                            let mut v: Vec<SessionAction> = Vec::new();
                            if self.existing > 0 {
                                push_action(
                                    &mut v,
                                    SessionAction::EmitResuming(
                                        ResumeInfo {
                                            bytes_existing: self.existing,
                                            bytes_total: self.total_size,
                                        },
                                    ),
                                );
                            }
                            push_action(&mut v, SessionAction::QueryFreeSpace);
                            assert(actions_view(v@) =~= session_next(s, e).1);
                            assert(self@ =~= session_next(s, e).0);
                            v
                        },
                    }
                } else {
                    Vec::new()
                }
            },
            SessionEvent::FreeSpace(a) => {
                if self.phase == SessionPhase::AwaitFreeSpace {
                    let needed: u64 = if self.total_size >= self.existing {
                        self.total_size - self.existing
                    } else {
                        0
                    };
                    match a {
                        Some(avail) if avail < needed => {
                            self.phase = SessionPhase::Finished;
                            let err = AppError::DiskSpace {
                                path: self.download_dir.clone(),
                                needed_mib: needed / MIB,
                                available_mib: avail / MIB,
                            };
                            let v = fail_with(err);
                            assert(self@ =~= session_next(s, e).0);
                            v
                        },
                        _ => {
                            self.phase = SessionPhase::CheckBeforeSpawn;
                            self.spawned = 0;
                            let v = one_action(SessionAction::CheckActive);
                            assert(self@ =~= session_next(s, e).0);
                            v
                        },
                    }
                } else {
                    Vec::new()
                }
            },
            SessionEvent::ActiveFlag(active) => {
                if self.phase == SessionPhase::CheckBeforeSpawn {
                    if active {
                        self.phase = SessionPhase::AwaitPermit;
                        let v = one_action(SessionAction::AcquirePermit);
                        assert(self@ =~= session_next(s, e).0);
                        v
                    } else {
                        self.after_spawning()
                    }
                } else if self.phase == SessionPhase::FinalCheck {
                    if active {
                        self.phase = SessionPhase::Extracting;
                        let mut v: Vec<SessionAction> = Vec::new();
                        push_action(&mut v, SessionAction::WriteExtractionMarker);
                        push_action(
                            &mut v,
                            SessionAction::Extract {
                                parts: copy_strings(&self.names),
                                total_size: self.total_size,
                            },
                        );
                        assert(actions_view(v@) =~= session_next(s, e).1);
                        assert(self@ =~= session_next(s, e).0);
                        v
                    } else {
                        self.phase = SessionPhase::Finished;
                        let mut v: Vec<SessionAction> = Vec::new();
                        push_action(&mut v, SessionAction::EmitErrorOf(AppError::Cancelled));
                        push_action(&mut v, SessionAction::Finish(Err(AppError::Cancelled)));
                        assert(actions_view(v@) =~= session_next(s, e).1);
                        assert(self@ =~= session_next(s, e).0);
                        v
                    }
                } else {
                    Vec::new()
                }
            },
            SessionEvent::PermitAcquired(ok) => {
                if self.phase == SessionPhase::AwaitPermit {
                    if !ok {
                        self.phase = SessionPhase::Finished;
                        let v = one_action(SessionAction::Finish(Err(AppError::Cancelled)));
                        assert(self@ =~= session_next(s, e).0);
                        v
                    } else {
                        self.spawn_next()
                    }
                } else {
                    Vec::new()
                }
            },
            SessionEvent::WorkerJoined(o) => {
                if self.phase == SessionPhase::Joining {
                    match o {
                        WorkerOutcome::Done => {
                            self.joined = self.joined + 1;
                            if self.joined < self.spawned {
                                let v = one_action(SessionAction::JoinWorker(self.joined));
                                assert(self@ =~= session_next(s, e).0);
                                v
                            } else {
                                self.phase = SessionPhase::FinalCheck;
                                let v = one_action(SessionAction::CheckActive);
                                assert(self@ =~= session_next(s, e).0);
                                v
                            }
                        },
                        WorkerOutcome::Failed(err) => {
                            self.phase = SessionPhase::Finished;
                            let v = fail_with(err);
                            assert(self@ =~= session_next(s, e).0);
                            v
                        },
                        WorkerOutcome::Panicked(t) => {
                            self.phase = SessionPhase::Finished;
                            let mut msg = String::from_str("Download task failed: ");
                            msg.append(t.as_str());
                            let v = fail_with_text(msg);
                            assert(self@ =~= session_next(s, e).0);
                            v
                        },
                    }
                } else {
                    Vec::new()
                }
            },
            SessionEvent::ExtractionFinished(r) => {
                if self.phase == SessionPhase::Extracting {
                    self.phase = SessionPhase::Finished;
                    match r {
                        Ok(_) => {
                            let mut v: Vec<SessionAction> = Vec::new();
                            push_action(&mut v, SessionAction::RemoveExtractionMarker);
                            push_action(&mut v, SessionAction::RemoveParts(copy_strings(&self.names)));
                            push_action(&mut v, SessionAction::SetActive(false));
                            push_action(
                                &mut v,
                                SessionAction::EmitComplete(
                                    DownloadComplete { version: self.version.clone() },
                                ),
                            );
                            push_action(&mut v, SessionAction::Finish(Ok(self.version.clone())));
                            assert(actions_view(v@) =~= session_next(s, e).1);
                            assert(self@ =~= session_next(s, e).0);
                            v
                        },
                        Err(err) => {
                            let v = fail_with(err);
                            assert(self@ =~= session_next(s, e).0);
                            v
                        },
                    }
                } else {
                    Vec::new()
                }
            },
            SessionEvent::ExtractionPanicked(t) => {
                if self.phase == SessionPhase::Extracting {
                    self.phase = SessionPhase::Finished;
                    let mut msg = String::from_str("Extraction task failed: ");
                    msg.append(t.as_str());
                    let v = fail_with(AppError::Api(msg));
                    assert(self@ =~= session_next(s, e).0);
                    v
                } else {
                    Vec::new()
                }
            },
        }
    }

    fn on_version(&mut self, retried: bool, r: Result<LatestVersion, AppError>) -> (actions: Vec<
        SessionAction,
    >)
        requires
            old(self).wf(),
            old(self)@.phase == (SessionPhase::AwaitVersion { retried }),
            match r {
                Ok(info) => packs_total(info@.packs) <= u64::MAX,
                Err(_) => true,
            },
        ensures
            final(self).wf(),
            final(self)@ == on_version(old(self)@, retried, version_result_view(r)).0,
            actions_view(actions@) == on_version(old(self)@, retried, version_result_view(r)).1,
    {
        let ghost s = self@;
        let ghost rv = version_result_view(r);
        match r {
            Err(err) => {
                self.phase = SessionPhase::Finished;
                let v = one_action(SessionAction::Finish(Err(err)));
                assert(self@ =~= on_version(s, retried, rv).0);
                v
            },
            Ok(info) => {
                if info.packs.len() == 0 && !self.current_version.as_str().is_empty() && !retried {
                    self.phase = SessionPhase::AwaitVersion { retried: true };
                    let v = one_action(SessionAction::FetchVersion(String::new()));
                    assert(self@ =~= on_version(s, retried, rv).0);
                    v
                } else if info.packs.len() == 0 {
                    self.phase = SessionPhase::Finished;
                    let v = fail_with_text(String::from_str("No download packages available from server"));
                    assert(self@ =~= on_version(s, retried, rv).0);
                    v
                } else {
                    let total = match total_pack_size(&info.packs) {
                        Some(t) => t,
                        None => 0,
                    };
                    let names = names_of_packs(&info.packs);
                    let stat = copy_strings(&names);
                    self.phase = SessionPhase::AwaitExistingSizes;
                    self.version = info.version;
                    self.packs = info.packs;
                    self.names = names;
                    self.total_size = total;
                    let v = one_action(SessionAction::StatExistingParts(stat));
                    assert(self@ =~= on_version(s, retried, rv).0);
                    v
                }
            },
        }
    }

    fn after_spawning(&mut self) -> (actions: Vec<SessionAction>)
        requires
            session_wf_core(old(self)@),
            old(self)@.packs.len() > 0,
        ensures
            final(self).wf(),
            final(self)@ == after_spawning(old(self)@).0,
            actions_view(actions@) == after_spawning(old(self)@).1,
    {
        let ghost s = self@;
        if self.spawned == 0 {
            self.phase = SessionPhase::FinalCheck;
            let v = one_action(SessionAction::CheckActive);
            assert(self@ =~= after_spawning(s).0);
            v
        } else {
            self.phase = SessionPhase::Joining;
            self.joined = 0;
            let v = one_action(SessionAction::JoinWorker(0));
            assert(self@ =~= after_spawning(s).0);
            v
        }
    }

    fn spawn_next(&mut self) -> (actions: Vec<SessionAction>)
        requires
            old(self).wf(),
            old(self)@.phase == SessionPhase::AwaitPermit,
        ensures
            final(self).wf(),
            final(self)@ == session_next(old(self)@, SessionEventView::PermitAcquired(true)).0,
            actions_view(actions@) == session_next(
                old(self)@,
                SessionEventView::PermitAcquired(true),
            ).1,
    {
        let ghost s = self@;
        let ghost e = SessionEventView::PermitAcquired(true);
        let i = self.spawned;
        let job = WorkerJob {
            index: i,
            file_name: self.names[i].clone(),
            pack: self.packs[i].duplicate(),
            total_files: self.packs.len(),
            speed_limit: per_worker_speed_limit(self.speed_limit, self.max_concurrent),
        };
        assert(job@ == job_at(s, i as int));
        self.spawned = i + 1;
        if self.spawned < self.packs.len() {
            self.phase = SessionPhase::CheckBeforeSpawn;
            let mut v: Vec<SessionAction> = Vec::new();
            push_action(&mut v, SessionAction::SpawnWorker(job));
            push_action(&mut v, SessionAction::CheckActive);
            assert(actions_view(v@) =~= session_next(s, e).1);
            assert(self@ =~= session_next(s, e).0);
            v
        } else {
            let ghost s1 = self@;
            let mut v: Vec<SessionAction> = Vec::new();
            push_action(&mut v, SessionAction::SpawnWorker(job));
            let rest = self.after_spawning();
            let ghost vv = v@;
            let mut rest = rest;
            v.append(&mut rest);
            assert(actions_view(v@) =~= actions_view(vv) + after_spawning(s1).1);
            assert(actions_view(v@) =~= session_next(s, e).1);
            assert(self@ =~= session_next(s, e).0);
            v
        }
    }
}


// ---------------------------------------------------------------------------
// Laws of a session
// ---------------------------------------------------------------------------

/// The action list holds an action of this shape.
pub open spec fn has_action(acts: Seq<SessionActionView>, p: spec_fn(SessionActionView) -> bool) -> bool {
    exists|i: int| 0 <= i < acts.len() && #[trigger] p(acts[i])
}

/// Every step keeps a session consistent.
pub proof fn law_step_keeps_consistency(s: SessionView, e: SessionEventView)
    requires
        session_wf(s),
        event_wf(e),
    ensures
        session_wf(session_next(s, e).0),
{
    match (s.phase, e) {
        (SessionPhase::AwaitVersion { retried }, SessionEventView::VersionFetched(r)) => {
            match r {
                Ok(info) => {
                    assert(pack_names(info.packs).len() == info.packs.len());
                },
                Err(_) => {},
            }
        },
        (SessionPhase::AwaitPermit, SessionEventView::PermitAcquired(ok)) => {
            if ok {
                let s1 = SessionView { spawned: (s.spawned + 1) as usize, ..s };
                assert(session_wf_core(s1));
                if !(s1.spawned < s.packs.len()) {
                    assert(session_wf(after_spawning(s1).0));
                }
            }
        },
        (SessionPhase::CheckBeforeSpawn, SessionEventView::ActiveFlag(b)) => {
            if !b {
                assert(session_wf(after_spawning(s).0));
            }
        },
        (SessionPhase::Joining, SessionEventView::WorkerJoined(o)) => {},
        _ => {},
    }
}

/// Once a session has ended, no event changes it or asks for anything.
pub proof fn law_finished_is_final(s: SessionView, e: SessionEventView)
    requires
        s.phase == SessionPhase::Finished,
    ensures
        session_next(s, e).0 == s,
        session_next(s, e).1 == Seq::<SessionActionView>::empty(),
{
}

/// The packs are extracted only when every started worker ended successfully
/// and the download was still active after the last of them: a cancellation
/// during the download never leads to an extraction.
pub proof fn law_extracts_only_after_all_workers_and_while_active(
    s: SessionView,
    e: SessionEventView,
)
    requires
        session_wf(s),
        has_action(session_next(s, e).1, |a: SessionActionView| a is Extract),
    ensures
        s.phase == SessionPhase::FinalCheck,
        e == SessionEventView::ActiveFlag(true),
        s.joined == s.spawned,
        session_next(s, e).1 == seq![
            SessionActionView::WriteExtractionMarker,
            SessionActionView::Extract { parts: s.names, total_size: s.total_size },
        ],
{
    let acts = session_next(s, e).1;
    let i = choose|i: int| 0 <= i < acts.len() && acts[i] is Extract;
    match (s.phase, e) {
        (SessionPhase::AwaitVersion { retried }, SessionEventView::VersionFetched(r)) => {
            assert(!(acts[i] is Extract));
        },
        (SessionPhase::Extracting, SessionEventView::ExtractionFinished(r)) => {
            assert(!(acts[i] is Extract));
        },
        (SessionPhase::AwaitPermit, SessionEventView::PermitAcquired(ok)) => {
            assert(!(acts[i] is Extract));
        },
        (SessionPhase::Joining, SessionEventView::WorkerJoined(o)) => {
            assert(!(acts[i] is Extract));
        },
        (SessionPhase::AwaitFreeSpace, SessionEventView::FreeSpace(a)) => {
            assert(!(acts[i] is Extract));
        },
        (SessionPhase::AwaitDownloadDir, SessionEventView::DownloadDirCreated(r)) => {
            assert(!(acts[i] is Extract));
        },
        (SessionPhase::CheckBeforeSpawn, SessionEventView::ActiveFlag(b)) => {
            assert(!(acts[i] is Extract));
        },
        (SessionPhase::FinalCheck, SessionEventView::ActiveFlag(b)) => {
            if !b {
                assert(!(acts[i] is Extract));
            }
        },
        _ => {
            assert(!(acts[i] is Extract));
        },
    }
}

/// The full pack list (an empty installed version) is asked for at most once,
/// and only when the installed version was not empty and its list was empty.
pub proof fn law_full_list_asked_at_most_once(s: SessionView, e: SessionEventView)
    requires
        session_wf(s),
        has_action(session_next(s, e).1, |a: SessionActionView| a is FetchVersion),
    ensures
        s.phase == (SessionPhase::AwaitVersion { retried: false }),
        s.current_version.len() > 0,
        e matches SessionEventView::VersionFetched(Ok(info)) && info.packs.len() == 0,
        session_next(s, e).0.phase == (SessionPhase::AwaitVersion { retried: true }),
        session_next(s, e).1 == seq![SessionActionView::FetchVersion(Seq::empty())],
{
    let acts = session_next(s, e).1;
    let i = choose|i: int| 0 <= i < acts.len() && acts[i] is FetchVersion;
    match (s.phase, e) {
        (SessionPhase::AwaitVersion { retried }, SessionEventView::VersionFetched(r)) => {
            match r {
                Ok(info) => {
                    if !(info.packs.len() == 0 && s.current_version.len() > 0 && !retried) {
                        assert(!(acts[i] is FetchVersion));
                    }
                },
                Err(_) => {
                    assert(!(acts[i] is FetchVersion));
                },
            }
        },
        (SessionPhase::Extracting, SessionEventView::ExtractionFinished(r)) => {
            assert(!(acts[i] is FetchVersion));
        },
        (SessionPhase::AwaitPermit, SessionEventView::PermitAcquired(ok)) => {
            assert(!(acts[i] is FetchVersion));
        },
        (SessionPhase::Joining, SessionEventView::WorkerJoined(o)) => {
            assert(!(acts[i] is FetchVersion));
        },
        (SessionPhase::AwaitFreeSpace, SessionEventView::FreeSpace(a)) => {
            assert(!(acts[i] is FetchVersion));
        },
        (SessionPhase::AwaitDownloadDir, SessionEventView::DownloadDirCreated(r)) => {
            assert(!(acts[i] is FetchVersion));
        },
        (SessionPhase::CheckBeforeSpawn, SessionEventView::ActiveFlag(b)) => {
            assert(!(acts[i] is FetchVersion));
        },
        (SessionPhase::FinalCheck, SessionEventView::ActiveFlag(b)) => {
            assert(!(acts[i] is FetchVersion));
        },
        _ => {
            assert(!(acts[i] is FetchVersion));
        },
    }
}

/// Once the free space is known, the session refuses to download exactly when
/// the disk holds less than what is still to download (the total less what is
/// already on disk); otherwise it starts the workers.
pub proof fn law_refuses_exactly_when_space_is_short(s: SessionView, avail: u64)
    requires
        session_wf(s),
        s.phase == SessionPhase::AwaitFreeSpace,
    ensures
        avail < bytes_needed(s.total_size, s.existing) ==> {
            &&& session_next(s, SessionEventView::FreeSpace(Some(avail))).0.phase
                == SessionPhase::Finished
            &&& session_next(s, SessionEventView::FreeSpace(Some(avail))).1 == fail_actions(
                disk_space_error(s.download_dir, bytes_needed(s.total_size, s.existing), avail),
            )
        },
        avail >= bytes_needed(s.total_size, s.existing) ==> {
            &&& session_next(s, SessionEventView::FreeSpace(Some(avail))).0.phase
                == SessionPhase::CheckBeforeSpawn
            &&& session_next(s, SessionEventView::FreeSpace(Some(avail))).1 == seq![
                SessionActionView::CheckActive,
            ]
        },
        session_next(s, SessionEventView::FreeSpace(None)).0.phase
            == SessionPhase::CheckBeforeSpawn,
{
}

/// Workers are started one per pack, in pack order, each with its pack, the
/// pack's file name and the shared speed limit, and only after a slot was
/// obtained while the download was active.
pub proof fn law_workers_start_in_pack_order(s: SessionView, e: SessionEventView)
    requires
        session_wf(s),
        has_action(session_next(s, e).1, |a: SessionActionView| a is SpawnWorker),
    ensures
        s.phase == SessionPhase::AwaitPermit,
        e == SessionEventView::PermitAcquired(true),
        session_next(s, e).1[0] == SessionActionView::SpawnWorker(job_at(s, s.spawned as int)),
        job_at(s, s.spawned as int).file_name == last_segment(job_at(s, s.spawned as int).pack.url),
        session_next(s, e).0.spawned == s.spawned + 1,
{
    let acts = session_next(s, e).1;
    let i = choose|i: int| 0 <= i < acts.len() && acts[i] is SpawnWorker;
    match (s.phase, e) {
        (SessionPhase::AwaitPermit, SessionEventView::PermitAcquired(ok)) => {
            if !ok {
                assert(!(acts[i] is SpawnWorker));
            } else {
                let s1 = SessionView { spawned: (s.spawned + 1) as usize, ..s };
                if !(s1.spawned < s.packs.len()) {
                    assert(acts == seq![SessionActionView::SpawnWorker(job_at(s, s.spawned as int))]
                        + after_spawning(s1).1);
                    assert(after_spawning(s1).0.spawned == s1.spawned);
                }
            }
        },
        (SessionPhase::AwaitVersion { retried }, SessionEventView::VersionFetched(r)) => {
            assert(!(acts[i] is SpawnWorker));
        },
        (SessionPhase::Extracting, SessionEventView::ExtractionFinished(r)) => {
            assert(!(acts[i] is SpawnWorker));
        },
        (SessionPhase::Joining, SessionEventView::WorkerJoined(o)) => {
            assert(!(acts[i] is SpawnWorker));
        },
        (SessionPhase::AwaitFreeSpace, SessionEventView::FreeSpace(a)) => {
            assert(!(acts[i] is SpawnWorker));
        },
        (SessionPhase::AwaitDownloadDir, SessionEventView::DownloadDirCreated(r)) => {
            assert(!(acts[i] is SpawnWorker));
        },
        (SessionPhase::CheckBeforeSpawn, SessionEventView::ActiveFlag(b)) => {
            assert(!(acts[i] is SpawnWorker));
        },
        (SessionPhase::FinalCheck, SessionEventView::ActiveFlag(b)) => {
            assert(!(acts[i] is SpawnWorker));
        },
        _ => {
            assert(!(acts[i] is SpawnWorker));
        },
    }
}

/// A session succeeds only when the extraction succeeded; it then removes the
/// pack files, lowers the active flag, reports completion and returns the
/// version that the API named.
pub proof fn law_success_only_after_extraction(s: SessionView, e: SessionEventView, v: Seq<char>)
    requires
        session_wf(s),
        session_next(s, e).1.contains(SessionActionView::Finish(Ok(v))),
    ensures
        s.phase == SessionPhase::Extracting,
        e matches SessionEventView::ExtractionFinished(Ok(_)),
        v == s.version,
        session_next(s, e).1 == seq![
            SessionActionView::RemoveExtractionMarker,
            SessionActionView::RemoveParts(s.names),
            SessionActionView::SetActive(false),
            SessionActionView::EmitComplete(s.version),
            SessionActionView::Finish(Ok(s.version)),
        ],
{
    let acts = session_next(s, e).1;
    let i = choose|i: int| 0 <= i < acts.len() && acts[i] == SessionActionView::Finish(Ok(v));
    match (s.phase, e) {
        (SessionPhase::Extracting, SessionEventView::ExtractionFinished(r)) => {
            if r is Err {
                assert(acts[i] != SessionActionView::Finish(Ok(v)));
            }
        },
        (SessionPhase::AwaitVersion { retried }, SessionEventView::VersionFetched(r)) => {
            assert(acts[i] != SessionActionView::Finish(Ok(v)));
        },
        (SessionPhase::AwaitPermit, SessionEventView::PermitAcquired(ok)) => {
            if ok {
                let s1 = SessionView { spawned: (s.spawned + 1) as usize, ..s };
                if !(s1.spawned < s.packs.len()) {
                    assert(acts == seq![SessionActionView::SpawnWorker(job_at(s, s.spawned as int))]
                        + after_spawning(s1).1);
                }
            }
            assert(acts[i] != SessionActionView::Finish(Ok(v)));
        },
        (SessionPhase::Joining, SessionEventView::WorkerJoined(o)) => {
            assert(acts[i] != SessionActionView::Finish(Ok(v)));
        },
        (SessionPhase::AwaitFreeSpace, SessionEventView::FreeSpace(a)) => {
            assert(acts[i] != SessionActionView::Finish(Ok(v)));
        },
        (SessionPhase::AwaitDownloadDir, SessionEventView::DownloadDirCreated(r)) => {
            assert(acts[i] != SessionActionView::Finish(Ok(v)));
        },
        (SessionPhase::CheckBeforeSpawn, SessionEventView::ActiveFlag(b)) => {
            assert(acts[i] != SessionActionView::Finish(Ok(v)));
        },
        (SessionPhase::FinalCheck, SessionEventView::ActiveFlag(b)) => {
            assert(acts[i] != SessionActionView::Finish(Ok(v)));
        },
        _ => {
            assert(acts[i] != SessionActionView::Finish(Ok(v)));
        },
    }
}

/// Once workers may have been started, a session that fails lowers the active
/// flag in the same step, or has just read it lowered (a cancellation).
pub proof fn law_failures_after_start_lower_active_flag(
    s: SessionView,
    e: SessionEventView,
    err: AppErrorView,
)
    requires
        session_wf(s),
        s.phase == SessionPhase::Joining || s.phase == SessionPhase::FinalCheck || s.phase
            == SessionPhase::Extracting,
        session_next(s, e).1.contains(SessionActionView::Finish(Err(err))),
    ensures
        session_next(s, e).1.contains(SessionActionView::SetActive(false)) || (s.phase
            == SessionPhase::FinalCheck && e == SessionEventView::ActiveFlag(false) && err
            == AppErrorView::Cancelled),
{
    let acts = session_next(s, e).1;
    match (s.phase, e) {
        (SessionPhase::Joining, SessionEventView::WorkerJoined(o)) => {
            match o {
                WorkerOutcomeView::Done => {
                    let i = choose|i: int| 0 <= i < acts.len() && acts[i] == SessionActionView::Finish(Err(err));
                    assert(acts[i] != SessionActionView::Finish(Err(err)));
                },
                _ => {
                    assert(acts[0] == SessionActionView::SetActive(false));
                },
            }
        },
        (SessionPhase::Extracting, SessionEventView::ExtractionFinished(r)) => {
            assert(acts[0] != SessionActionView::Finish(Err(err)));
            if r is Ok {
                assert(acts[2] == SessionActionView::SetActive(false));
            } else {
                assert(acts[0] == SessionActionView::SetActive(false));
            }
        },
        (SessionPhase::Extracting, SessionEventView::ExtractionPanicked(t)) => {
            assert(acts[0] == SessionActionView::SetActive(false));
        },
        (SessionPhase::FinalCheck, SessionEventView::ActiveFlag(b)) => {
            if b {
                let i = choose|i: int| 0 <= i < acts.len() && acts[i] == SessionActionView::Finish(Err(err));
                assert(acts[i] != SessionActionView::Finish(Err(err)));
            }
        },
        _ => {
            let i = choose|i: int| 0 <= i < acts.len() && acts[i] == SessionActionView::Finish(Err(err));
            assert(acts[i] != SessionActionView::Finish(Err(err)));
        },
    }
}

/// Every worker that a session starts is limited to the session's speed limit
/// shared between the workers that may run at once, but never below 1024
/// bytes per second, and is unlimited when the session is; so, above that
/// floor, the workers together stay within the session's limit. The job is the
/// next pack in order, out of all the session's packs.
pub proof fn law_workers_share_the_speed_limit(s: SessionView, e: SessionEventView, j: WorkerJobView)
    requires
        session_wf(s),
        session_next(s, e).1.contains(SessionActionView::SpawnWorker(j)),
    ensures
        j.speed_limit == if s.speed_limit > 0 {
            if s.speed_limit / (s.max_concurrent as u64) >= 1024 {
                s.speed_limit / (s.max_concurrent as u64)
            } else {
                1024
            }
        } else {
            0
        },
        j.speed_limit > 1024 ==> j.speed_limit * s.max_concurrent <= s.speed_limit,
        j.index == s.spawned,
        j.pack == s.packs[j.index as int],
        j.total_files == s.packs.len(),
{
    let acts = session_next(s, e).1;
    let i = choose|i: int| 0 <= i < acts.len() && acts[i] == SessionActionView::SpawnWorker(j);
    match (s.phase, e) {
        (SessionPhase::AwaitPermit, SessionEventView::PermitAcquired(ok)) => {
            if !ok {
                assert(acts[i] != SessionActionView::SpawnWorker(j));
            } else {
                let s1 = SessionView { spawned: (s.spawned + 1) as usize, ..s };
                if !(s1.spawned < s.packs.len()) {
                    assert(acts == seq![SessionActionView::SpawnWorker(job_at(s, s.spawned as int))]
                        + after_spawning(s1).1);
                }
                if i > 0 {
                    assert(acts[i] != SessionActionView::SpawnWorker(j));
                }
                assert(j == job_at(s, s.spawned as int));
                if j.speed_limit > 1024 {
                    let sl = s.speed_limit as int;
                    let mc = s.max_concurrent as int;
                    assert(mc > 0);
                    assert((sl / mc) * mc <= sl) by (nonlinear_arith)
                        requires
                            mc > 0,
                            sl >= 0,
                    ;
                }
            }
        },
        (SessionPhase::AwaitVersion { retried }, SessionEventView::VersionFetched(r)) => {
            assert(acts[i] != SessionActionView::SpawnWorker(j));
        },
        (SessionPhase::Extracting, SessionEventView::ExtractionFinished(r)) => {
            assert(acts[i] != SessionActionView::SpawnWorker(j));
        },
        (SessionPhase::Joining, SessionEventView::WorkerJoined(o)) => {
            assert(acts[i] != SessionActionView::SpawnWorker(j));
        },
        (SessionPhase::AwaitFreeSpace, SessionEventView::FreeSpace(a)) => {
            assert(acts[i] != SessionActionView::SpawnWorker(j));
        },
        (SessionPhase::AwaitDownloadDir, SessionEventView::DownloadDirCreated(r)) => {
            assert(acts[i] != SessionActionView::SpawnWorker(j));
        },
        (SessionPhase::CheckBeforeSpawn, SessionEventView::ActiveFlag(b)) => {
            assert(acts[i] != SessionActionView::SpawnWorker(j));
        },
        (SessionPhase::FinalCheck, SessionEventView::ActiveFlag(b)) => {
            assert(acts[i] != SessionActionView::SpawnWorker(j));
        },
        _ => {
            assert(acts[i] != SessionActionView::SpawnWorker(j));
        },
    }
}

/// A session keeps the speed limit and concurrency that it was started with:
/// no step changes them.
pub proof fn law_session_keeps_its_limits(
    download_dir: Seq<char>,
    current_version: Seq<char>,
    speed_limit: u64,
    max_concurrent: u32,
    s: SessionView,
    e: SessionEventView,
)
    ensures
        session_start(download_dir, current_version, speed_limit, max_concurrent).0.speed_limit
            == speed_limit,
        session_start(download_dir, current_version, speed_limit, max_concurrent).0.max_concurrent
            == max_concurrent,
        session_next(s, e).0.speed_limit == s.speed_limit,
        session_next(s, e).0.max_concurrent == s.max_concurrent,
{
}

} // verus!
