//! Updating an installed game, as a state machine: the update takes the cheap
//! per-file route only when every engine (non-asset) file is known to be
//! current, and downloads the full packs when the engine changed or the check
//! is inconclusive. Either way the install ends complete, and the installed
//! version is saved.

use crate::commands::{clamp_concurrency, clamped_concurrency};
use crate::error::{AppError, AppErrorView};
use crate::types::DownloadComplete;
use vstd::prelude::*;
use vstd::string::StringExecFns;

verus! {

/// Where an update stands: what it waits for next.
#[derive(PartialEq, Eq, Structural, Clone, Copy, Debug)]
pub enum UpdatePhase {
    AwaitVersion,
    AwaitCentralDirectory,
    AwaitEngineCheck,
    /// Waiting for the transfer; `delta` for the per-file route.
    AwaitTransfer { delta: bool },
    AwaitSave,
    Finished,
}

/// What the caller reports back to an update.
pub enum UpdateEvent {
    /// The result of `FetchVersion`: the latest version's name.
    VersionFetched(Result<String, AppError>),
    /// The result of `FetchCentralDirectory`: whether the packs' index was read.
    CentralDirectoryFetched(bool),
    /// The result of `CheckEngine`: whether every engine file is current;
    /// `None` when the check itself failed.
    EngineChecked(Option<bool>),
    /// The result of `RunDelta`.
    DeltaFinished(Result<(), AppError>),
    /// The result of `RunFullDownload`: the version then installed.
    FullDownloadFinished(Result<String, AppError>),
    /// The result of `SaveInstalledVersion`.
    Saved(Result<(), AppError>),
}

/// What an update asks the caller to do, in order.
pub enum UpdateAction {
    SetPaused(bool),
    SetActive(bool),
    /// Tell the frontend that the engine files are being checked.
    EmitChecking,
    /// Ask the API for the latest version relative to this installed version.
    FetchVersion(String),
    /// Read the index (ZIP central directory) of the latest packs.
    FetchCentralDirectory,
    /// Check the engine files on disk against that index.
    CheckEngine,
    /// Verify the assets in `game_dir` and download only the changed ones,
    /// with at most `max_concurrent` transfers at once, reporting on `channel`.
    RunDelta { game_dir: String, max_concurrent: u32, channel: String },
    /// Download and extract all packs (a download session) into `download_dir`
    /// and `game_dir`, from `current_version` on, with this speed limit (zero
    /// for none) and at most `max_concurrent` pack downloads at once.
    RunFullDownload {
        download_dir: String,
        game_dir: String,
        current_version: String,
        speed_limit: u64,
        max_concurrent: u32,
    },
    /// Tell the frontend that the per-file update completed at this version.
    EmitUpdateComplete(DownloadComplete),
    /// Record this version as installed, in the saved settings.
    SaveInstalledVersion(String),
    /// Tell the frontend that the update failed with this error's message.
    EmitUpdateError(AppError),
    /// The update ends with this result.
    Finish(Result<(), AppError>),
}

#[verifier::ext_equal]
pub struct UpdateView {
    pub game_dir: Seq<char>,
    pub download_dir: Seq<char>,
    pub installed_version: Seq<char>,
    pub speed_limit: u64,
    pub max_concurrent: u32,
    pub phase: UpdatePhase,
    pub version: Seq<char>,
}

pub enum UpdateEventView {
    VersionFetched(Result<Seq<char>, AppErrorView>),
    CentralDirectoryFetched(bool),
    EngineChecked(Option<bool>),
    DeltaFinished(Result<(), AppErrorView>),
    FullDownloadFinished(Result<Seq<char>, AppErrorView>),
    Saved(Result<(), AppErrorView>),
}

pub enum UpdateActionView {
    SetPaused(bool),
    SetActive(bool),
    EmitChecking,
    FetchVersion(Seq<char>),
    FetchCentralDirectory,
    CheckEngine,
    RunDelta { game_dir: Seq<char>, max_concurrent: u32, channel: Seq<char> },
    RunFullDownload {
        download_dir: Seq<char>,
        game_dir: Seq<char>,
        current_version: Seq<char>,
        speed_limit: u64,
        max_concurrent: u32,
    },
    EmitUpdateComplete(Seq<char>),
    SaveInstalledVersion(Seq<char>),
    EmitUpdateError(AppErrorView),
    Finish(Result<(), AppErrorView>),
}

/// The view of a result that carries a text.
pub open spec fn text_result_view(r: Result<String, AppError>) -> Result<Seq<char>, AppErrorView> {
    match r {
        Ok(v) => Ok(v@),
        Err(e) => Err(e@),
    }
}

/// The view of a unit result.
pub open spec fn done_result_view(r: Result<(), AppError>) -> Result<(), AppErrorView> {
    match r {
        Ok(_) => Ok(()),
        Err(e) => Err(e@),
    }
}

impl View for UpdateEvent {
    type V = UpdateEventView;

    open spec fn view(&self) -> UpdateEventView {
        match self {
            UpdateEvent::VersionFetched(r) => UpdateEventView::VersionFetched(text_result_view(*r)),
            UpdateEvent::CentralDirectoryFetched(b) => UpdateEventView::CentralDirectoryFetched(*b),
            UpdateEvent::EngineChecked(c) => UpdateEventView::EngineChecked(*c),
            UpdateEvent::DeltaFinished(r) => UpdateEventView::DeltaFinished(done_result_view(*r)),
            UpdateEvent::FullDownloadFinished(r) => UpdateEventView::FullDownloadFinished(
                text_result_view(*r),
            ),
            UpdateEvent::Saved(r) => UpdateEventView::Saved(done_result_view(*r)),
        }
    }
}

impl View for UpdateAction {
    type V = UpdateActionView;

    open spec fn view(&self) -> UpdateActionView {
        match self {
            UpdateAction::SetPaused(b) => UpdateActionView::SetPaused(*b),
            UpdateAction::SetActive(b) => UpdateActionView::SetActive(*b),
            UpdateAction::EmitChecking => UpdateActionView::EmitChecking,
            UpdateAction::FetchVersion(v) => UpdateActionView::FetchVersion(v@),
            UpdateAction::FetchCentralDirectory => UpdateActionView::FetchCentralDirectory,
            UpdateAction::CheckEngine => UpdateActionView::CheckEngine,
            UpdateAction::RunDelta { game_dir, max_concurrent, channel } => {
                UpdateActionView::RunDelta {
                    game_dir: game_dir@,
                    max_concurrent: *max_concurrent,
                    channel: channel@,
                }
            },
            UpdateAction::RunFullDownload {
                download_dir,
                game_dir,
                current_version,
                speed_limit,
                max_concurrent,
            } => UpdateActionView::RunFullDownload {
                download_dir: download_dir@,
                game_dir: game_dir@,
                current_version: current_version@,
                speed_limit: *speed_limit,
                max_concurrent: *max_concurrent,
            },
            UpdateAction::EmitUpdateComplete(c) => UpdateActionView::EmitUpdateComplete(
                c.version@,
            ),
            UpdateAction::SaveInstalledVersion(v) => UpdateActionView::SaveInstalledVersion(v@),
            UpdateAction::EmitUpdateError(e) => UpdateActionView::EmitUpdateError(e@),
            UpdateAction::Finish(r) => UpdateActionView::Finish(done_result_view(*r)),
        }
    }
}

pub open spec fn update_actions_view(v: Seq<UpdateAction>) -> Seq<UpdateActionView> {
    v.map_values(|a: UpdateAction| a@)
}

/// The first state of an update for the configured game and download
/// directories, installed version, speed limit and concurrency (brought into
/// its bounds), and its first actions: clear a pause, raise the active flag,
/// tell the frontend that the engine is being checked, and ask for the full
/// list of the latest version.
pub open spec fn update_start(
    game_dir: Seq<char>,
    download_dir: Seq<char>,
    installed_version: Seq<char>,
    speed_limit: u64,
    max_concurrent: u32,
) -> (UpdateView, Seq<UpdateActionView>) {
    (
        UpdateView {
            game_dir,
            download_dir,
            installed_version,
            speed_limit,
            max_concurrent: clamped_concurrency(max_concurrent),
            phase: UpdatePhase::AwaitVersion,
            version: Seq::empty(),
        },
        seq![
            UpdateActionView::SetPaused(false),
            UpdateActionView::SetActive(true),
            UpdateActionView::EmitChecking,
            UpdateActionView::FetchVersion(Seq::empty()),
        ],
    )
}

/// The per-file transfer: the assets of the game directory, at the update's
/// concurrency, reported on the update channel.
pub open spec fn delta_transfer(s: UpdateView) -> UpdateActionView {
    UpdateActionView::RunDelta {
        game_dir: s.game_dir,
        max_concurrent: s.max_concurrent,
        channel: "update"@,
    }
}

/// The full transfer: a download session from the installed version on, with
/// the update's directories, speed limit and concurrency.
pub open spec fn full_transfer(s: UpdateView) -> UpdateActionView {
    UpdateActionView::RunFullDownload {
        download_dir: s.download_dir,
        game_dir: s.game_dir,
        current_version: s.installed_version,
        speed_limit: s.speed_limit,
        max_concurrent: s.max_concurrent,
    }
}

/// The transfer for an engine check's answer.
pub open spec fn transfer_for(s: UpdateView, current: bool) -> (UpdateView, Seq<UpdateActionView>) {
    (
        UpdateView { phase: UpdatePhase::AwaitTransfer { delta: current }, ..s },
        seq![
            if current {
                delta_transfer(s)
            } else {
                full_transfer(s)
            },
        ],
    )
}

/// After the transfer: lower the active flag, then save the version reached,
/// or report the error and fail.
pub open spec fn after_transfer(s: UpdateView, delta: bool, r: Result<Seq<char>, AppErrorView>) -> (
    UpdateView,
    Seq<UpdateActionView>,
) {
    match r {
        Ok(v) => (
            UpdateView { phase: UpdatePhase::AwaitSave, version: v, ..s },
            if delta {
                seq![
                    UpdateActionView::SetActive(false),
                    UpdateActionView::EmitUpdateComplete(v),
                    UpdateActionView::SaveInstalledVersion(v),
                ]
            } else {
                seq![
                    UpdateActionView::SetActive(false),
                    UpdateActionView::SaveInstalledVersion(v),
                ]
            },
        ),
        Err(e) => (
            UpdateView { phase: UpdatePhase::Finished, ..s },
            seq![
                UpdateActionView::SetActive(false),
                UpdateActionView::EmitUpdateError(e),
                UpdateActionView::Finish(Err(e)),
            ],
        ),
    }
}

/// How an update answers one event. An event that the current phase does not
/// wait for changes nothing.
pub open spec fn update_next(s: UpdateView, e: UpdateEventView) -> (UpdateView, Seq<UpdateActionView>) {
    match (s.phase, e) {
        (UpdatePhase::AwaitVersion, UpdateEventView::VersionFetched(r)) => match r {
            Err(err) => (
                UpdateView { phase: UpdatePhase::Finished, ..s },
                seq![UpdateActionView::Finish(Err(err))],
            ),
            Ok(v) => (
                UpdateView { phase: UpdatePhase::AwaitCentralDirectory, version: v, ..s },
                seq![UpdateActionView::FetchCentralDirectory],
            ),
        },
        (UpdatePhase::AwaitCentralDirectory, UpdateEventView::CentralDirectoryFetched(ok)) => if ok {
            (
                UpdateView { phase: UpdatePhase::AwaitEngineCheck, ..s },
                seq![UpdateActionView::CheckEngine],
            )
        } else {
            transfer_for(s, false)
        },
        (UpdatePhase::AwaitEngineCheck, UpdateEventView::EngineChecked(c)) => transfer_for(
            s,
            c == Some(true),
        ),
        (UpdatePhase::AwaitTransfer { delta }, UpdateEventView::DeltaFinished(r)) => if delta {
            after_transfer(
                s,
                true,
                match r {
                    Ok(_) => Ok(s.version),
                    Err(err) => Err(err),
                },
            )
        } else {
            (s, Seq::empty())
        },
        (UpdatePhase::AwaitTransfer { delta }, UpdateEventView::FullDownloadFinished(r)) => if !delta {
            after_transfer(s, false, r)
        } else {
            (s, Seq::empty())
        },
        (UpdatePhase::AwaitSave, UpdateEventView::Saved(r)) => (
            UpdateView { phase: UpdatePhase::Finished, ..s },
            seq![UpdateActionView::Finish(r)],
        ),
        _ => (s, Seq::empty()),
    }
}

/// One update of an installed game.
pub struct GameUpdate {
    game_dir: String,
    download_dir: String,
    installed_version: String,
    speed_limit: u64,
    max_concurrent: u32,
    phase: UpdatePhase,
    version: String,
}

impl View for GameUpdate {
    type V = UpdateView;

    closed spec fn view(&self) -> UpdateView {
        UpdateView {
            game_dir: self.game_dir@,
            download_dir: self.download_dir@,
            installed_version: self.installed_version@,
            speed_limit: self.speed_limit,
            max_concurrent: self.max_concurrent,
            phase: self.phase,
            version: self.version@,
        }
    }
}

fn push_update_action(v: &mut Vec<UpdateAction>, a: UpdateAction)
    ensures
        update_actions_view(final(v)@) == update_actions_view(old(v)@).push(a@),
{
    let ghost before = v@;
    v.push(a);
    assert(v@ =~= before.push(a));
    assert(update_actions_view(v@) =~= update_actions_view(before).push(a@));
}

impl GameUpdate {
    /// Starts an update of the game in `game_dir`, installed at
    /// `installed_version`, whose packs go to `download_dir`, with a speed
    /// limit (zero for none) and the configured concurrency (see
    /// `update_start`).
    pub fn new(
        game_dir: String,
        download_dir: String,
        installed_version: String,
        speed_limit: u64,
        max_concurrent: u32,
    ) -> (r: (GameUpdate, Vec<UpdateAction>))
        ensures
            (r.0@, update_actions_view(r.1@)) == update_start(
                game_dir@,
                download_dir@,
                installed_version@,
                speed_limit,
                max_concurrent,
            ),
    {
        let ghost start = update_start(
            game_dir@,
            download_dir@,
            installed_version@,
            speed_limit,
            max_concurrent,
        );
        let u = GameUpdate {
            game_dir,
            download_dir,
            installed_version,
            speed_limit,
            max_concurrent: clamp_concurrency(max_concurrent),
            phase: UpdatePhase::AwaitVersion,
            version: String::new(),
        };
        let mut v: Vec<UpdateAction> = Vec::new();
        push_update_action(&mut v, UpdateAction::SetPaused(false));
        push_update_action(&mut v, UpdateAction::SetActive(true));
        push_update_action(&mut v, UpdateAction::EmitChecking);
        push_update_action(&mut v, UpdateAction::FetchVersion(String::new()));
        assert(u@ =~= start.0);
        assert(update_actions_view(v@) =~= start.1);
        (u, v)
    }

    /// Where the update stands.
    pub fn phase(&self) -> (p: UpdatePhase)
        ensures
            p == self@.phase,
    {
        self.phase
    }

    fn transfer(&mut self, current: bool) -> (v: Vec<UpdateAction>)
        ensures
            final(self)@ == transfer_for(old(self)@, current).0,
            update_actions_view(v@) == transfer_for(old(self)@, current).1,
    {
        let ghost s = self@;
        self.phase = UpdatePhase::AwaitTransfer { delta: current };
        let mut v: Vec<UpdateAction> = Vec::new();
        if current {
            push_update_action(
                &mut v,
                UpdateAction::RunDelta {
                    game_dir: self.game_dir.clone(),
                    max_concurrent: self.max_concurrent,
                    channel: String::from_str("update"),
                },
            );
        } else {
            push_update_action(
                &mut v,
                UpdateAction::RunFullDownload {
                    download_dir: self.download_dir.clone(),
                    game_dir: self.game_dir.clone(),
                    current_version: self.installed_version.clone(),
                    speed_limit: self.speed_limit,
                    max_concurrent: self.max_concurrent,
                },
            );
        }
        assert(update_actions_view(v@) =~= transfer_for(s, current).1);
        assert(self@ =~= transfer_for(s, current).0);
        v
    }

    fn finish_transfer(&mut self, delta: bool, r: Result<String, AppError>) -> (v: Vec<UpdateAction>)
        ensures
            final(self)@ == after_transfer(old(self)@, delta, text_result_view(r)).0,
            update_actions_view(v@) == after_transfer(old(self)@, delta, text_result_view(r)).1,
    {
        let ghost s = self@;
        let mut v: Vec<UpdateAction> = Vec::new();
        push_update_action(&mut v, UpdateAction::SetActive(false));
        match r {
            Ok(ver) => {
                if delta {
                    push_update_action(
                        &mut v,
                        UpdateAction::EmitUpdateComplete(DownloadComplete { version: ver.clone() }),
                    );
                }
                push_update_action(&mut v, UpdateAction::SaveInstalledVersion(ver.clone()));
                self.phase = UpdatePhase::AwaitSave;
                self.version = ver;
            },
            Err(e) => {
                push_update_action(&mut v, UpdateAction::EmitUpdateError(e.duplicate()));
                push_update_action(&mut v, UpdateAction::Finish(Err(e)));
                self.phase = UpdatePhase::Finished;
            },
        }
        assert(update_actions_view(v@) =~= after_transfer(s, delta, text_result_view(r)).1);
        assert(self@ =~= after_transfer(s, delta, text_result_view(r)).0);
        v
    }

    /// Takes one event: the update moves on and says what to do next.
    pub fn step(&mut self, event: UpdateEvent) -> (actions: Vec<UpdateAction>)
        ensures
            final(self)@ == update_next(old(self)@, event@).0,
            update_actions_view(actions@) == update_next(old(self)@, event@).1,
    {
        let ghost s = self@;
        let ghost e = event@;
        match event {
            UpdateEvent::VersionFetched(r) => {
                if self.phase == UpdatePhase::AwaitVersion {
                    let mut v: Vec<UpdateAction> = Vec::new();
                    match r {
                        Err(err) => {
                            self.phase = UpdatePhase::Finished;
                            push_update_action(&mut v, UpdateAction::Finish(Err(err)));
                        },
                        Ok(ver) => {
                            self.phase = UpdatePhase::AwaitCentralDirectory;
                            self.version = ver;
                            push_update_action(&mut v, UpdateAction::FetchCentralDirectory);
                        },
                    }
                    assert(update_actions_view(v@) =~= update_next(s, e).1);
                    assert(self@ =~= update_next(s, e).0);
                    v
                } else {
                    Vec::new()
                }
            },
            UpdateEvent::CentralDirectoryFetched(ok) => {
                if self.phase == UpdatePhase::AwaitCentralDirectory {
                    if ok {
                        self.phase = UpdatePhase::AwaitEngineCheck;
                        let mut v: Vec<UpdateAction> = Vec::new();
                        push_update_action(&mut v, UpdateAction::CheckEngine);
                        assert(update_actions_view(v@) =~= update_next(s, e).1);
                        assert(self@ =~= update_next(s, e).0);
                        v
                    } else {
                        self.transfer(false)
                    }
                } else {
                    Vec::new()
                }
            },
            UpdateEvent::EngineChecked(c) => {
                if self.phase == UpdatePhase::AwaitEngineCheck {
                    let current = match c {
                        Some(b) => b,
                        None => false,
                    };
                    self.transfer(current)
                } else {
                    Vec::new()
                }
            },
            UpdateEvent::DeltaFinished(r) => {
                if self.phase == (UpdatePhase::AwaitTransfer { delta: true }) {
                    let rv = match r {
                        Ok(_) => Ok(self.version.clone()),
                        Err(err) => Err(err),
                    };
                    self.finish_transfer(true, rv)
                } else {
                    Vec::new()
                }
            },
            UpdateEvent::FullDownloadFinished(r) => {
                if self.phase == (UpdatePhase::AwaitTransfer { delta: false }) {
                    self.finish_transfer(false, r)
                } else {
                    Vec::new()
                }
            },
            UpdateEvent::Saved(r) => {
                if self.phase == UpdatePhase::AwaitSave {
                    self.phase = UpdatePhase::Finished;
                    let mut v: Vec<UpdateAction> = Vec::new();
                    push_update_action(&mut v, UpdateAction::Finish(r));
                    assert(update_actions_view(v@) =~= update_next(s, e).1);
                    assert(self@ =~= update_next(s, e).0);
                    v
                } else {
                    Vec::new()
                }
            },
        }
    }
}

// ---------------------------------------------------------------------------
// Laws of an update
// ---------------------------------------------------------------------------

/// Some action of `acts` has the property `p`.
pub open spec fn has_update_action(acts: Seq<UpdateActionView>, p: spec_fn(UpdateActionView) -> bool) -> bool {
    exists|i: int| 0 <= i < acts.len() && #[trigger] p(acts[i])
}

/// The per-file route is taken only when the packs' index was read and the
/// check found every engine file current; it is handed the game directory,
/// the update's concurrency and the update channel. A failed index read or a
/// failed or negative check leads to the full download, handed the
/// directories, the installed version, the speed limit and the concurrency.
pub proof fn law_delta_only_when_engine_is_current(s: UpdateView, e: UpdateEventView)
    ensures
        has_update_action(update_next(s, e).1, |a: UpdateActionView| a is RunDelta) ==> {
            &&& s.phase == UpdatePhase::AwaitEngineCheck
            &&& e == UpdateEventView::EngineChecked(Some(true))
            &&& update_next(s, e).1 == seq![delta_transfer(s)]
        },
        s.phase == UpdatePhase::AwaitCentralDirectory && e
            == UpdateEventView::CentralDirectoryFetched(false) ==> update_next(s, e).1 == seq![
            full_transfer(s),
        ],
        s.phase == UpdatePhase::AwaitEngineCheck && e != UpdateEventView::EngineChecked(Some(true))
            && e is EngineChecked ==> update_next(s, e).1 == seq![full_transfer(s)],
{
    let acts = update_next(s, e).1;
    if has_update_action(acts, |a: UpdateActionView| a is RunDelta) {
        let i = choose|i: int| 0 <= i < acts.len() && acts[i] is RunDelta;
        match (s.phase, e) {
            (UpdatePhase::AwaitEngineCheck, UpdateEventView::EngineChecked(c)) => {
                if c != Some(true) {
                    assert(!(acts[i] is RunDelta));
                }
            },
            (UpdatePhase::AwaitCentralDirectory, UpdateEventView::CentralDirectoryFetched(ok)) => {
                assert(!(acts[i] is RunDelta));
            },
            (UpdatePhase::AwaitTransfer { delta }, UpdateEventView::DeltaFinished(r)) => {
                assert(!(acts[i] is RunDelta));
            },
            (UpdatePhase::AwaitTransfer { delta }, UpdateEventView::FullDownloadFinished(r)) => {
                assert(!(acts[i] is RunDelta));
            },
            _ => {
                assert(!(acts[i] is RunDelta));
            },
        }
    }
}

/// No step changes what the update was started with: its directories,
/// installed version, speed limit and concurrency, which therefore are what
/// the transfers are handed; the concurrency stays within its bounds.
pub proof fn law_update_keeps_its_settings(
    game_dir: Seq<char>,
    download_dir: Seq<char>,
    installed_version: Seq<char>,
    speed_limit: u64,
    max_concurrent: u32,
    s: UpdateView,
    e: UpdateEventView,
)
    requires
        s.game_dir == game_dir,
        s.download_dir == download_dir,
        s.installed_version == installed_version,
        s.speed_limit == speed_limit,
        s.max_concurrent == clamped_concurrency(max_concurrent),
    ensures
        update_start(game_dir, download_dir, installed_version, speed_limit, max_concurrent).0.game_dir
            == game_dir,
        update_start(game_dir, download_dir, installed_version, speed_limit, max_concurrent).0.max_concurrent
            == clamped_concurrency(max_concurrent),
        1 <= clamped_concurrency(max_concurrent) <= 8,
        update_next(s, e).0.game_dir == game_dir,
        update_next(s, e).0.download_dir == download_dir,
        update_next(s, e).0.installed_version == installed_version,
        update_next(s, e).0.speed_limit == speed_limit,
        update_next(s, e).0.max_concurrent == clamped_concurrency(max_concurrent),
{
}

/// Whatever way a transfer ends, the active flag is lowered first; a
/// successful transfer saves the version reached (the latest version for the
/// per-file route, the downloaded one for the full route), a failed one is
/// reported and ends the update.
pub proof fn law_transfer_end(s: UpdateView, delta: bool, r: Result<Seq<char>, AppErrorView>)
    ensures
        after_transfer(s, delta, r).1[0] == UpdateActionView::SetActive(false),
        r matches Ok(v) ==> after_transfer(s, delta, r).1.last()
            == UpdateActionView::SaveInstalledVersion(v),
        r matches Err(err) ==> after_transfer(s, delta, r).1 == seq![
            UpdateActionView::SetActive(false),
            UpdateActionView::EmitUpdateError(err),
            UpdateActionView::Finish(Err(err)),
        ],
{
}

/// The per-file route saves the version that the API named before the check.
pub proof fn law_delta_saves_the_latest_version(s: UpdateView)
    requires
        s.phase == (UpdatePhase::AwaitTransfer { delta: true }),
    ensures
        update_next(s, UpdateEventView::DeltaFinished(Ok(()))).1 == seq![
            UpdateActionView::SetActive(false),
            UpdateActionView::EmitUpdateComplete(s.version),
            UpdateActionView::SaveInstalledVersion(s.version),
        ],
{
}

/// An update starts by clearing the pause flag (as a start or resume of a
/// download does, the write `FlagWrites { active: None, paused: Some(false) }`)
/// before it raises the active flag.
pub proof fn law_update_clears_the_pause(
    game_dir: Seq<char>,
    download_dir: Seq<char>,
    installed_version: Seq<char>,
    speed_limit: u64,
    max_concurrent: u32,
)
    ensures
        update_start(game_dir, download_dir, installed_version, speed_limit, max_concurrent).1[0]
            == UpdateActionView::SetPaused(false),
        update_start(game_dir, download_dir, installed_version, speed_limit, max_concurrent).1[1]
            == UpdateActionView::SetActive(true),
{
}

/// Once an update has ended, no event changes it or asks for anything.
pub proof fn law_update_finished_is_final(s: UpdateView, e: UpdateEventView)
    requires
        s.phase == UpdatePhase::Finished,
    ensures
        update_next(s, e) == (s, Seq::<UpdateActionView>::empty()),
{
}

} // verus!
