//! The decisions that the launcher's commands make before or around their
//! outside work: limits, refusals, what a command may delete, which signals
//! stop the game, and how the download flags change.

use crate::error::{AppError, AppErrorView};
use crate::paths::{
    download_cache_in, download_cache_name, is_download_cache, join_relative, path_file_name,
};
use crate::text::same_text;
use vstd::prelude::*;
use vstd::string::StringExecFns;

verus! {

/// The fewest pack downloads that run at once.
pub const MIN_CONCURRENT_DOWNLOADS: u32 = 1;

/// The most pack downloads that run at once.
pub const MAX_CONCURRENT_DOWNLOADS: u32 = 8;

/// Where the game's Proton prefix is, and whether it has been created.
pub struct PrefixInfo {
    pub path: String,
    pub exists: bool,
}

/// `n` brought into `MIN_CONCURRENT_DOWNLOADS..=MAX_CONCURRENT_DOWNLOADS`.
pub open spec fn clamped_concurrency(n: u32) -> u32 {
    if n < MIN_CONCURRENT_DOWNLOADS {
        MIN_CONCURRENT_DOWNLOADS
    } else if n > MAX_CONCURRENT_DOWNLOADS {
        MAX_CONCURRENT_DOWNLOADS
    } else {
        n
    }
}

/// The configured number of concurrent downloads, brought into
/// `MIN_CONCURRENT_DOWNLOADS..=MAX_CONCURRENT_DOWNLOADS`.
pub fn clamp_concurrency(n: u32) -> (r: u32)
    ensures
        r == clamped_concurrency(n),
        r == if n < MIN_CONCURRENT_DOWNLOADS {
            MIN_CONCURRENT_DOWNLOADS
        } else if n > MAX_CONCURRENT_DOWNLOADS {
            MAX_CONCURRENT_DOWNLOADS
        } else {
            n
        },
        MIN_CONCURRENT_DOWNLOADS <= r <= MAX_CONCURRENT_DOWNLOADS,
{
    if n < MIN_CONCURRENT_DOWNLOADS {
        MIN_CONCURRENT_DOWNLOADS
    } else if n > MAX_CONCURRENT_DOWNLOADS {
        MAX_CONCURRENT_DOWNLOADS
    } else {
        n
    }
}

// ---------------------------------------------------------------------------
// Refusals
// ---------------------------------------------------------------------------

/// The error of an integrity check without an installed game.
pub open spec fn nothing_to_verify() -> AppErrorView {
    AppErrorView::GameNotFound("Game is not installed; nothing to verify"@)
}

/// An integrity check needs an installed version and the game's executable.
pub fn check_verifiable(installed_version: &str, exe_exists: bool) -> (r: Result<(), AppError>)
    ensures
        r is Ok <==> (installed_version@.len() > 0 && exe_exists),
        r matches Err(e) ==> e@ == nothing_to_verify(),
{
    if installed_version.is_empty() || !exe_exists {
        Err(AppError::GameNotFound(String::from_str("Game is not installed; nothing to verify")))
    } else {
        Ok(())
    }
}

/// A launch is refused while the game runs.
pub fn check_launchable(game_running: bool) -> (r: Result<(), AppError>)
    ensures
        r is Ok <==> !game_running,
        r matches Err(e) ==> e@ == AppErrorView::Api("Game is already running"@),
{
    if game_running {
        Err(AppError::Api(String::from_str("Game is already running")))
    } else {
        Ok(())
    }
}

/// The error when a folder to import holds no game.
pub open spec fn not_a_game_folder(path: Seq<char>) -> AppErrorView {
    AppErrorView::GameNotFound("Endfield.exe not found in "@ + path)
}

/// Importing an existing installation needs the game's executable in the
/// folder; the download cache then goes into that folder.
pub fn plan_import(path: &str, exe_exists: bool) -> (r: Result<String, AppError>)
    ensures
        r is Ok <==> exe_exists,
        r matches Ok(d) ==> d@ == join_relative(path@, download_cache_name()),
        r matches Err(e) ==> e@ == not_a_game_folder(path@),
{
    if !exe_exists {
        let mut msg = String::from_str("Endfield.exe not found in ");
        msg.append(path);
        Err(AppError::GameNotFound(msg))
    } else {
        Ok(download_cache_in(path))
    }
}

/// The error when uninstalling finds no game.
pub open spec fn no_installation_in(game_dir: Seq<char>) -> AppErrorView {
    AppErrorView::GameNotFound("No game installation found in "@ + game_dir)
}

/// What an uninstall may do: refuse while the game runs, refuse where the
/// directory holds neither the game nor an unfinished extraction; otherwise
/// remove the game directory, and the download directory too only when it is
/// the launcher's own `_download` cache (the answer).
pub fn plan_uninstall(
    game_running: bool,
    exe_exists: bool,
    marker_exists: bool,
    game_dir: &str,
    download_dir: &str,
) -> (r: Result<bool, AppError>)
    ensures
        game_running ==> (r matches Err(e) && e@ == AppErrorView::Api(
            "Cannot uninstall while the game is running"@,
        )),
        !game_running && !exe_exists && !marker_exists ==> (r matches Err(e) && e@
            == no_installation_in(game_dir@)),
        !game_running && (exe_exists || marker_exists) ==> r == Ok::<bool, AppError>(
            path_file_name(download_dir@) == Some(download_cache_name()),
        ),
{
    if game_running {
        return Err(AppError::Api(String::from_str("Cannot uninstall while the game is running")));
    }
    if !exe_exists && !marker_exists {
        let mut msg = String::from_str("No game installation found in ");
        msg.append(game_dir);
        return Err(AppError::GameNotFound(msg));
    }
    Ok(is_download_cache(download_dir))
}

/// Discarding a download deletes its directory only when it is the
/// launcher's own `_download` cache, never a folder the user chose.
pub fn may_clear_download_dir(download_dir: &str) -> (b: bool)
    ensures
        b == (path_file_name(download_dir@) == Some(download_cache_name())),
{
    is_download_cache(download_dir)
}

/// The Wine tools that may run inside the game prefix.
pub open spec fn is_prefix_tool(tool: Seq<char>) -> bool {
    tool == "winecfg"@ || tool == "regedit"@
}

/// Only `winecfg` and `regedit` may run inside the prefix.
pub fn check_prefix_tool(tool: &str) -> (r: Result<(), AppError>)
    ensures
        r is Ok <==> is_prefix_tool(tool@),
        r matches Err(e) ==> e@ == AppErrorView::Api("Unknown prefix tool: "@ + tool@),
{
    if same_text(tool, "winecfg") || same_text(tool, "regedit") {
        Ok(())
    } else {
        let mut msg = String::from_str("Unknown prefix tool: ");
        msg.append(tool);
        Err(AppError::Api(msg))
    }
}

/// A prefix is restored only while the game does not run.
pub fn check_prefix_restorable(game_running: bool) -> (r: Result<(), AppError>)
    ensures
        r is Ok <==> !game_running,
        r matches Err(e) ==> e@ == AppErrorView::Api(
            "Cannot restore the prefix while the game is running"@,
        ),
{
    if game_running {
        Err(AppError::Api(String::from_str("Cannot restore the prefix while the game is running")))
    } else {
        Ok(())
    }
}

/// A prefix is reset only while the game does not run.
pub fn check_prefix_resettable(game_running: bool) -> (r: Result<(), AppError>)
    ensures
        r is Ok <==> !game_running,
        r matches Err(e) ==> e@ == AppErrorView::Api(
            "Cannot reset the prefix while the game is running"@,
        ),
{
    if game_running {
        Err(AppError::Api(String::from_str("Cannot reset the prefix while the game is running")))
    } else {
        Ok(())
    }
}

/// The prefix folder is opened only once it exists.
pub fn check_prefix_openable(exists: bool) -> (r: Result<(), AppError>)
    ensures
        r is Ok <==> exists,
        r matches Err(e) ==> e@ == AppErrorView::Api(
            "No Proton prefix exists yet \u{2014} launch the game once first"@,
        ),
{
    if exists {
        Ok(())
    } else {
        Err(
            AppError::Api(
                String::from_str("No Proton prefix exists yet \u{2014} launch the game once first"),
            ),
        )
    }
}

// ---------------------------------------------------------------------------
// Stopping the game
// ---------------------------------------------------------------------------

/// The process group to signal for a recorded game process id, as a signed
/// process id (`pid as i32`).
pub open spec fn group_of(pid: Option<u32>) -> Option<i32> {
    match pid {
        Some(p) => Some(p as i32),
        None => None,
    }
}

/// Stopping the game first asks its whole process group to terminate; with
/// no recorded process there is nothing to do.
pub fn terminate_target(pid: Option<u32>) -> (r: Option<i32>)
    ensures
        r == group_of(pid),
{
    match pid {
        Some(p) => Some(p as i32),
        None => None,
    }
}

/// A few seconds later the group is killed, but only if the game still runs
/// and a process is still recorded.
pub fn kill_target(still_running: bool, pid: Option<u32>) -> (r: Option<i32>)
    ensures
        r == if still_running {
            group_of(pid)
        } else {
            None
        },
{
    if still_running {
        terminate_target(pid)
    } else {
        None
    }
}

// ---------------------------------------------------------------------------
// Download flags
// ---------------------------------------------------------------------------

/// The shared download flags: whether a download runs, and whether the user
/// paused it (partial files are kept for a later resume).
#[derive(PartialEq, Eq, Structural, Clone, Copy, Debug)]
pub struct DownloadFlags {
    pub active: bool,
    pub paused: bool,
}

/// What a command stores into the flags; `None` leaves a flag as it is.
#[derive(PartialEq, Eq, Structural, Clone, Copy, Debug)]
pub struct FlagWrites {
    pub active: Option<bool>,
    pub paused: Option<bool>,
}

/// The flags after the writes.
pub open spec fn applied(f: DownloadFlags, w: FlagWrites) -> DownloadFlags {
    DownloadFlags {
        active: match w.active {
            Some(a) => a,
            None => f.active,
        },
        paused: match w.paused {
            Some(p) => p,
            None => f.paused,
        },
    }
}

/// Applies the writes to the flags.
pub fn apply_writes(f: DownloadFlags, w: FlagWrites) -> (r: DownloadFlags)
    ensures
        r == applied(f, w),
{
    DownloadFlags {
        active: match w.active {
            Some(a) => a,
            None => f.active,
        },
        paused: match w.paused {
            Some(p) => p,
            None => f.paused,
        },
    }
}

/// Starting (or resuming) a download clears the pause; the session itself
/// raises the active flag.
pub fn start_writes() -> (w: FlagWrites)
    ensures
        w == (FlagWrites { active: None, paused: Some(false) }),
{
    FlagWrites { active: None, paused: Some(false) }
}

/// Pausing stops the workers and remembers the pause.
pub fn pause_writes() -> (w: FlagWrites)
    ensures
        w == (FlagWrites { active: Some(false), paused: Some(true) }),
{
    FlagWrites { active: Some(false), paused: Some(true) }
}

/// Cancelling stops the workers and forgets any pause.
pub fn cancel_writes() -> (w: FlagWrites)
    ensures
        w == (FlagWrites { active: Some(false), paused: Some(false) }),
{
    FlagWrites { active: Some(false), paused: Some(false) }
}

/// Discarding the download cache stops the workers.
pub fn discard_writes() -> (w: FlagWrites)
    ensures
        w == (FlagWrites { active: Some(false), paused: None }),
{
    FlagWrites { active: Some(false), paused: None }
}

/// After a pause the download is inactive and reported paused, whatever the
/// flags were; after a cancel it is inactive and not paused; a start or
/// resume clears the pause.
pub proof fn law_pause_cancel_resume(f: DownloadFlags)
    ensures
        applied(f, FlagWrites { active: Some(false), paused: Some(true) }) == (DownloadFlags {
            active: false,
            paused: true,
        }),
        applied(f, FlagWrites { active: Some(false), paused: Some(false) }) == (DownloadFlags {
            active: false,
            paused: false,
        }),
        !applied(f, FlagWrites { active: None, paused: Some(false) }).paused,
        !applied(
            applied(f, FlagWrites { active: Some(false), paused: Some(true) }),
            FlagWrites { active: None, paused: Some(false) },
        ).paused,
{
}

/// The flags after a sequence of writes, applied in order.
pub open spec fn applied_all(f: DownloadFlags, ws: Seq<FlagWrites>) -> DownloadFlags
    decreases ws.len(),
{
    if ws.len() == 0 {
        f
    } else {
        applied(applied_all(f, ws.drop_last()), ws.last())
    }
}

/// The pause flag that the last write of `ws` touching it stored, or the
/// flag of `f` when none touches it.
pub open spec fn last_pause_write(f: DownloadFlags, ws: Seq<FlagWrites>) -> bool
    decreases ws.len(),
{
    if ws.len() == 0 {
        f.paused
    } else {
        match ws.last().paused {
            Some(p) => p,
            None => last_pause_write(f, ws.drop_last()),
        }
    }
}

/// Whatever sequence of commands writes the flags, the download is reported
/// paused exactly when the last command that wrote the pause flag was a
/// pause: a start, resume or cancel written later clears it, and a discard
/// of the download cache leaves it as it was.
pub proof fn law_paused_is_the_last_pause_write(f: DownloadFlags, ws: Seq<FlagWrites>)
    ensures
        applied_all(f, ws).paused == last_pause_write(f, ws),
    decreases ws.len(),
{
    if ws.len() > 0 {
        law_paused_is_the_last_pause_write(f, ws.drop_last());
    }
}

/// After a pause, any sequence of writes with no start, resume or cancel
/// among them (none that writes the pause flag) leaves the download paused;
/// a start, resume or cancel after them clears the pause.
pub proof fn law_pause_lasts_until_cleared(f: DownloadFlags, ws: Seq<FlagWrites>)
    requires
        forall|i: int| 0 <= i < ws.len() ==> (#[trigger] ws[i]).paused is None,
    ensures
        applied_all(f, seq![FlagWrites { active: Some(false), paused: Some(true) }] + ws).paused,
        !applied_all(
            f,
            seq![FlagWrites { active: Some(false), paused: Some(true) }] + ws + seq![
                FlagWrites { active: None, paused: Some(false) },
            ],
        ).paused,
        !applied_all(
            f,
            seq![FlagWrites { active: Some(false), paused: Some(true) }] + ws + seq![
                FlagWrites { active: Some(false), paused: Some(false) },
            ],
        ).paused,
{
    let pause = FlagWrites { active: Some(false), paused: Some(true) };
    let all = seq![pause] + ws;
    lemma_no_pause_write_keeps(f, seq![pause], ws);
    law_paused_is_the_last_pause_write(f, all);
    let start = seq![FlagWrites { active: None, paused: Some(false) }];
    let cancel = seq![FlagWrites { active: Some(false), paused: Some(false) }];
    assert((all + start).drop_last() =~= all);
    assert((all + cancel).drop_last() =~= all);
}

proof fn lemma_no_pause_write_keeps(f: DownloadFlags, pre: Seq<FlagWrites>, ws: Seq<FlagWrites>)
    requires
        forall|i: int| 0 <= i < ws.len() ==> (#[trigger] ws[i]).paused is None,
    ensures
        last_pause_write(f, pre + ws) == last_pause_write(f, pre),
    decreases ws.len(),
{
    if ws.len() == 0 {
        assert(pre + ws =~= pre);
    } else {
        assert((pre + ws).drop_last() =~= pre + ws.drop_last());
        assert(ws.last() == ws[ws.len() - 1]);
        lemma_no_pause_write_keeps(f, pre, ws.drop_last());
    }
}

} // verus!
