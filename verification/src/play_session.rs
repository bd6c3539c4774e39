//! What the launcher records when the game exits: play time, the session
//! journal, and whether the exit was a failed launch.

use crate::types::GameExited;
use vstd::prelude::*;

verus! {

/// An exit sooner than this after the start, in milliseconds, is a failed launch.
pub const QUICK_EXIT_MILLIS: u64 = 3500;

/// One play session of the journal.
#[derive(PartialEq, Eq, Structural, Clone, Copy, Debug)]
pub struct GameSession {
    /// When the session started, in seconds since the Unix epoch.
    pub start: u64,
    /// How long it lasted, in whole seconds.
    pub duration_secs: u64,
}

/// What to record and report after the game exited.
#[derive(Debug)]
pub struct ExitReport {
    /// The game exited with a known status sooner than `QUICK_EXIT_MILLIS`.
    pub quick_exit: bool,
    /// The total play time, this session included.
    pub total_playtime_secs: u64,
    /// When the game was last played: this session's start.
    pub last_played: u64,
    /// The session to add to the journal; none for a failed launch.
    pub journal_entry: Option<GameSession>,
    /// For a failed launch, the exit code to report with the end of the log.
    pub launch_failed: Option<Option<i32>>,
    /// The exit to report in every case.
    pub exited: GameExited,
}

/// The game ran for `secs` seconds and `nanos` nanoseconds and ended with a
/// known status sooner than `QUICK_EXIT_MILLIS`.
pub open spec fn is_quick_exit(status_known: bool, secs: u64, nanos: u32) -> bool {
    status_known && secs * 1000000000 + nanos < QUICK_EXIT_MILLIS * 1000000
}

/// What the launcher records after the game exited. `status` is the exit
/// status when it could be read (with the exit code, if the process had one),
/// `secs` and `nanos` the time since the start, `session_start` the start in
/// seconds since the Unix epoch, and `total_playtime_secs` the play time so far.
pub fn exit_report(
    status: Option<Option<i32>>,
    secs: u64,
    nanos: u32,
    session_start: u64,
    total_playtime_secs: u64,
) -> (r: ExitReport)
    requires
        nanos < 1000000000,
        total_playtime_secs + secs <= u64::MAX,
    ensures
        r.quick_exit == is_quick_exit(status is Some, secs, nanos),
        r.total_playtime_secs == total_playtime_secs + secs,
        r.last_played == session_start,
        r.journal_entry == if r.quick_exit {
            None
        } else {
            Some(GameSession { start: session_start, duration_secs: secs })
        },
        r.launch_failed == if r.quick_exit {
            status
        } else {
            None
        },
        r.exited.exit_code == match status {
            Some(code) => code,
            None => None,
        },
{
    let quick = status.is_some() && (secs < 3 || (secs == 3 && nanos < 500000000));
    let code = match status {
        Some(c) => c,
        None => None,
    };
    ExitReport {
        quick_exit: quick,
        total_playtime_secs: total_playtime_secs + secs,
        last_played: session_start,
        journal_entry: if quick {
            None
        } else {
            Some(GameSession { start: session_start, duration_secs: secs })
        },
        launch_failed: if quick {
            status
        } else {
            None
        },
        exited: GameExited { exit_code: code },
    }
}

} // verus!
