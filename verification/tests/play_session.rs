use llauncher::play_session::{exit_report, GameSession};

#[test]
fn a_quick_exit_is_a_failed_launch_and_not_journaled() {
    let r = exit_report(Some(Some(1)), 2, 0, 1_700_000_000, 100);
    assert!(r.quick_exit);
    assert_eq!(r.total_playtime_secs, 102);
    assert_eq!(r.last_played, 1_700_000_000);
    assert_eq!(r.journal_entry, None);
    assert_eq!(r.launch_failed, Some(Some(1)));
    assert_eq!(r.exited.exit_code, Some(1));
}

#[test]
fn the_quick_exit_limit_is_three_and_a_half_seconds() {
    assert!(exit_report(Some(Some(0)), 3, 499_999_999, 0, 0).quick_exit);
    assert!(!exit_report(Some(Some(0)), 3, 500_000_000, 0, 0).quick_exit);
    assert!(!exit_report(Some(Some(0)), 4, 0, 0, 0).quick_exit);
}

#[test]
fn a_normal_session_is_journaled() {
    let r = exit_report(Some(Some(0)), 3600, 5, 1_000, 50);
    assert!(!r.quick_exit);
    assert_eq!(r.total_playtime_secs, 3650);
    assert_eq!(r.journal_entry, Some(GameSession { start: 1_000, duration_secs: 3600 }));
    assert_eq!(r.launch_failed, None);
    assert_eq!(r.exited.exit_code, Some(0));
}

#[test]
fn an_unknown_status_is_never_a_quick_exit() {
    let r = exit_report(None, 1, 0, 10, 0);
    assert!(!r.quick_exit);
    assert_eq!(r.journal_entry, Some(GameSession { start: 10, duration_secs: 1 }));
    assert_eq!(r.exited.exit_code, None);
    let r = exit_report(Some(None), 1, 0, 10, 0);
    assert!(r.quick_exit);
    assert_eq!(r.launch_failed, Some(None));
    assert_eq!(r.exited.exit_code, None);
}
