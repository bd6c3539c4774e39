use llauncher::commands::{
    apply_writes, cancel_writes, check_launchable, check_prefix_openable, check_prefix_resettable,
    check_prefix_restorable, check_prefix_tool, check_verifiable, clamp_concurrency, discard_writes,
    kill_target, may_clear_download_dir, pause_writes, plan_import, plan_uninstall, start_writes,
    terminate_target, DownloadFlags, PrefixInfo,
};
use llauncher::error::AppError;

#[test]
fn concurrency_is_brought_into_one_to_eight() {
    assert_eq!(clamp_concurrency(0), 1);
    assert_eq!(clamp_concurrency(1), 1);
    assert_eq!(clamp_concurrency(4), 4);
    assert_eq!(clamp_concurrency(8), 8);
    assert_eq!(clamp_concurrency(200), 8);
}

#[test]
fn integrity_check_needs_an_installed_game() {
    assert!(check_verifiable("1.0.0", true).is_ok());
    for (v, exe) in [("", true), ("1.0.0", false), ("", false)] {
        match check_verifiable(v, exe) {
            Err(AppError::GameNotFound(m)) => assert_eq!(m, "Game is not installed; nothing to verify"),
            other => panic!("unexpected {:?}", other),
        }
    }
}

#[test]
fn launch_is_refused_while_running() {
    assert!(check_launchable(false).is_ok());
    assert!(matches!(check_launchable(true), Err(AppError::Api(m)) if m == "Game is already running"));
}

#[test]
fn import_needs_the_executable_and_places_the_cache_inside() {
    assert_eq!(plan_import("/games/endfield", true).unwrap(), "/games/endfield/_download");
    match plan_import("/games/empty", false) {
        Err(AppError::GameNotFound(m)) => assert_eq!(m, "Endfield.exe not found in /games/empty"),
        other => panic!("unexpected {:?}", other),
    }
}

#[test]
fn uninstall_refuses_and_limits_what_it_deletes() {
    assert!(matches!(
        plan_uninstall(true, true, false, "/g", "/g/_download"),
        Err(AppError::Api(m)) if m == "Cannot uninstall while the game is running"
    ));
    assert!(matches!(
        plan_uninstall(false, false, false, "/g", "/g/_download"),
        Err(AppError::GameNotFound(m)) if m == "No game installation found in /g"
    ));
    assert_eq!(plan_uninstall(false, true, false, "/g", "/g/_download").unwrap(), true);
    assert_eq!(plan_uninstall(false, false, true, "/g", "/g/_download").unwrap(), true);
    assert_eq!(plan_uninstall(false, true, false, "/g", "/home/me/Downloads").unwrap(), false);
}

#[test]
fn clearing_the_cache_only_touches_the_launchers_folder() {
    assert!(may_clear_download_dir("/g/_download"));
    assert!(!may_clear_download_dir("/home/me"));
}

#[test]
fn only_whitelisted_prefix_tools_run() {
    assert!(check_prefix_tool("winecfg").is_ok());
    assert!(check_prefix_tool("regedit").is_ok());
    assert!(matches!(
        check_prefix_tool("cmd"),
        Err(AppError::Api(m)) if m == "Unknown prefix tool: cmd"
    ));
    assert!(check_prefix_tool("winecfg ").is_err());
}

#[test]
fn prefix_changes_wait_for_the_game_to_stop() {
    assert!(check_prefix_restorable(false).is_ok());
    assert!(matches!(
        check_prefix_restorable(true),
        Err(AppError::Api(m)) if m == "Cannot restore the prefix while the game is running"
    ));
    assert!(check_prefix_resettable(false).is_ok());
    assert!(matches!(
        check_prefix_resettable(true),
        Err(AppError::Api(m)) if m == "Cannot reset the prefix while the game is running"
    ));
    assert!(check_prefix_openable(true).is_ok());
    assert!(matches!(
        check_prefix_openable(false),
        Err(AppError::Api(m)) if m == "No Proton prefix exists yet \u{2014} launch the game once first"
    ));
}

#[test]
fn stopping_signals_the_process_group() {
    assert_eq!(terminate_target(None), None);
    assert_eq!(terminate_target(Some(4242)), Some(4242));
    assert_eq!(terminate_target(Some(u32::MAX)), Some(-1));
    assert_eq!(kill_target(true, Some(7)), Some(7));
    assert_eq!(kill_target(false, Some(7)), None);
    assert_eq!(kill_target(true, None), None);
}

#[test]
fn pause_cancel_and_resume_set_the_flags() {
    let running = DownloadFlags { active: true, paused: false };
    let paused = apply_writes(running, pause_writes());
    assert_eq!(paused, DownloadFlags { active: false, paused: true });
    let resumed = apply_writes(paused, start_writes());
    assert_eq!(resumed, DownloadFlags { active: false, paused: false });
    let cancelled = apply_writes(paused, cancel_writes());
    assert_eq!(cancelled, DownloadFlags { active: false, paused: false });
    let discarded = apply_writes(paused, discard_writes());
    assert_eq!(discarded, DownloadFlags { active: false, paused: true });
}

#[test]
fn prefix_info_holds_path_and_existence() {
    let p = PrefixInfo { path: "/g/compatdata".to_string(), exists: false };
    assert_eq!(p.path, "/g/compatdata");
    assert!(!p.exists);
}

#[test]
fn a_pause_lasts_until_a_start_or_cancel() {
    let mut f = DownloadFlags { active: true, paused: false };
    for w in [pause_writes(), discard_writes(), discard_writes()] {
        f = apply_writes(f, w);
    }
    assert_eq!(f, DownloadFlags { active: false, paused: true });
    let resumed = apply_writes(f, start_writes());
    assert!(!resumed.paused);
    let cancelled = apply_writes(f, cancel_writes());
    assert_eq!(cancelled, DownloadFlags { active: false, paused: false });
    let mut g = cancelled;
    for w in [start_writes(), pause_writes(), discard_writes(), cancel_writes(), pause_writes()] {
        g = apply_writes(g, w);
    }
    assert!(g.paused);
}
