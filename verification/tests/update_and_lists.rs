use llauncher::debug_info::{debug_report, os_name_from_release, DebugFacts};
use llauncher::error::AppError;
use llauncher::protons::{name_less, sort_by_name_desc};
use llauncher::types::{BackgroundImage, InstalledProton, LauncherContent};
use llauncher::update::{GameUpdate, UpdateAction, UpdateEvent, UpdatePhase};

fn update() -> (GameUpdate, Vec<UpdateAction>) {
    GameUpdate::new(
        "/games/endfield".to_string(),
        "/games/endfield/_download".to_string(),
        "1.5".to_string(),
        4096,
        12,
    )
}

fn is_full_download(a: &[UpdateAction]) -> bool {
    matches!(a, [UpdateAction::RunFullDownload { download_dir, game_dir, current_version, speed_limit: 4096, max_concurrent: 8 }]
        if download_dir == "/games/endfield/_download" && game_dir == "/games/endfield" && current_version == "1.5")
}

#[test]
fn an_update_starts_by_checking_the_engine() {
    let (u, a) = update();
    assert_eq!(u.phase(), UpdatePhase::AwaitVersion);
    assert!(matches!(&a[..], [UpdateAction::SetPaused(false), UpdateAction::SetActive(true), UpdateAction::EmitChecking, UpdateAction::FetchVersion(v)] if v.is_empty()));
}

#[test]
fn a_current_engine_takes_the_per_file_route() {
    let (mut u, _) = update();
    u.step(UpdateEvent::VersionFetched(Ok("1.6".into())));
    let a = u.step(UpdateEvent::CentralDirectoryFetched(true));
    assert!(matches!(&a[..], [UpdateAction::CheckEngine]));
    let a = u.step(UpdateEvent::EngineChecked(Some(true)));
    assert!(matches!(&a[..], [UpdateAction::RunDelta { game_dir, max_concurrent: 8, channel }]
        if game_dir == "/games/endfield" && channel == "update"));
    let a = u.step(UpdateEvent::DeltaFinished(Ok(())));
    assert!(matches!(&a[..], [UpdateAction::SetActive(false), UpdateAction::EmitUpdateComplete(c), UpdateAction::SaveInstalledVersion(v)] if c.version == "1.6" && v == "1.6"));
    let a = u.step(UpdateEvent::Saved(Ok(())));
    assert!(matches!(&a[..], [UpdateAction::Finish(Ok(()))]));
}

#[test]
fn a_changed_or_unknown_engine_takes_the_full_route() {
    for check in [Some(false), None] {
        let (mut u, _) = update();
        u.step(UpdateEvent::VersionFetched(Ok("1.6".into())));
        u.step(UpdateEvent::CentralDirectoryFetched(true));
        let a = u.step(UpdateEvent::EngineChecked(check));
        assert!(is_full_download(&a));
        let a = u.step(UpdateEvent::FullDownloadFinished(Ok("1.6.1".into())));
        assert!(matches!(&a[..], [UpdateAction::SetActive(false), UpdateAction::SaveInstalledVersion(v)] if v == "1.6.1"));
    }
    let (mut u, _) = update();
    u.step(UpdateEvent::VersionFetched(Ok("1.6".into())));
    let a = u.step(UpdateEvent::CentralDirectoryFetched(false));
    assert!(is_full_download(&a));
}

#[test]
fn a_failed_update_is_reported() {
    let (mut u, _) = update();
    u.step(UpdateEvent::VersionFetched(Ok("1.6".into())));
    u.step(UpdateEvent::CentralDirectoryFetched(false));
    let a = u.step(UpdateEvent::FullDownloadFinished(Err(AppError::Cancelled)));
    assert!(matches!(&a[..], [UpdateAction::SetActive(false), UpdateAction::EmitUpdateError(AppError::Cancelled), UpdateAction::Finish(Err(AppError::Cancelled))]));
    assert_eq!(u.phase(), UpdatePhase::Finished);
    let (mut u, _) = update();
    let a = u.step(UpdateEvent::VersionFetched(Err(AppError::Api("down".into()))));
    assert!(matches!(&a[..], [UpdateAction::Finish(Err(AppError::Api(_)))]));
}

fn proton(name: &str, path: &str) -> InstalledProton {
    InstalledProton { name: name.to_string(), path: path.to_string() }
}

#[test]
fn installed_protons_are_listed_newest_name_first() {
    let list = vec![
        proton("dwproton-9.0-3", "/p/a"),
        proton("dwproton-10.0-1", "/p/b"),
        proton("dwproton-9.0-12", "/p/c"),
        proton("GE-Proton9-20", "/p/d"),
        proton("dwproton-10.0-1", "/p/e"),
    ];
    let sorted = sort_by_name_desc(list);
    let names: Vec<(&str, &str)> = sorted.iter().map(|p| (p.name.as_str(), p.path.as_str())).collect();
    assert_eq!(
        names,
        vec![
            ("dwproton-9.0-3", "/p/a"),
            ("dwproton-9.0-12", "/p/c"),
            ("dwproton-10.0-1", "/p/b"),
            ("dwproton-10.0-1", "/p/e"),
            ("GE-Proton9-20", "/p/d"),
        ]
    );
    assert!(sort_by_name_desc(vec![]).is_empty());
}

#[test]
fn names_compare_as_str_does() {
    for (a, b) in [("a", "b"), ("b", "a"), ("", "a"), ("a", ""), ("ab", "a"), ("é", "z"), ("same", "same")] {
        assert_eq!(name_less(a, b), a < b, "{:?} {:?}", a, b);
    }
}

#[test]
fn the_os_name_comes_from_pretty_name() {
    let c = "NAME=\"Arch Linux\"\nPRETTY_NAME=\"Arch Linux\"\nID=arch\n";
    assert_eq!(os_name_from_release(c).as_deref(), Some("Arch Linux"));
    let c = "ID=fedora\r\nPRETTY_NAME=Fedora Linux 40\r\n";
    assert_eq!(os_name_from_release(c).as_deref(), Some("Fedora Linux 40"));
    assert_eq!(os_name_from_release("ID=x\n"), None);
    assert_eq!(os_name_from_release(""), None);
    assert_eq!(os_name_from_release("PRETTY_NAME=PRETTY_NAME=\"\"x\"\""), Some("x".to_string()));
    assert_eq!(os_name_from_release(" PRETTY_NAME=x\nPRETTY_NAME=y"), Some("y".to_string()));
}

fn facts() -> DebugFacts {
    DebugFacts {
        app_version: "0.9.2".into(),
        os_release: Some("PRETTY_NAME=\"Debian GNU/Linux 12\"\n".into()),
        kernel: "6.1.0".into(),
        desktop: Some("KDE".into()),
        session: None,
        gpu: "".into(),
        proton_dir: "/home/u/.local/share/protons/dwproton-10.0-1".into(),
        installed_version: "".into(),
        ntsync: true,
        use_native_vulkan: false,
        use_wayland: true,
        use_dxvk_async: false,
        use_gamemode: true,
        use_mangohud: false,
        use_gamescope: false,
        use_prime_offload: false,
        disable_fsync: false,
        disable_esync: true,
        log_tail: "last line".into(),
    }
}

#[test]
fn the_debug_report_has_every_line() {
    let expected = "LLauncher 0.9.2\n\
         OS: Debian GNU/Linux 12 (kernel 6.1.0)\n\
         Session: KDE / ?\n\
         GPU: unknown\n\
         Proton: dwproton-10.0-1\n\
         Game version: not installed\n\
         ntsync: true\n\
         Flags: vulkan=false wayland=true dxvk_async=false gamemode=true mangohud=false gamescope=false prime=false fsync_off=false esync_off=true\n\
         \n--- launch.log tail ---\nlast line";
    assert_eq!(debug_report(&facts()), expected);
}

#[test]
fn the_debug_report_falls_back_for_unknown_facts() {
    let mut f = facts();
    f.os_release = None;
    f.gpu = "Intel UHD".into();
    f.installed_version = "1.5".into();
    f.proton_dir = "/".into();
    let r = debug_report(&f);
    assert!(r.contains("OS: unknown (kernel"));
    assert!(r.contains("GPU: Intel UHD\n"));
    assert!(r.contains("Game version: 1.5\n"));
    assert!(r.contains("Proton: /\n"));
}

#[test]
fn a_low_concurrency_setting_is_raised_for_the_transfer() {
    let (mut u, _) = GameUpdate::new("g".to_string(), "d".to_string(), String::new(), 0, 0);
    u.step(UpdateEvent::VersionFetched(Ok("1.6".into())));
    let a = u.step(UpdateEvent::CentralDirectoryFetched(false));
    assert!(matches!(&a[..], [UpdateAction::RunFullDownload { current_version, speed_limit: 0, max_concurrent: 1, .. }] if current_version.is_empty()));
}

#[test]
fn error_messages_name_what_failed() {
    assert_eq!(AppError::Api("down".into()).message(), "API error: down");
    assert_eq!(AppError::GameNotFound("x".into()).message(), "Game not found: x");
    assert_eq!(AppError::Cancelled.message(), "Download cancelled");
    assert_eq!(
        AppError::DiskSpace { path: "/d".into(), needed_mib: 40960, available_mib: 0 }.message(),
        "Not enough disk space in /d: 40960 MiB needed, 0 MiB available"
    );
    assert_eq!(
        AppError::Md5Mismatch { expected: "aa".into(), actual: "bb".into() }.message(),
        "MD5 mismatch: expected aa, got bb"
    );
    assert_eq!(AppError::Io("denied".into()).message(), "IO error: denied");
    assert_eq!(AppError::Http("404".into()).message(), "HTTP error: 404");
}

#[test]
fn default_content_is_empty() {
    let c = LauncherContent::default();
    assert!(c.background.url.is_empty() && c.background.video_url.is_empty());
    assert!(c.banners.is_empty() && c.news_tabs.is_empty() && c.sidebars.is_empty());
    assert!(c.single_ent.is_none());
    let b = BackgroundImage::default();
    assert!(b.url.is_empty() && b.video_url.is_empty());
}
