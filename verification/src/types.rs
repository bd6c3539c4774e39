//! The launcher's API and event payloads as plain data: requests to the batch
//! proxy, the game version and launcher content answers, Proton release data,
//! and the progress/complete/error events that the frontend receives.

use vstd::prelude::*;

verus! {

// ─── Batch proxy request ───

/// A batch of proxied API requests.
#[derive(Debug)]
pub struct BatchProxyRequest {
    pub seq: Option<String>,
    pub proxy_reqs: Vec<ProxyReq>,
}

/// One proxied request; `kind` names which of the optional payloads is meant.
#[derive(Debug)]
pub struct ProxyReq {
    pub kind: String,
    pub get_latest_game_req: Option<GetLatestGameReq>,
    pub get_sidebar_req: Option<ContentReq>,
    pub get_single_ent_req: Option<ContentReq>,
    pub get_main_bg_image_req: Option<ContentReq>,
    pub get_banner_req: Option<ContentReq>,
    pub get_announcement_req: Option<ContentReq>,
}

/// Asks for the latest game version relative to `version`.
#[derive(Debug)]
pub struct GetLatestGameReq {
    pub version: String,
    pub appcode: String,
    pub channel: String,
    pub sub_channel: String,
    pub device_id: String,
}

/// Asks for one piece of launcher content.
#[derive(Debug)]
pub struct ContentReq {
    pub appcode: String,
    pub language: String,
    pub channel: String,
    pub sub_channel: String,
    pub platform: String,
    pub source: String,
}

// ─── Game version response ───

/// The package list of a game version.
#[derive(Debug)]
pub struct PackageInfo {
    pub packs: Vec<PackFile>,
    pub total_size: String,
    pub game_files_md5: String,
    pub file_path: String,
}

/// One downloadable pack: where it is, its MD5 (lower-case hex) and its size in
/// bytes, written in decimal.
#[derive(Debug)]
pub struct PackFile {
    pub url: String,
    pub md5: String,
    pub package_size: String,
}

/// What a pack is, as text.
pub struct PackFileView {
    pub url: Seq<char>,
    pub md5: Seq<char>,
    pub package_size: Seq<char>,
}

impl View for PackFile {
    type V = PackFileView;

    open spec fn view(&self) -> PackFileView {
        PackFileView { url: self.url@, md5: self.md5@, package_size: self.package_size@ }
    }
}

impl PackFile {
    /// A copy of this pack description.
    pub fn duplicate(&self) -> (r: PackFile)
        ensures
            r@ == self@,
    {
        PackFile { url: self.url.clone(), md5: self.md5.clone(), package_size: self.package_size.clone() }
    }
}

/// The views of a list of packs.
pub open spec fn packs_view(packs: Seq<PackFile>) -> Seq<PackFileView> {
    packs.map_values(|p: PackFile| p@)
}

// ─── Launcher content ───

/// Everything the launcher shows besides the game itself.
#[derive(Debug)]
pub struct LauncherContent {
    pub background: BackgroundImage,
    pub banners: Vec<Banner>,
    pub news_tabs: Vec<NewsTab>,
    pub sidebars: Vec<Sidebar>,
    pub single_ent: Option<SingleEnt>,
}

/// The main background, as an image and optionally a video.
#[derive(Debug)]
pub struct BackgroundImage {
    pub url: String,
    pub video_url: String,
}

#[derive(Debug)]
pub struct Banner {
    pub url: String,
    pub jump_url: String,
}

#[derive(Debug)]
pub struct NewsTab {
    pub tab_name: String,
    pub announcements: Vec<Announcement>,
}

#[derive(Debug)]
pub struct Announcement {
    pub content: String,
    pub jump_url: String,
}

#[derive(Debug)]
pub struct Sidebar {
    pub media: String,
    pub jump_url: String,
    pub icon_url: String,
    pub sidebar_labels: Vec<SidebarLabel>,
}

#[derive(Debug)]
pub struct SidebarLabel {
    pub content: String,
    pub jump_url: String,
}

#[derive(Debug)]
pub struct SingleEnt {
    pub version_url: String,
    pub button_url: String,
    pub button_hover_url: String,
    pub jump_url: String,
}

impl BackgroundImage {
    /// No background: both URLs empty.
    pub fn empty() -> (r: BackgroundImage)
        ensures
            r.url@ == Seq::<char>::empty(),
            r.video_url@ == Seq::<char>::empty(),
    {
        BackgroundImage { url: String::new(), video_url: String::new() }
    }
}

impl LauncherContent {
    /// No content at all: no background, banners, news, sidebars or entry.
    pub fn empty() -> (r: LauncherContent)
        ensures
            r.background.url@ == Seq::<char>::empty(),
            r.background.video_url@ == Seq::<char>::empty(),
            r.banners@ == Seq::<Banner>::empty(),
            r.news_tabs@ == Seq::<NewsTab>::empty(),
            r.sidebars@ == Seq::<Sidebar>::empty(),
            r.single_ent is None,
    {
        LauncherContent {
            background: BackgroundImage::empty(),
            banners: Vec::new(),
            news_tabs: Vec::new(),
            sidebars: Vec::new(),
            single_ent: None,
        }
    }
}

impl Default for BackgroundImage {
    /// No background: both URLs empty.
    fn default() -> (r: BackgroundImage)
        ensures
            r.url@ == Seq::<char>::empty(),
            r.video_url@ == Seq::<char>::empty(),
    {
        BackgroundImage::empty()
    }
}

impl Default for LauncherContent {
    /// No content at all: no background, banners, news, sidebars or entry.
    fn default() -> (r: LauncherContent)
        ensures
            r.background.url@ == Seq::<char>::empty(),
            r.background.video_url@ == Seq::<char>::empty(),
            r.banners@ == Seq::<Banner>::empty(),
            r.news_tabs@ == Seq::<NewsTab>::empty(),
            r.sidebars@ == Seq::<Sidebar>::empty(),
            r.single_ent is None,
    {
        LauncherContent::empty()
    }
}

// ─── Proton download types ───

/// One published Proton build.
#[derive(Debug)]
pub struct ProtonReleaseInfo {
    pub tag_name: String,
    pub download_url: String,
    pub file_name: String,
    pub size: u64,
    pub published_at: String,
}

/// A Proton build found on disk.
#[derive(Debug)]
pub struct InstalledProton {
    pub name: String,
    pub path: String,
}

#[derive(Debug)]
pub struct ProtonDownloadProgress {
    pub bytes_downloaded: u64,
    pub bytes_total: u64,
    pub speed_bps: u64,
    pub stage: String,
}

#[derive(Debug)]
pub struct ProtonDownloadComplete {
    pub proton_dir: String,
    pub version: String,
}

// ─── Download progress events ───

#[derive(Debug)]
pub struct DownloadProgress {
    pub file_index: usize,
    pub total_files: usize,
    pub file_name: String,
    pub bytes_downloaded: u64,
    pub bytes_total: u64,
    pub speed_bps: u64,
}

/// One pack file is downloaded and checked.
#[derive(Debug)]
pub struct DownloadFileComplete {
    pub file_index: usize,
    pub total_files: usize,
    pub file_name: String,
}

#[derive(Debug)]
pub struct ExtractProgress {
    pub percent: u8,
    pub bytes_processed: u64,
    pub bytes_total: u64,
    pub speed_bps: u64,
}

/// The whole download is done; the game is now at `version`.
#[derive(Debug)]
pub struct DownloadComplete {
    pub version: String,
}

/// A download failed with `message`.
#[derive(Debug)]
pub struct DownloadError {
    pub message: String,
}

/// A download resumes with `bytes_existing` of `bytes_total` already on disk.
#[derive(Debug)]
pub struct ResumeInfo {
    pub bytes_existing: u64,
    pub bytes_total: u64,
}

// ─── Launch events ───

/// The game exited right after its start; `log_tail` is the end of its log.
#[derive(Debug)]
pub struct LaunchFailed {
    pub exit_code: Option<i32>,
    pub log_tail: String,
}

/// The game exited.
#[derive(Debug)]
pub struct GameExited {
    pub exit_code: Option<i32>,
}

} // verus!
