use taimi_hud::exports::arcdps::{
    addon_dir, available, detect_language, disable, early_init, extras_available, extras_init,
    extras_language, game_language, gh_repo_src, imgui, imgui_options_windows, init, is_ingame,
    loaded, log_window_filter, nexus_link_ptr, pre_init, release, rtapi, update_allowed,
    update_url_for, ArcdpsState, NO_EXPORT,
};
use taimi_hud::exports::runtime::log::LogLevel;
use taimi_hud::exports::runtime::update::{GitHubLatestRelease, ReleaseAsset};
use taimi_hud::exports::runtime::{AddonPath, GameLanguage};

fn path(root: &str, parts: &[&str]) -> AddonPath {
    AddonPath { root: root.to_string(), parts: parts.iter().map(|p| p.to_string()).collect() }
}

fn serving() -> ArcdpsState {
    let mut state = ArcdpsState::new();
    pre_init(&mut state);
    early_init(&mut state);
    state
}

#[test]
fn lifecycle_flags() {
    let mut state = ArcdpsState::new();
    assert!(!loaded(&state) && !available(&state) && !extras_available(&state));
    pre_init(&mut state);
    assert!(loaded(&state));
    assert_eq!(init(&mut state, false, Ok(())), Ok(()));
    assert!(available(&state));
    extras_init(&mut state);
    assert!(extras_available(&state));
    assert!(release(&mut state, false));
    assert!(!loaded(&state) && !available(&state) && !extras_available(&state));
}

#[test]
fn init_hands_over_to_nexus_or_fails() {
    let mut state = ArcdpsState::new();
    assert_eq!(init(&mut state, true, Ok(())), Ok(()));
    assert!(!available(&state));
    assert!(!release(&mut state, true));
    let mut state = ArcdpsState::new();
    assert_eq!(init(&mut state, false, Err("loader poisoned")), Err("loader poisoned"));
    assert!(!available(&state));
    let mut state = serving();
    disable(&mut state);
    assert!(!available(&state));
}

#[test]
fn ingame_only_while_serving() {
    let mut state = ArcdpsState::new();
    assert_eq!(is_ingame(&state), None);
    assert!(!imgui(&mut state, true));
    let mut state = serving();
    assert!(imgui(&mut state, true));
    assert_eq!(is_ingame(&state), Some(true));
    assert!(imgui(&mut state, false));
    assert_eq!(is_ingame(&state), Some(false));
    assert!(!imgui_options_windows(Some("primary")));
}

#[test]
fn language_reports() {
    let mut state = ArcdpsState::new();
    assert_eq!(game_language(&state), Some(GameLanguage::English));
    assert_eq!(extras_language(&mut state, GameLanguage::French), None);
    assert_eq!(game_language(&state), Some(GameLanguage::English));
    let mut state = serving();
    assert_eq!(extras_language(&mut state, GameLanguage::French), Some("fr"));
    assert_eq!(extras_language(&mut state, GameLanguage::French), None);
    assert_eq!(detect_language(&state), Ok(Some("fr".to_string())));
    assert_eq!(detect_language(&ArcdpsState::new()), Ok(None));
}

#[test]
fn unsupported_services() {
    let state = serving();
    assert_eq!(nexus_link_ptr::<u8>(&state), Err("NexusLink unavailable"));
    assert_eq!(rtapi::<u8>(&state), Err("RTAPI unsupported"));
    let state = ArcdpsState::new();
    assert_eq!(nexus_link_ptr::<u8>(&state), Ok(None));
    assert_eq!(rtapi::<u8>(&state), Ok(None));
}

#[test]
fn repository_and_update_permission() {
    let src = gh_repo_src();
    assert_eq!(src.owner, "arcnmx");
    assert_eq!(src.repository, "TaimiHUD");
    assert!(src.description.is_none());
    assert!(update_allowed(false));
    assert!(!update_allowed(true));
}

#[test]
fn addon_dir_from_config_path() {
    let state = serving();
    let config = path("C:\\", &["Games", "GW2", "addons", "arcdps", "arcdps.ini"]);
    assert_eq!(addon_dir(&state, Some(config)), Ok(Some(path("C:\\", &["Games", "GW2", "addons", "Taimi"]))));
    let config = path("C:\\", &["GW2", "addons", "x", "arcdps.ini"]);
    assert_eq!(addon_dir(&state, Some(config)), Ok(Some(path("C:\\", &["GW2", "addons", "Taimi"]))));
    let config = path("C:\\", &["GW2", "bin64", "arcdps.ini"]);
    assert_eq!(addon_dir(&state, Some(config)), Ok(Some(path("C:\\", &["GW2", "bin64", "Taimi"]))));
    assert_eq!(addon_dir(&state, Some(path("C:\\", &[]))), Err("Incomplete config path"));
    assert_eq!(addon_dir(&state, None), Err(NO_EXPORT));
    assert_eq!(addon_dir(&ArcdpsState::new(), None), Ok(None));
}

#[test]
fn log_window_filter_levels() {
    let state = serving();
    assert!(log_window_filter(&state, None, true, LogLevel::Trace));
    assert!(!log_window_filter(&state, None, false, LogLevel::Debug));
    assert!(log_window_filter(&state, None, false, LogLevel::Info));
    assert!(log_window_filter(&state, Some(true), false, LogLevel::Warn));
    let mut handed_over = serving();
    disable(&mut handed_over);
    assert!(!log_window_filter(&handed_over, Some(true), false, LogLevel::Info));
    assert!(log_window_filter(&handed_over, Some(true), false, LogLevel::Error));
    assert!(!log_window_filter(&ArcdpsState::new(), None, true, LogLevel::Error));
}

fn release_of(tag: &str, prerelease: bool, assets: &[(&str, Option<&str>)]) -> GitHubLatestRelease {
    GitHubLatestRelease {
        tag_name: tag.to_string(),
        name: None,
        prerelease,
        html_url: String::new(), created_at: String::new(),
        assets: assets
            .iter()
            .map(|(n, u)| ReleaseAsset { name: n.to_string(), browser_download_url: u.map(|u| u.to_string()) })
            .collect(),
    }
}

#[test]
fn update_url_decisions() {
    let assets = [("notes.txt", Some("https://x/notes")), ("taimi.dll", Some("https://x/taimi.dll"))];
    let newer = release_of("v1.1.0", false, &assets);
    let head = Some("refs/tags/v1.0.0");
    assert_eq!(update_url_for(&newer, head, "1.0.0", false), Some("https://x/taimi.dll".to_string()));
    assert_eq!(update_url_for(&newer, head, "1.0.0", true), None);
    assert_eq!(update_url_for(&newer, Some("refs/heads/main"), "1.0.0", false), None);
    assert_eq!(update_url_for(&release_of("v1.1.0", true, &assets), None, "1.0.0", true), Some("https://x/taimi.dll".to_string()));
    assert_eq!(update_url_for(&release_of("v1.0.0", false, &assets), head, "0.9.0", false), None);
    assert_eq!(update_url_for(&release_of("v1.1.0", false, &assets), head, "1.1.0", false), None);
    assert_eq!(update_url_for(&release_of("1.1.0", false, &assets), head, "1.0.0", false), None);
    let no_url = release_of("v1.1.0", false, &[("taimi.dll", None), ("b.dll", Some("https://x/b.dll"))]);
    assert_eq!(update_url_for(&no_url, head, "1.0.0", false), None);
}
