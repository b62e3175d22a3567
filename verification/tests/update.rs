use taimi_hud::built_info::BuildInfo;
use taimi_hud::exports::runtime::update::{
    crate_channel, release_candidates, version_channel, GitHubLatestRelease, ReleaseAsset,
    ResolvedVersion, UpdateError, UpdatePreference, UpdateState, Updater,
};
use taimi_hud::exports::runtime::version::SemVersion;

fn v(text: &str) -> SemVersion {
    SemVersion::parse(text).unwrap()
}

fn release_of(tag: &str, prerelease: bool, dll: bool) -> GitHubLatestRelease {
    let assets = if dll {
        vec![ReleaseAsset { name: "taimi.dll".to_string(), browser_download_url: Some("https://x/taimi.dll".to_string()) }]
    } else {
        vec![ReleaseAsset { name: "taimi.zip".to_string(), browser_download_url: Some("https://x/taimi.zip".to_string()) }]
    };
    GitHubLatestRelease { tag_name: tag.to_string(), name: None, prerelease, html_url: String::new(), created_at: String::new(), assets }
}

fn build(version: &str, head: Option<&str>, channel: Option<&str>, debug: bool) -> BuildInfo {
    BuildInfo {
        crate_version: version.to_string(),
        crate_semver: v(version),
        head_ref: head.map(|h| h.to_string()),
        channel: channel.map(|c| c.to_string()),
        debug_assertions: debug,
    }
}

#[test]
fn semantic_versions_parse_and_order() {
    let x = v("1.2.3-rc.1+build.5");
    assert_eq!((x.major(), x.minor(), x.patch()), (1, 2, 3));
    assert_eq!(x.pre(), "rc.1");
    assert_eq!(x.build(), "build.5");
    assert!(SemVersion::parse("1.2").is_err());
    assert_eq!(SemVersion::parse("x").err().unwrap().text, "x");
    let n = SemVersion::new(1, 2, 3);
    assert_eq!(n.pre(), "");
    assert_eq!(v("1.2.3").precedence(&v("1.2.4")), -1);
    assert_eq!(v("2.0.0").precedence(&v("1.9.9")), 1);
    assert_eq!(v("1.2.3").precedence(&v("1.2.3+other")), 0);
    assert_eq!(v("1.2.3").precedence(&v("1.2.3-rc.1")), 1);
    assert_eq!(v("1.2.3-rc.1").precedence(&v("1.2.3-rc.2")), -1);
}

#[test]
fn channels() {
    assert_eq!(version_channel(&v("1.0.0-rc.3")), Some("rc"));
    assert_eq!(version_channel(&v("1.0.0-beta")), Some("beta"));
    assert_eq!(version_channel(&v("1.0.0")), None);
    let semver = v("1.0.0-dev.0");
    assert_eq!(crate_channel(None, true, &semver), Some("debug"));
    assert_eq!(crate_channel(Some(""), false, &semver), None);
    assert_eq!(crate_channel(Some("rc"), false, &semver), Some("rc"));
    assert_eq!(crate_channel(None, false, &semver), Some("dev"));
}

#[test]
fn resolving_releases() {
    let r = ResolvedVersion::with_gh_release(release_of("v1.2.0", false, true)).ok().unwrap();
    assert_eq!(r.version.as_ref().map(|v| v.minor()), Some(2));
    assert_eq!(r.version_id(), "v1.2.0");
    assert_eq!(r.version_name(), "v1.2.0");
    assert_eq!(r.version_tag().ok(), Some("1.2.0"));
    assert_eq!(r.dll_url().ok(), Some("https://x/taimi.dll"));
    assert_eq!(r.version_channel(), None);
    let r = ResolvedVersion::with_gh_release(release_of("nightly-rc.1", false, false)).ok().unwrap();
    assert!(r.version.is_none());
    assert_eq!(r.version_channel(), Some("rc"));
    assert!(matches!(r.version_tag(), Err(UpdateError::VersionUnrecognized(t)) if t == "nightly-rc.1"));
    assert!(matches!(r.dll_url(), Err(UpdateError::MissingDll)));
    assert!(matches!(
        ResolvedVersion::with_gh_release(release_of("vbad", false, true)),
        Err(UpdateError::VersionUnrecognized(t)) if t == "vbad"
    ));
    let mut named = release_of("v1.0.0", true, true);
    named.name = Some("Spring".to_string());
    let r = ResolvedVersion::with_gh_release(named).ok().unwrap();
    assert_eq!(r.version_name(), "Spring");
}

#[test]
fn version_ids_resolve_at_the_release_site() {
    let r = ResolvedVersion::with_version_id("v0.3.1".to_string()).ok().unwrap();
    assert_eq!(r.release.tag_name, "v0.3.1");
    assert_eq!(r.release.html_url, "https://taimihud.com/");
    assert_eq!(r.version.as_ref().map(|v| v.patch()), Some(1));
    let r = ResolvedVersion::with_version_id("local".to_string()).ok().unwrap();
    assert!(r.version.is_none());
    assert!(ResolvedVersion::with_version_id("v1".to_string()).is_err());
}

#[test]
fn update_decisions() {
    let official = build("1.0.0", Some("refs/tags/v1.0.0"), None, false);
    let newer = ResolvedVersion::with_gh_release(release_of("v1.1.0", false, true)).ok().unwrap();
    assert!(newer.is_update(&official));
    let same = ResolvedVersion::with_gh_release(release_of("v1.0.0+rebuild", false, true)).ok().unwrap();
    assert!(!same.is_update(&official));
    let older = ResolvedVersion::with_gh_release(release_of("v0.9.0", false, true)).ok().unwrap();
    assert!(!older.is_update(&official));
    let debug = build("1.0.0", Some("refs/tags/v1.0.0"), None, true);
    assert!(!newer.is_update(&debug));
    let dev = build("1.0.0", Some("refs/heads/main"), None, false);
    assert!(!newer.is_update(&dev));
    let pre = ResolvedVersion::with_gh_release(release_of("v1.1.0-rc.1", true, true)).ok().unwrap();
    assert!(!pre.is_update(&official));
    let rc_build = build("1.0.0", Some("refs/tags/v1.0.0"), Some("rc"), false);
    assert!(pre.is_update(&rc_build));
}

#[test]
fn preferences_in_effect() {
    let mut state = UpdateState { update_preference: None, update_remote_version: Some("v9".to_string()) };
    let current = UpdatePreference::Ask { authorized: Some(Ok("1.0.0".to_string())) };
    let pref = Updater::get_preference(&mut state, &current, "1.0.0");
    assert!(matches!(pref, UpdatePreference::Ask { authorized: None }));
    assert_eq!(state.update_remote_version.as_deref(), Some("v9"));
    let current = UpdatePreference::Once { authorized: "1.0.0".to_string() };
    let mut state = UpdateState { update_preference: Some(UpdatePreference::Once { authorized: "1.0.0".to_string() }), update_remote_version: Some("v9".to_string()) };
    let pref = Updater::get_preference(&mut state, &current, "1.0.0");
    assert!(matches!(pref, UpdatePreference::Never));
    assert!(matches!(state.update_preference, Some(UpdatePreference::Never)));
    assert_eq!(state.update_remote_version, None);
    let current = UpdatePreference::Ask { authorized: Some(Err("2.0.0".to_string())) };
    let pref = Updater::get_preference(&mut state, &current, "1.0.0");
    assert!(matches!(pref, UpdatePreference::Ask { authorized: Some(Err(v)) } if v == "2.0.0"));
    assert!(matches!(UpdatePreference::ask(), UpdatePreference::Ask { authorized: None }));
}

#[test]
fn marking_outdated() {
    let mut state = UpdateState { update_preference: None, update_remote_version: Some("old".to_string()) };
    Updater::mark_update_outdated(&mut state, None);
    assert_eq!(state.update_remote_version.as_deref(), Some("old"));
    let latest = ResolvedVersion::with_gh_release(release_of("v2.0.0", false, true)).ok().unwrap();
    let mut state = UpdateState {
        update_preference: Some(UpdatePreference::Ask { authorized: Some(Ok("v1".to_string())) }),
        update_remote_version: None,
    };
    Updater::mark_update_outdated(&mut state, Some(&latest));
    assert!(matches!(state.update_preference, Some(UpdatePreference::Ask { authorized: None })));
    assert_eq!(state.update_remote_version.as_deref(), Some("v2.0.0"));
    Updater::mark_update_outdated(&mut state, Some(&latest));
    assert!(matches!(state.update_preference, Some(UpdatePreference::Ask { authorized: None })));
    assert_eq!(state.update_remote_version.as_deref(), Some("v2.0.0"));
}

#[test]
fn notifying_the_latest_release() {
    let official = build("1.0.0", Some("refs/tags/v1.0.0"), None, false);
    let mut state = UpdateState { update_preference: None, update_remote_version: None };
    let nodll = ResolvedVersion::with_gh_release(release_of("v1.1.0", false, false)).ok().unwrap();
    assert!(matches!(Updater::notify_latest(&mut state, &nodll, &official, Some(true)), Err(UpdateError::MissingDll)));
    let newer = ResolvedVersion::with_gh_release(release_of("v1.1.0", false, true)).ok().unwrap();
    assert!(matches!(Updater::notify_latest(&mut state, &newer, &official, Some(true)), Ok(true)));
    assert!(matches!(Updater::notify_latest(&mut state, &newer, &official, Some(false)), Ok(false)));
    assert!(state.update_remote_version.is_none());
    assert!(matches!(Updater::notify_latest(&mut state, &newer, &official, None), Ok(false)));
    assert_eq!(state.update_remote_version.as_deref(), Some("v1.1.0"));
    let same = ResolvedVersion::with_gh_release(release_of("v1.0.0", false, true)).ok().unwrap();
    assert!(matches!(Updater::notify_latest(&mut state, &same, &official, Some(true)), Ok(false)));
}

#[test]
fn preference_versions_match_crate() {
    let official = build("1.0.0", Some("refs/tags/v1.0.0"), None, false);
    assert!(Updater::version_pref_matches_crate("1.0.0", &official));
    assert!(Updater::version_pref_matches_crate("1.0.0+other", &official));
    assert!(!Updater::version_pref_matches_crate("1.0.1", &official));
    assert!(!Updater::version_pref_matches_crate("v1.0.0", &official));
}

#[test]
fn candidates_of_a_channel() {
    let releases = vec![
        release_of("v1.0.0", false, true),
        release_of("v1.1.0-rc.1", true, true),
        release_of("vbroken", false, true),
        release_of("v1.2.0", false, true),
        release_of("nightly", false, true),
    ];
    let stable = release_candidates(releases, None);
    let tags: Vec<&str> = stable.iter().map(|r| r.version_id()).collect();
    assert_eq!(tags, vec!["v1.0.0", "v1.2.0", "nightly"]);
    let releases = vec![release_of("v1.0.0", false, true), release_of("v1.1.0-rc.1", true, true)];
    let rc = release_candidates(releases, Some("rc"));
    assert_eq!(rc.len(), 1);
    assert_eq!(rc[0].version_id(), "v1.1.0-rc.1");
}

#[test]
fn preference_settles_after_one_step() {
    let mut state = UpdateState { update_preference: None, update_remote_version: None };
    for current in [
        UpdatePreference::Ask { authorized: Some(Ok("1.0.0".to_string())) },
        UpdatePreference::Ask { authorized: Some(Err("1.0.0".to_string())) },
        UpdatePreference::Once { authorized: "1.0.0".to_string() },
        UpdatePreference::Once { authorized: "2.0.0".to_string() },
        UpdatePreference::Never,
    ] {
        let once = Updater::get_preference(&mut state, &current, "1.0.0");
        let twice = Updater::get_preference(&mut state, &once, "1.0.0");
        let named = |p: &UpdatePreference| match p {
            UpdatePreference::Ask { authorized: Some(Ok(v) | Err(v)) } => v == "1.0.0",
            UpdatePreference::Once { authorized } => authorized == "1.0.0",
            _ => false,
        };
        assert!(!named(&once));
        assert!(!named(&twice));
    }
}
