use taimi_hud::exports::runtime::update::{
    accept_latest_release, checks_latest_release, latest_of_releases, GitHubLatestRelease,
    ReleaseAsset, ResolvedVersion, UpdateError, Updater,
};
use taimi_hud::exports::runtime::version::SemVersion;
use taimi_hud::exports::runtime::RT_UNAVAILABLE;
use taimi_hud::exports::runtime::update::crate_semver;
use taimi_hud::text::{parse_u64, str_order};

fn release(tag: &str, prerelease: bool, created_at: &str) -> GitHubLatestRelease {
    GitHubLatestRelease {
        tag_name: tag.to_string(),
        name: None,
        prerelease,
        html_url: String::new(),
        created_at: created_at.to_string(),
        assets: vec![ReleaseAsset { name: "taimi.dll".to_string(), browser_download_url: None }],
    }
}

#[test]
fn strings_order_lexicographically() {
    assert_eq!(str_order("2024-01-02", "2024-01-10"), -1);
    assert_eq!(str_order("b", "a"), 1);
    assert_eq!(str_order("abc", "abc"), 0);
    assert_eq!(str_order("ab", "abc"), -1);
    assert_eq!(str_order("abc", "ab"), 1);
    assert_eq!(str_order("", ""), 0);
}

#[test]
fn newest_release_by_precedence() {
    let releases = vec![
        release("v1.2.0", false, "2024-05-01T00:00:00Z"),
        release("v1.10.0", false, "2024-01-01T00:00:00Z"),
        release("v1.9.3", false, "2024-06-01T00:00:00Z"),
        release("v2.0.0-rc.1", true, "2024-07-01T00:00:00Z"),
    ];
    let latest = latest_of_releases(releases, None).ok().unwrap();
    assert_eq!(latest.version_id(), "v1.10.0");
}

#[test]
fn newest_release_of_a_channel() {
    let releases = vec![
        release("v1.0.0-rc.1", true, "2024-01-01T00:00:00Z"),
        release("v1.0.0-rc.3", true, "2024-03-01T00:00:00Z"),
        release("v1.0.0-rc.2", true, "2024-02-01T00:00:00Z"),
        release("v1.0.0", false, "2024-04-01T00:00:00Z"),
        release("vnot-a-version", false, "2024-05-01T00:00:00Z"),
    ];
    let latest = latest_of_releases(releases, Some("rc")).ok().unwrap();
    assert_eq!(latest.version_id(), "v1.0.0-rc.3");
}

#[test]
fn unversioned_releases_order_by_creation() {
    let releases = vec![
        release("nightly-a", false, "2024-02-01T00:00:00Z"),
        release("nightly-b", false, "2024-03-01T00:00:00Z"),
        release("nightly-c", false, "2024-01-01T00:00:00Z"),
    ];
    assert_eq!(latest_of_releases(releases, None).ok().unwrap().version_id(), "nightly-b");
    // the last of equally new releases wins
    let releases = vec![
        release("v1.0.0", false, "2024-01-01T00:00:00Z"),
        release("v1.0.0+build.2", false, "2024-01-02T00:00:00Z"),
        release("v0.9.0", false, "2024-03-01T00:00:00Z"),
    ];
    assert_eq!(latest_of_releases(releases, None).ok().unwrap().version_id(), "v1.0.0+build.2");
}

#[test]
fn no_release_of_the_channel() {
    let releases = vec![release("v1.0.0", false, "2024-01-01T00:00:00Z")];
    assert!(matches!(latest_of_releases(releases, Some("beta")), Err(UpdateError::NoReleases(c)) if c == "beta"));
    assert!(matches!(latest_of_releases(Vec::new(), None), Err(UpdateError::NoReleases(c)) if c.is_empty()));
}

#[test]
fn single_latest_release() {
    assert!(checks_latest_release(None));
    assert!(!checks_latest_release(Some("rc")));
    assert!(matches!(accept_latest_release(release("v2.0.0-rc.1", true, "")), Ok(None)));
    let accepted = accept_latest_release(release("v2.0.0", false, "")).ok().unwrap().unwrap();
    assert_eq!(accepted.version.as_ref().map(|v| v.major()), Some(2));
    assert!(matches!(accept_latest_release(release("vjunk", false, "")), Err(UpdateError::VersionUnrecognized(t)) if t == "vjunk"));
}

#[test]
fn release_descriptions() {
    let r = ResolvedVersion::with_gh_release(release("v1.2.3-rc.1+build.7", true, "")).ok().unwrap();
    assert_eq!(r.describe(), "1.2.3-rc.1+build.7");
    let mut named = release("nightly", false, "");
    named.name = Some("Nightly build".to_string());
    let r = ResolvedVersion::with_gh_release(named).ok().unwrap();
    assert_eq!(r.describe(), "Nightly build");
    let r = ResolvedVersion::with_gh_release(release("nightly", false, "")).ok().unwrap();
    assert_eq!(r.describe(), "nightly");
    assert_eq!(SemVersion::new(10, 0, 42).to_text(), "10.0.42");
}

#[test]
fn performing_updates() {
    assert_eq!(Updater::perform(None), Err(RT_UNAVAILABLE));
    assert_eq!(Updater::perform(Some(Ok(None))), Err(RT_UNAVAILABLE));
    assert_eq!(Updater::perform(Some(Ok(Some(())))), Ok(()));
    assert_eq!(Updater::perform(Some(Err("update failed"))), Err("update failed"));
}

#[test]
fn crate_version_from_parts() {
    let v = crate_semver("1", "2", "3", "rc.1", "build.5");
    assert_eq!(v.to_text(), "1.2.3-rc.1+build.5");
    let v = crate_semver("+4", "x", "", "rc.01", "001");
    assert_eq!((v.major(), v.minor(), v.patch()), (4, 0, 0));
    assert_eq!(v.pre(), "");
    assert_eq!(v.build(), "001");
    let v = crate_semver("18446744073709551615", "18446744073709551616", "-1", "a..b", "b+c");
    assert_eq!((v.major(), v.minor(), v.patch()), (u64::MAX, 0, 0));
    assert_eq!((v.pre(), v.build()), ("", ""));
    let v = crate_semver("0", "0", "7", "-x.0.alpha-1", "");
    assert_eq!(v.pre(), "-x.0.alpha-1");
    assert_eq!(v.to_text(), "0.0.7--x.0.alpha-1");
}

#[test]
fn unsigned_numbers_parse() {
    assert_eq!(parse_u64("42"), Some(42));
    assert_eq!(parse_u64("+42"), Some(42));
    assert_eq!(parse_u64("007"), Some(7));
    assert_eq!(parse_u64("+"), None);
    assert_eq!(parse_u64(""), None);
    assert_eq!(parse_u64("-1"), None);
    assert_eq!(parse_u64("4x"), None);
    assert_eq!(parse_u64("18446744073709551615"), Some(u64::MAX));
    assert_eq!(parse_u64("18446744073709551616"), None);
    for text in ["0", "+9", "12a", " 1", "99999999999999999999", "+-1"] {
        assert_eq!(parse_u64(text), text.parse::<u64>().ok(), "{text}");
    }
}
