use taimi_hud::built_info::{
    git_branch_name, git_ref_name, git_release, git_tag_name, is_release, is_tagged_release,
    is_tagged_release_or_rc, is_tagged_version,
};

#[test]
fn tag_name_of_tag_ref() {
    assert_eq!(git_tag_name(Some("refs/tags/v1.2.3")), Some("v1.2.3"));
    assert_eq!(git_tag_name(Some("refs/heads/main")), None);
    assert_eq!(git_tag_name(None), None);
}

#[test]
fn branch_name_of_branch_ref() {
    assert_eq!(git_branch_name(Some("refs/heads/develop")), Some("develop"));
    assert_eq!(git_branch_name(Some("refs/tags/v1.0.0")), None);
}

#[test]
fn release_of_release_tag() {
    assert_eq!(git_release(Some("refs/tags/v0.4.0-rc.1")), Some("0.4.0-rc.1"));
    assert_eq!(git_release(Some("refs/tags/nightly")), None);
    assert_eq!(git_tag_name(Some("refs/tags/nightly")), Some("nightly"));
}

#[test]
fn ref_name_prefers_tag_then_branch_then_head() {
    assert_eq!(git_ref_name(Some("refs/tags/v2.0.0")), Ok("v2.0.0"));
    assert_eq!(git_ref_name(Some("refs/heads/main")), Err("main"));
    assert_eq!(git_ref_name(Some("abcdef")), Err("abcdef"));
    assert_eq!(git_ref_name(None), Err("HEAD"));
}

#[test]
fn tag_and_branch_never_both() {
    for head in ["refs/tags/x", "refs/heads/x", "refs/x", ""] {
        assert!(!(git_tag_name(Some(head)).is_some() && git_branch_name(Some(head)).is_some()));
    }
}

#[test]
fn release_requires_tag_version_match_and_no_debug() {
    assert!(is_release(true, false, Some("refs/tags/v1.0.0"), "1.0.0"));
    assert!(!is_release(true, true, Some("refs/tags/v1.0.0"), "1.0.0"));
    assert!(!is_release(false, false, Some("refs/tags/v1.0.0"), "1.0.0"));
    assert!(!is_release(true, false, Some("refs/tags/v1.0.1"), "1.0.0"));
    assert!(!is_release(true, false, None, "1.0.0"));
}

#[test]
fn release_markers() {
    assert!(is_tagged_version(Some("")));
    assert!(!is_tagged_version(None));
    assert!(!is_tagged_release_or_rc(Some("")));
    assert!(is_tagged_release_or_rc(Some("rc.1")));
    assert!(!is_tagged_release_or_rc(None));
    assert!(is_tagged_release(Some("1")));
    assert!(!is_tagged_release(Some("rc.1")));
    assert!(!is_tagged_release(None));
}

#[test]
fn release_ref_is_a_v_tag() {
    for head in ["refs/tags/v1.0.0", "refs/tags/v", "refs/tags/x", "refs/heads/v1"] {
        if let Some(release) = git_release(Some(head)) {
            assert_eq!(git_tag_name(Some(head)), Some(format!("v{release}").as_str()));
        }
        assert_eq!(git_ref_name(Some(head)).is_ok(), git_tag_name(Some(head)).is_some());
    }
}
