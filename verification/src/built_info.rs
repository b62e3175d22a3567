//! Build metadata: which git ref the addon was built from and whether the
//! build is an official release. The values themselves come from the build
//! environment; these functions interpret them.

use vstd::prelude::*;
use crate::text::{has_prefix, opt_chars, str_eq, strip_prefix, strip_prefix_spec};
use crate::exports::runtime::version::SemVersion;
use crate::exports::runtime::update::{GIT_REF_BRANCH_PREFIX, GIT_REF_RELEASE_PREFIX, GIT_REF_TAG_PREFIX};

verus! {

/// What the build environment says about the running build.
pub struct BuildInfo {
    /// The addon's version text.
    pub crate_version: String,
    /// The addon's semantic version.
    pub crate_semver: SemVersion,
    /// The git ref the build was made from.
    pub head_ref: Option<String>,
    /// The release channel the build was made for (`ADDON_VERSION_CHANNEL`).
    pub channel: Option<String>,
    /// The build has debug assertions enabled.
    pub debug_assertions: bool,
}

/// The rest of the head ref after `prefix`, when the head ref is known and starts with it.
pub open spec fn ref_after(head_ref: Option<Seq<char>>, prefix: Seq<char>) -> Option<Seq<char>> {
    match head_ref {
        Some(head) => strip_prefix_spec(head, prefix),
        None => None,
    }
}

/// The tag the build was made from.
pub open spec fn spec_git_tag_name(head_ref: Option<Seq<char>>) -> Option<Seq<char>> {
    ref_after(head_ref, GIT_REF_TAG_PREFIX@)
}

/// The branch the build was made from.
pub open spec fn spec_git_branch_name(head_ref: Option<Seq<char>>) -> Option<Seq<char>> {
    ref_after(head_ref, GIT_REF_BRANCH_PREFIX@)
}

/// The release version (a tag `v<version>`) the build was made from.
pub open spec fn spec_git_release(head_ref: Option<Seq<char>>) -> Option<Seq<char>> {
    ref_after(head_ref, GIT_REF_RELEASE_PREFIX@)
}

/// The ref name shown for a build: `Ok(tag)` for a tag, otherwise `Err` of
/// the branch, the raw head ref, or `HEAD`.
pub open spec fn spec_git_ref_name(head_ref: Option<Seq<char>>) -> Result<Seq<char>, Seq<char>> {
    match spec_git_tag_name(head_ref) {
        Some(tag) => Ok(tag),
        None => Err(
            match spec_git_branch_name(head_ref) {
                Some(branch) => branch,
                None => match head_ref {
                    Some(head) => head,
                    None => "HEAD"@,
                },
            },
        ),
    }
}

/// The name of the tag that `head_ref` points at.
pub fn git_tag_name(head_ref: Option<&str>) -> (r: Option<&str>)
    ensures
        opt_chars(r) == spec_git_tag_name(opt_chars(head_ref)),
{
    match head_ref {
        Some(head) => strip_prefix(head, GIT_REF_TAG_PREFIX),
        None => None,
    }
}

/// The name of the branch that `head_ref` points at.
pub fn git_branch_name(head_ref: Option<&str>) -> (r: Option<&str>)
    ensures
        opt_chars(r) == spec_git_branch_name(opt_chars(head_ref)),
{
    match head_ref {
        Some(head) => strip_prefix(head, GIT_REF_BRANCH_PREFIX),
        None => None,
    }
}

/// The release version that `head_ref` is tagged with (`refs/tags/v<version>`).
pub fn git_release(head_ref: Option<&str>) -> (r: Option<&str>)
    ensures
        opt_chars(r) == spec_git_release(opt_chars(head_ref)),
{
    match head_ref {
        Some(head) => strip_prefix(head, GIT_REF_RELEASE_PREFIX),
        None => None,
    }
}

/// `Ok(tag)` when built from a tag, otherwise `Err(branch)`, falling back to
/// the raw head ref and then to `HEAD`.
pub fn git_ref_name(head_ref: Option<&str>) -> (r: Result<&str, &str>)
    ensures
        match (r, spec_git_ref_name(opt_chars(head_ref))) {
            (Ok(t), Ok(s)) => t@ == s,
            (Err(t), Err(s)) => t@ == s,
            _ => false,
        },
{
    match git_tag_name(head_ref) {
        Some(tag) => Ok(tag),
        None => Err(
            match git_branch_name(head_ref) {
                Some(branch) => branch,
                None => match head_ref {
                    Some(head) => head,
                    None => "HEAD",
                },
            },
        ),
    }
}

/// An official release: a tagged version built without debug assertions
/// from the release tag of exactly the crate's version.
pub open spec fn spec_is_release(
    tagged_version: bool,
    debug_assertions: bool,
    head_ref: Option<Seq<char>>,
    crate_version: Seq<char>,
) -> bool {
    tagged_version && !debug_assertions && spec_git_release(head_ref) == Some(crate_version)
}

/// Official tagged release build. Debug builds are never releases.
pub fn is_release(
    tagged_version: bool,
    debug_assertions: bool,
    head_ref: Option<&str>,
    crate_version: &str,
) -> (r: bool)
    ensures
        r == spec_is_release(tagged_version, debug_assertions, opt_chars(head_ref), crate_version@),
{
    if !tagged_version || debug_assertions {
        return false;
    }
    match git_release(head_ref) {
        Some(release) => str_eq(release, crate_version),
        None => false,
    }
}

/// The build carries a release marker at all (`ADDON_VERSION_RELEASE` is set).
pub fn is_tagged_version(release_marker: Option<&str>) -> (r: bool)
    ensures
        r == (release_marker is Some),
{
    release_marker.is_some()
}

/// The release marker is non-empty: a release or a release candidate.
pub fn is_tagged_release_or_rc(release_marker: Option<&str>) -> (r: bool)
    ensures
        r == (release_marker matches Some(m) && m@.len() > 0),
{
    match release_marker {
        Some(m) => m.unicode_len() > 0,
        None => false,
    }
}

/// The release marker is exactly `1`: a final release.
pub fn is_tagged_release(release_marker: Option<&str>) -> (r: bool)
    ensures
        r == (release_marker matches Some(m) && m@ =~= seq!['1']),
{
    match release_marker {
        Some(m) => m.unicode_len() == 1 && m.get_char(0) == '1',
        None => false,
    }
}

/// A build ref is never both a tag and a branch.
pub proof fn lemma_tag_and_branch_exclusive(head_ref: Option<Seq<char>>)
    ensures
        !(spec_git_tag_name(head_ref) is Some && spec_git_branch_name(head_ref) is Some),
{
    reveal_strlit("refs/tags/");
    reveal_strlit("refs/heads/");
    if let Some(head) = head_ref {
        if has_prefix(head, GIT_REF_TAG_PREFIX@) && has_prefix(head, GIT_REF_BRANCH_PREFIX@) {
            assert(head.subrange(0, 10)[5] == GIT_REF_TAG_PREFIX@[5]);
            assert(head.subrange(0, 11)[5] == GIT_REF_BRANCH_PREFIX@[5]);
        }
    }
}

/// A release build is a tag build whose tag is `v` followed by the release version.
pub proof fn lemma_release_is_tag(head_ref: Option<Seq<char>>)
    ensures
        spec_git_release(head_ref) matches Some(r) ==> spec_git_tag_name(head_ref) == Some(
            seq!['v'] + r,
        ),
{
    reveal_strlit("refs/tags/");
    reveal_strlit("refs/tags/v");
    if let Some(head) = head_ref {
        if let Some(r) = spec_git_release(head_ref) {
            assert(has_prefix(head, GIT_REF_RELEASE_PREFIX@));
            assert(head.subrange(0, 10) =~= head.subrange(0, 11).subrange(0, 10));
            assert(GIT_REF_TAG_PREFIX@ =~= GIT_REF_RELEASE_PREFIX@.subrange(0, 10));
            assert(has_prefix(head, GIT_REF_TAG_PREFIX@));
            assert(head.subrange(0, 11)[10] == GIT_REF_RELEASE_PREFIX@[10]);
            assert(r =~= head.subrange(11, head.len() as int));
            assert(head.subrange(10, head.len() as int) =~= seq!['v'] + r);
        }
    }
}

/// A ref name is `Ok` exactly for tag builds.
pub proof fn lemma_ref_name_ok_iff_tag(head_ref: Option<Seq<char>>)
    ensures
        spec_git_ref_name(head_ref) is Ok <==> spec_git_tag_name(head_ref) is Some,
{
}

} // verus!
