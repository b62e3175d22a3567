//! Update checks: which release is newer than the running build, which
//! releases belong to its channel, and what the user allowed.

use vstd::prelude::*;
use crate::exports::runtime::{RuntimeResult, first_answer, spec_first_answer};
use crate::built_info::{BuildInfo, git_release, git_tag_name, spec_git_release, spec_git_tag_name};
use crate::exports::runtime::version::{
    SemVersion, SemVersionView, identifier_ok, lemma_identifier_starts_with_part, semver_cmp_precedence, semver_parse,
    try_set_build_metadata, try_set_prerelease, version_text,
};
use crate::text::{
    contains, contains_spec, ends_with, first_piece, first_piece_of, has_suffix, lex_order,
    lemma_lex_order_antisymmetric, lemma_lex_order_transitive, opt_chars, parse_u64, spec_parse_u64,
    str_eq, str_order,
    strip_prefix, strip_prefix_spec,
};

verus! {

/// Git ref prefix of branches.
pub const GIT_REF_BRANCH_PREFIX: &'static str = "refs/heads/";
/// Git ref prefix of tags.
pub const GIT_REF_TAG_PREFIX: &'static str = "refs/tags/";
/// Git ref prefix of release tags (`v<version>`).
pub const GIT_REF_RELEASE_PREFIX: &'static str = "refs/tags/v";
/// Release channel of debug builds.
pub const CHANNEL_DEBUG: &'static str = "debug";
/// Release channel of release candidates.
pub const CHANNEL_PRERELEASE: &'static str = "rc";

/// A GitHub repository that releases are published to.
pub struct GitHubSource {
    pub owner: String,
    pub repository: String,
    pub description: Option<String>,
}

/// A file attached to a release.
pub struct ReleaseAsset {
    pub name: String,
    pub browser_download_url: Option<String>,
}

/// A release as GitHub describes it.
pub struct GitHubLatestRelease {
    pub tag_name: String,
    pub name: Option<String>,
    pub prerelease: bool,
    pub html_url: String,
    /// When the release was created, as GitHub's ISO 8601 timestamp.
    pub created_at: String,
    pub assets: Vec<ReleaseAsset>,
}

impl GitHubLatestRelease {
    /// A release with no tag, name or assets, found at `url`.
    pub fn empty_with_url(url: String) -> (r: GitHubLatestRelease)
        ensures
            r.tag_name@ == Seq::<char>::empty(),
            r.name is None,
            !r.prerelease,
            r.html_url == url,
            r.created_at@ == Seq::<char>::empty(),
            r.assets@.len() == 0,
    {
        GitHubLatestRelease {
            tag_name: String::new(),
            name: None,
            prerelease: false,
            html_url: url,
            created_at: String::new(),
            assets: Vec::new(),
        }
    }
}

/// Why an update could not be resolved.
#[derive(Debug)]
pub enum UpdateError {
    /// A version (given here) is not `v` followed by a semantic version.
    VersionUnrecognized(String),
    /// The release carries no DLL to download.
    MissingDll,
    /// A URL (given here) does not parse.
    InvalidUrl(String),
    /// No release of the channel (given here, empty for none) was found.
    NoReleases(String),
}

/// A release together with its semantic version, when its tag is `v<semver>`.
pub struct ResolvedVersion {
    pub release: GitHubLatestRelease,
    pub version: Option<SemVersion>,
}

/// View of an optional version.
pub open spec fn opt_version(v: Option<SemVersion>) -> Option<SemVersionView> {
    match v {
        Some(v) => Some(v@),
        None => None,
    }
}

/// How a tag resolves: `Ok(None)` when it does not start with `v`,
/// `Ok(Some(version))` when the rest is a semantic version, `Err` otherwise.
pub open spec fn spec_tag_version(tag: Seq<char>) -> Result<Option<SemVersionView>, ()> {
    match strip_prefix_spec(tag, "v"@) {
        None => Ok(None),
        Some(text) => match semver_parse(text) {
            Some(v) => Ok(Some(v)),
            None => Err(()),
        },
    }
}

fn tag_version(tag: &str) -> (r: Result<Option<SemVersion>, UpdateError>)
    ensures
        match (r, spec_tag_version(tag@)) {
            (Ok(v), Ok(s)) => opt_version(v) == s,
            (Err(e), Err(_)) => (e matches UpdateError::VersionUnrecognized(t) && t@ == tag@),
            _ => false,
        },
{
    match strip_prefix(tag, "v") {
        None => Ok(None),
        Some(text) => match SemVersion::parse(text) {
            Ok(v) => Ok(Some(v)),
            Err(_) => Err(UpdateError::VersionUnrecognized(String::from_str(tag))),
        },
    }
}

/// A number's text as `u64::from_str` reads it, or 0 when it does not.
pub open spec fn number_or_zero(text: Seq<char>) -> u64 {
    match spec_parse_u64(text) {
        Some(n) => n,
        None => 0,
    }
}

/// The addon's own version from its parts in the build environment: a
/// number that does not parse counts as 0, and a pre-release or build
/// metadata that `semver` refuses is left empty.
pub fn crate_semver(major: &str, minor: &str, patch: &str, pre: &str, build: &str) -> (r: SemVersion)
    ensures
        r@ == (
            number_or_zero(major@),
            number_or_zero(minor@),
            number_or_zero(patch@),
            if identifier_ok(pre@, true) {
                pre@
            } else {
                Seq::<char>::empty()
            },
            if identifier_ok(build@, false) {
                build@
            } else {
                Seq::<char>::empty()
            },
        ),
{
    let major = match parse_u64(major) {
        Some(n) => n,
        None => 0,
    };
    let minor = match parse_u64(minor) {
        Some(n) => n,
        None => 0,
    };
    let patch = match parse_u64(patch) {
        Some(n) => n,
        None => 0,
    };
    let mut version = SemVersion::new(major, minor, patch);
    let _ = try_set_prerelease(&mut version, pre);
    let _ = try_set_build_metadata(&mut version, build);
    version
}

/// The release channel of a semantic version: the first dot-separated part
/// of its pre-release; none for a release.
pub open spec fn spec_version_channel(v: SemVersionView) -> Option<Seq<char>> {
    if v.3.len() == 0 {
        None
    } else {
        Some(first_piece(v.3, '.'))
    }
}

/// The release channel of a semantic version; see [`spec_version_channel`].
pub fn version_channel(version: &SemVersion) -> (r: Option<&str>)
    ensures
        opt_chars(r) == spec_version_channel(version@),
        r matches Some(c) ==> c@.len() > 0,
{
    proof {
        use_type_invariant(version);
        if version@.3.len() > 0 {
            lemma_identifier_starts_with_part(version@.3, true);
        }
    }
    let pre = version.pre();
    if pre.unicode_len() == 0 {
        None
    } else {
        Some(first_piece_of(pre, '.'))
    }
}

/// The release channel of the running build: `debug` for debug builds,
/// otherwise the channel it was built for (none when that is empty), or the
/// channel of its version.
pub open spec fn spec_crate_channel(
    channel: Option<Seq<char>>,
    debug_assertions: bool,
    crate_semver: SemVersionView,
) -> Option<Seq<char>> {
    if debug_assertions {
        Some(CHANNEL_DEBUG@)
    } else {
        match channel {
            Some(c) => if c.len() == 0 {
                None
            } else {
                Some(c)
            },
            None => spec_version_channel(crate_semver),
        }
    }
}

/// The release channel of the running build; see [`spec_crate_channel`].
pub fn crate_channel<'a>(
    channel: Option<&'a str>,
    debug_assertions: bool,
    crate_semver: &'a SemVersion,
) -> (r: Option<&'a str>)
    ensures
        opt_chars(r) == spec_crate_channel(opt_chars(channel), debug_assertions, crate_semver@),
        r matches Some(c) ==> c@.len() > 0,
{
    if debug_assertions {
        proof {
            reveal_strlit("debug");
        }
        return Some(CHANNEL_DEBUG);
    }
    match channel {
        Some(c) => if c.unicode_len() == 0 {
            None
        } else {
            Some(c)
        },
        None => version_channel(crate_semver),
    }
}

/// The channel of a release with the given version: that of its version
/// when it has one; otherwise `rc` for pre-releases and tags containing `-rc.`.
pub open spec fn spec_release_channel(
    release: GitHubLatestRelease,
    version: Option<SemVersionView>,
) -> Option<Seq<char>> {
    match version {
        Some(v) => spec_version_channel(v),
        None => if release.prerelease || contains_spec(release.tag_name@, "-rc."@) {
            Some(CHANNEL_PRERELEASE@)
        } else {
            None
        },
    }
}

/// Characters of an optional string.
pub open spec fn opt_string(o: Option<String>) -> Option<Seq<char>> {
    match o {
        Some(s) => Some(s@),
        None => None,
    }
}

/// A DLL asset: its name ends with `.dll`.
pub open spec fn is_dll(asset: ReleaseAsset) -> bool {
    has_suffix(asset.name@, ".dll"@)
}

/// The first DLL asset of a release.
pub open spec fn first_dll(assets: Seq<ReleaseAsset>) -> Option<ReleaseAsset>
    decreases assets.len(),
{
    if assets.len() == 0 {
        None
    } else if is_dll(assets[0]) {
        Some(assets[0])
    } else {
        first_dll(assets.drop_first())
    }
}

proof fn lemma_first_dll_step(assets: Seq<ReleaseAsset>, i: int)
    requires
        0 <= i < assets.len(),
    ensures
        first_dll(assets.skip(i)) == if is_dll(assets[i]) {
            Some(assets[i])
        } else {
            first_dll(assets.skip(i + 1))
        },
{
    assert(assets.skip(i).drop_first() =~= assets.skip(i + 1));
    assert(assets.skip(i)[0] == assets[i]);
}

/// The download URL of the first DLL asset, when there is one and it has a URL.
pub open spec fn spec_dll_url(assets: Seq<ReleaseAsset>) -> Option<Seq<char>> {
    match first_dll(assets) {
        Some(asset) => opt_string(asset.browser_download_url),
        None => None,
    }
}

/// Index of the first DLL asset.
fn first_dll_index(assets: &Vec<ReleaseAsset>) -> (r: Option<usize>)
    ensures
        match r {
            Some(i) => i < assets@.len() && first_dll(assets@) == Some(assets@[i as int]),
            None => first_dll(assets@) is None,
        },
{
    let mut i: usize = 0;
    assert(assets@.skip(0) =~= assets@);
    while i < assets.len()
        invariant
            i <= assets@.len(),
            first_dll(assets@) == first_dll(assets@.skip(i as int)),
        decreases assets@.len() - i,
    {
        proof {
            lemma_first_dll_step(assets@, i as int);
        }
        if ends_with(assets[i].name.as_str(), ".dll") {
            return Some(i);
        }
        i = i + 1;
    }
    assert(assets@.skip(i as int).len() == 0);
    None
}

/// The download URL of the first DLL asset; see [`spec_dll_url`].
pub fn dll_download_url(assets: &Vec<ReleaseAsset>) -> (r: Option<&str>)
    ensures
        opt_chars(r) == spec_dll_url(assets@),
{
    match first_dll_index(assets) {
        Some(i) => match &assets[i].browser_download_url {
            Some(u) => Some(u.as_str()),
            None => None,
        },
        None => None,
    }
}

/// What `url::Url::parse` makes of a text: the URL's serialization, when it parses.
pub uninterp spec fn url_parse(url: Seq<char>) -> Option<Seq<char>>;

/// `url::ParseError`, the reason a URL did not parse.
#[verifier::external_type_specification]
#[verifier::external_body]
pub struct ExUrlParseError(url::ParseError);

/// Calls `url::Url::parse` and gives back the serialization of the parsed URL
/// (`Url::as_str`). Claims that it accepts exactly the texts that `url_parse`
/// maps to a URL, which is then the serialization; and, as url's
/// documentation shows for a special scheme with a host and no path, that
/// the addon's site parses, serialized with a `/` for its path.
#[verifier::external_body]
fn parse_url(text: &str) -> (r: Result<String, url::ParseError>)
    ensures
        r is Ok <==> url_parse(text@) is Some,
        r matches Ok(u) ==> url_parse(text@) == Some(u@),
        r is Ok || text@ != "https://taimihud.com"@,
        r matches Ok(u) ==> (text@ == "https://taimihud.com"@ ==> u@ == "https://taimihud.com/"@),
{
    match url::Url::parse(text) {
        Ok(u) => Ok(u.as_str().to_string()),
        Err(e) => Err(e),
    }
}

/// Where the addon's own releases are described.
pub const RELEASE_SITE: &'static str = "https://taimihud.com";

impl ResolvedVersion {
    /// Resolves a GitHub release: its tag is either not `v`-prefixed (no
    /// version) or `v` followed by a semantic version.
    pub fn with_gh_release(release: GitHubLatestRelease) -> (r: Result<ResolvedVersion, UpdateError>)
        ensures
            r is Ok <==> spec_tag_version(release.tag_name@) is Ok,
            r matches Ok(v) ==> v.release == release && Ok::<Option<SemVersionView>, ()>(opt_version(v.version))
                == spec_tag_version(release.tag_name@),
            r matches Err(e) ==> (e matches UpdateError::VersionUnrecognized(t) && t@
                == release.tag_name@),
    {
        match tag_version(release.tag_name.as_str()) {
            Ok(version) => Ok(ResolvedVersion { release, version }),
            Err(e) => Err(e),
        }
    }

    /// A version known only by its id (a tag name), described at the
    /// addon's site.
    pub fn with_version_id(id: String) -> (r: Result<ResolvedVersion, UpdateError>)
        ensures
            r is Ok <==> spec_tag_version(id@) is Ok,
            r matches Ok(v) ==> v.release.html_url@ == "https://taimihud.com/"@,
            spec_tag_version(id@) is Err ==> (r matches Err(UpdateError::VersionUnrecognized(t))
                && t@ == id@),
            r matches Ok(v) ==> v.release.tag_name == id && v.release.name is None
                && !v.release.prerelease && v.release.assets@.len() == 0 && Some(
                v.release.html_url@,
            ) == url_parse(RELEASE_SITE@) && Ok::<Option<SemVersionView>, ()>(opt_version(v.version)) == spec_tag_version(
                id@,
            ),
    {
        let version = match tag_version(id.as_str()) {
            Ok(v) => v,
            Err(e) => return Err(e),
        };
        let url = match parse_url(RELEASE_SITE) {
            Ok(u) => u,
            Err(_) => return Err(UpdateError::InvalidUrl(String::from_str(RELEASE_SITE))),
        };
        let mut release = GitHubLatestRelease::empty_with_url(url);
        release.tag_name = id;
        Ok(ResolvedVersion { release, version })
    }

    /// The download URL of the release's DLL; see [`spec_dll_url`].
    pub fn dll_url(&self) -> (r: Result<&str, UpdateError>)
        ensures
            match r {
                Ok(u) => spec_dll_url(self.release.assets@) == Some(u@),
                Err(e) => spec_dll_url(self.release.assets@) is None && e is MissingDll,
            },
    {
        match dll_download_url(&self.release.assets) {
            Some(u) => Ok(u),
            None => Err(UpdateError::MissingDll),
        }
    }

    /// The release's id: its tag.
    pub fn version_id(&self) -> (r: &str)
        ensures
            r@ == self.release.tag_name@,
    {
        self.release.tag_name.as_str()
    }

    /// The release's name, or its tag when it has none.
    pub fn version_name(&self) -> (r: &str)
        ensures
            r@ == match self.release.name {
                Some(n) => n@,
                None => self.release.tag_name@,
            },
    {
        match &self.release.name {
            Some(n) => n.as_str(),
            None => self.release.tag_name.as_str(),
        }
    }

    /// The version text of the release: its tag without the `v`.
    pub fn version_tag(&self) -> (r: Result<&str, UpdateError>)
        ensures
            match (r, strip_prefix_spec(self.release.tag_name@, "v"@)) {
                (Ok(t), Some(s)) => t@ == s,
                (Err(e), None) => (e matches UpdateError::VersionUnrecognized(t) && t@
                    == self.release.tag_name@),
                _ => false,
            },
    {
        match strip_prefix(self.release.tag_name.as_str(), "v") {
            Some(t) => Ok(t),
            None => Err(
                UpdateError::VersionUnrecognized(String::from_str(self.release.tag_name.as_str())),
            ),
        }
    }

    /// How the release is shown: its version's text when its tag carries
    /// one, otherwise its name (or tag).
    pub open spec fn spec_describe(&self) -> Seq<char> {
        match self.version {
            Some(v) => version_text(v@),
            None => match self.release.name {
                Some(n) => n@,
                None => self.release.tag_name@,
            },
        }
    }

    /// How the release is shown; see [`Self::spec_describe`].
    pub fn describe(&self) -> (r: String)
        ensures
            r@ == self.spec_describe(),
    {
        match &self.version {
            Some(v) => v.to_text(),
            None => String::from_str(self.version_name()),
        }
    }

    /// The channel of the release; see [`spec_release_channel`].
    pub open spec fn spec_version_channel(&self) -> Option<Seq<char>> {
        spec_release_channel(self.release, opt_version(self.version))
    }

    /// The channel of the release; see [`Self::spec_version_channel`].
    pub fn version_channel(&self) -> (r: Option<&str>)
        ensures
            opt_chars(r) == self.spec_version_channel(),
    {
        match &self.version {
            Some(v) => version_channel(v),
            None => if self.release.prerelease || contains(self.release.tag_name.as_str(), "-rc.") {
                Some(CHANNEL_PRERELEASE)
            } else {
                None
            },
        }
    }

    /// Whether the release should replace the running build: it is not the
    /// running version (nor older by precedence), it is no pre-release unless
    /// the build follows a channel, and the build is an official release build.
    pub open spec fn spec_is_update(&self, build: BuildInfo) -> bool {
        let head = opt_string(build.head_ref);
        let precedence = match self.version {
            Some(v) => Some(semver_cmp_precedence(v@, build.crate_semver@)),
            None => None,
        };
        let same_version = precedence == Some(0int) || Some(self.release.tag_name@)
            == spec_git_tag_name(head) || strip_prefix_spec(self.release.tag_name@, "v"@) == Some(
            build.crate_version@,
        );
        let dev_build = !(spec_git_release(head) is Some && !build.debug_assertions);
        if precedence matches Some(p) && p < 0 {
            false
        } else if same_version {
            false
        } else if self.release.prerelease && spec_crate_channel(
            opt_string(build.channel),
            build.debug_assertions,
            build.crate_semver@,
        ) is None {
            false
        } else {
            !dev_build
        }
    }

    /// Whether the release should replace the running build; see [`Self::spec_is_update`].
    pub fn is_update(&self, build: &BuildInfo) -> (r: bool)
        ensures
            r == self.spec_is_update(*build),
    {
        let head = match &build.head_ref {
            Some(h) => Some(h.as_str()),
            None => None,
        };
        let precedence = match &self.version {
            Some(v) => Some(v.precedence(&build.crate_semver)),
            None => None,
        };
        if precedence == Some(-1i8) {
            return false;
        }
        let same_tag = match git_tag_name(head) {
            Some(tag) => str_eq(self.release.tag_name.as_str(), tag),
            None => false,
        };
        let same_version = precedence == Some(0i8) || same_tag || match self.version_tag() {
            Ok(t) => str_eq(t, build.crate_version.as_str()),
            Err(_) => false,
        };
        if same_version {
            return false;
        }
        let dev_build = !(git_release(head).is_some() && !build.debug_assertions);
        let channel = match &build.channel {
            Some(c) => Some(c.as_str()),
            None => None,
        };
        if self.release.prerelease && crate_channel(
            channel,
            build.debug_assertions,
            &build.crate_semver,
        ).is_none() {
            false
        } else {
            !dev_build
        }
    }
}

/// What the user allows the addon to do about updates.
#[allow(inconsistent_fields)]
pub enum UpdatePreference {
    /// Ask before updating; remembers the version last authorized (`Ok`)
    /// or refused (`Err`).
    Ask { authorized: Option<Result<String, String>> },
    /// Update once, to the version given.
    Once { authorized: String },
    /// Never update.
    Never,
}

/// Mathematical view of an update preference.
#[allow(inconsistent_fields)]
pub enum UpdatePreferenceView {
    Ask { authorized: Option<Result<Seq<char>, Seq<char>>> },
    Once { authorized: Seq<char> },
    Never,
}

impl View for UpdatePreference {
    type V = UpdatePreferenceView;

    open spec fn view(&self) -> UpdatePreferenceView {
        match self {
            UpdatePreference::Ask { authorized } => UpdatePreferenceView::Ask {
                authorized: match authorized {
                    Some(Ok(v)) => Some(Ok(v@)),
                    Some(Err(v)) => Some(Err(v@)),
                    None => None,
                },
            },
            UpdatePreference::Once { authorized } => UpdatePreferenceView::Once {
                authorized: authorized@,
            },
            UpdatePreference::Never => UpdatePreferenceView::Never,
        }
    }
}

impl UpdatePreference {
    /// Ask before updating, with nothing remembered.
    pub fn ask() -> (r: UpdatePreference)
        ensures
            r@ == (UpdatePreferenceView::Ask { authorized: None }),
    {
        UpdatePreference::Ask { authorized: None }
    }

    /// A copy of this preference.
    pub fn duplicate(&self) -> (r: UpdatePreference)
        ensures
            r@ == self@,
    {
        match self {
            UpdatePreference::Ask { authorized } => UpdatePreference::Ask {
                authorized: match authorized {
                    Some(Ok(v)) => Some(Ok(v.clone())),
                    Some(Err(v)) => Some(Err(v.clone())),
                    None => None,
                },
            },
            UpdatePreference::Once { authorized } => UpdatePreference::Once {
                authorized: authorized.clone(),
            },
            UpdatePreference::Never => UpdatePreference::Never,
        }
    }
}

/// The part of the persisted addon state that concerns updates.
pub struct UpdateState {
    /// The preference the user chose, if any.
    pub update_preference: Option<UpdatePreference>,
    /// The id of the latest release seen that was not installed.
    pub update_remote_version: Option<String>,
}

/// View of an optional preference.
pub open spec fn opt_pref(p: Option<UpdatePreference>) -> Option<UpdatePreferenceView> {
    match p {
        Some(p) => Some(p@),
        None => None,
    }
}

/// The preference in effect, given the one the state reports and the
/// running version: a remembered decision about the running version itself
/// is outdated, so asking forgets it and a one-time update becomes `Never`.
/// The flag tells whether it was outdated.
pub open spec fn spec_get_preference(current: UpdatePreferenceView, crate_version: Seq<char>) -> (
    UpdatePreferenceView,
    bool,
) {
    match current {
        UpdatePreferenceView::Ask { authorized: Some(Ok(v)) } if v == crate_version => (
            UpdatePreferenceView::Ask { authorized: None },
            true,
        ),
        UpdatePreferenceView::Ask { authorized: Some(Err(v)) } if v == crate_version => (
            UpdatePreferenceView::Ask { authorized: None },
            true,
        ),
        UpdatePreferenceView::Once { authorized } if authorized == crate_version => (
            UpdatePreferenceView::Never,
            true,
        ),
        pref => (pref, false),
    }
}

/// How the state changes once the latest release is known (`latest`, the
/// id of a release not installed) or known to be installed (`None`): a
/// remembered authorization or a one-time update is spent, and the latest
/// id is recorded. Nothing changes when there is neither a preference nor
/// a release.
pub open spec fn spec_mark_update_outdated(
    pref: Option<UpdatePreferenceView>,
    remote: Option<Seq<char>>,
    latest: Option<Seq<char>>,
) -> (Option<UpdatePreferenceView>, Option<Seq<char>>) {
    if latest is None && pref is None {
        (pref, remote)
    } else {
        let updated = match pref {
            Some(UpdatePreferenceView::Ask { authorized: Some(_) }) => Some(
                UpdatePreferenceView::Ask { authorized: None },
            ),
            Some(UpdatePreferenceView::Once { .. }) => Some(UpdatePreferenceView::Never),
            _ => pref,
        };
        (updated, latest)
    }
}

/// Decides about updates.
pub struct Updater;

impl Updater {
    /// The preference in effect; see [`spec_get_preference`]. An outdated
    /// preference is also marked outdated in `state`.
    pub fn get_preference(state: &mut UpdateState, current: &UpdatePreference, crate_version: &str) -> (r:
        UpdatePreference)
        ensures
            r@ == spec_get_preference(current@, crate_version@).0,
            spec_get_preference(current@, crate_version@).1 ==> (opt_pref(
                final(state).update_preference,
            ), opt_string(final(state).update_remote_version)) == spec_mark_update_outdated(
                opt_pref(old(state).update_preference),
                opt_string(old(state).update_remote_version),
                None,
            ),
            !spec_get_preference(current@, crate_version@).1 ==> *final(state) == *old(state),
    {
        let (pref, outdated) = match current {
            UpdatePreference::Ask { authorized: Some(Ok(v)) } if str_eq(
                v.as_str(),
                crate_version,
            ) => (UpdatePreference::ask(), true),
            UpdatePreference::Ask { authorized: Some(Err(v)) } if str_eq(
                v.as_str(),
                crate_version,
            ) => (UpdatePreference::ask(), true),
            UpdatePreference::Once { authorized } if str_eq(authorized.as_str(), crate_version) => (
                UpdatePreference::Never,
                true,
            ),
            pref => (pref.duplicate(), false),
        };
        if outdated {
            Self::mark_update_outdated(state, None);
        }
        pref
    }

    /// Whether a version text named in a preference is the running version:
    /// literally, or by semantic-version precedence.
    pub fn version_pref_matches_crate(pref: &str, build: &BuildInfo) -> (r: bool)
        ensures
            r == (pref@ == build.crate_version@ || (semver_parse(pref@) matches Some(v)
                && semver_cmp_precedence(build.crate_semver@, v) == 0)),
    {
        if str_eq(pref, build.crate_version.as_str()) {
            return true;
        }
        match SemVersion::parse(pref) {
            Ok(version) => build.crate_semver.precedence(&version) == 0,
            Err(_) => false,
        }
    }

    /// Records what is known about the latest release; see [`spec_mark_update_outdated`].
    pub fn mark_update_outdated(state: &mut UpdateState, latest: Option<&ResolvedVersion>)
        ensures
            (opt_pref(final(state).update_preference), opt_string(
                final(state).update_remote_version,
            )) == spec_mark_update_outdated(
                opt_pref(old(state).update_preference),
                opt_string(old(state).update_remote_version),
                match latest {
                    Some(l) => Some(l.release.tag_name@),
                    None => None,
                },
            ),
    {
        if latest.is_none() && state.update_preference.is_none() {
            return;
        }
        let updated = match &state.update_preference {
            Some(UpdatePreference::Ask { authorized: Some(_) }) => Some(UpdatePreference::ask()),
            Some(UpdatePreference::Once { .. }) => Some(UpdatePreference::Never),
            _ => None,
        };
        match updated {
            Some(pref) => {
                state.update_preference = Some(pref);
            },
            None => {},
        }
        state.update_remote_version = match latest {
            Some(l) => Some(String::from_str(l.version_id())),
            None => None,
        };
    }

    /// Performs an update through the first host that can: only Nexus can
    /// (`nexus`, none when this build does not support it).
    pub fn perform(nexus: Option<RuntimeResult<Option<()>>>) -> (r: RuntimeResult<()>)
        ensures
            r == spec_first_answer(nexus, None),
    {
        first_answer(nexus, None)
    }

    /// Decides on the latest release: it must have a DLL; it is taken when
    /// it is an update and the user authorized it (`authorized`, `None` when
    /// the user was not asked yet, in which case it is recorded for them).
    pub fn notify_latest(
        state: &mut UpdateState,
        release: &ResolvedVersion,
        build: &BuildInfo,
        authorized: Option<bool>,
    ) -> (r: Result<bool, UpdateError>)
        ensures
            spec_dll_url(release.release.assets@) is None ==> (r matches Err(e) && e is MissingDll)
                && *final(state) == *old(state),
            spec_dll_url(release.release.assets@) is Some && !release.spec_is_update(*build) ==> r
                == Ok::<bool, UpdateError>(false) && *final(state) == *old(state),
            spec_dll_url(release.release.assets@) is Some && release.spec_is_update(*build) ==> match
                authorized {
                Some(a) => r == Ok::<bool, UpdateError>(a) && *final(state) == *old(state),
                None => r == Ok::<bool, UpdateError>(false) && (opt_pref(
                    final(state).update_preference,
                ), opt_string(final(state).update_remote_version)) == spec_mark_update_outdated(
                    opt_pref(old(state).update_preference),
                    opt_string(old(state).update_remote_version),
                    Some(release.release.tag_name@),
                ),
            },
    {
        match release.dll_url() {
            Ok(_) => {},
            Err(e) => return Err(e),
        }
        if !release.is_update(build) {
            return Ok(false);
        }
        match authorized {
            None => {
                Self::mark_update_outdated(state, Some(release));
                Ok(false)
            },
            Some(a) => Ok(a),
        }
    }
}

/// A release worth considering for the channel: its tag resolves and its
/// channel is `channel`.
pub open spec fn is_candidate(release: GitHubLatestRelease, channel: Option<Seq<char>>) -> bool {
    match spec_tag_version(release.tag_name@) {
        Ok(version) => spec_release_channel(release, version) == channel,
        Err(_) => false,
    }
}

fn opt_str_eq(a: Option<&str>, b: Option<&str>) -> (r: bool)
    ensures
        r == (opt_chars(a) == opt_chars(b)),
{
    match (a, b) {
        (Some(x), Some(y)) => str_eq(x, y),
        (None, None) => true,
        _ => false,
    }
}

/// The releases of `channel` among `releases`, resolved, in their order;
/// releases whose tag does not resolve are dropped.
pub fn release_candidates(releases: Vec<GitHubLatestRelease>, channel: Option<&str>) -> (r: Vec<
    ResolvedVersion,
>)
    ensures
        r@.map_values(|v: ResolvedVersion| v.release) == releases@.filter(
            |rel: GitHubLatestRelease| is_candidate(rel, opt_chars(channel)),
        ),
        forall|k: int|
            0 <= k < r@.len() ==> Ok::<Option<SemVersionView>, ()>(opt_version(#[trigger] r@[k].version))
                == spec_tag_version(r@[k].release.tag_name@),
{
    let ghost all = releases@;
    let mut releases = releases;
    let mut out: Vec<ResolvedVersion> = Vec::new();
    let n = releases.len();
    let mut i: usize = 0;
    assert(all.skip(0) =~= all);
    while i < n
        invariant
            n == all.len(),
            i <= n,
            releases@ == all.skip(i as int),
            out@.map_values(|v: ResolvedVersion| v.release) == all.take(i as int).filter(
                |rel: GitHubLatestRelease| is_candidate(rel, opt_chars(channel)),
            ),
            forall|k: int|
                0 <= k < out@.len() ==> Ok::<Option<SemVersionView>, ()>(opt_version(
                    #[trigger] out@[k].version,
                )) == spec_tag_version(out@[k].release.tag_name@),
        decreases n - i,
    {
        let release = releases.remove(0);
        let ghost prev = out@;
        assert(release == all[i as int]);
        assert(releases@ =~= all.skip(i + 1));
        let ghost keep = is_candidate(all[i as int], opt_chars(channel));
        match ResolvedVersion::with_gh_release(release) {
            Ok(resolved) => {
                assert(resolved.release == all[i as int]);
                assert(spec_tag_version(resolved.release.tag_name@) == Ok::<Option<SemVersionView>, ()>(opt_version(resolved.version)));
                if opt_str_eq(resolved.version_channel(), channel) {
                    out.push(resolved);
                    assert(keep);
                } else {
                    assert(!keep);
                }
            },
            Err(_) => {
                assert(!keep);
            },
        }
        proof {
            reveal_with_fuel(Seq::filter, 1);
            assert(all.take(i + 1).drop_last() =~= all.take(i as int));
            assert(all.take(i + 1).last() == all[i as int]);
            if out@.len() > prev.len() {
                assert(out@.map_values(|v: ResolvedVersion| v.release) =~= prev.map_values(
                    |v: ResolvedVersion| v.release,
                ).push(all[i as int]));
            } else {
                assert(out@ == prev);
            }
        }
        i = i + 1;
    }
    assert(all.take(n as int) =~= all);
    out
}

/// The version a release's tag resolves to, if any.
pub open spec fn tag_semver(release: GitHubLatestRelease) -> Option<SemVersionView> {
    match spec_tag_version(release.tag_name@) {
        Ok(v) => v,
        Err(_) => None,
    }
}

/// How two releases order when looking for the newest: by semantic
/// precedence when both tags carry a version, otherwise by creation time.
pub open spec fn release_order(l: GitHubLatestRelease, r: GitHubLatestRelease) -> int {
    match (tag_semver(l), tag_semver(r)) {
        (Some(a), Some(b)) => semver_cmp_precedence(a, b),
        _ => lex_order(l.created_at@, r.created_at@),
    }
}

/// Index of the newest of the first `n` releases: going through them in
/// order, each takes over from the newest so far unless it orders strictly
/// before it, so the last of equally new releases wins.
pub open spec fn newest_index(releases: Seq<GitHubLatestRelease>, n: int) -> int
    decreases n,
{
    if n <= 1 {
        0
    } else {
        let best = newest_index(releases, n - 1);
        if release_order(releases[best], releases[n - 1]) <= 0 {
            n - 1
        } else {
            best
        }
    }
}

/// A resolved release carries the version its tag resolves to.
pub open spec fn resolved_consistent(v: ResolvedVersion) -> bool {
    Ok::<Option<SemVersionView>, ()>(opt_version(v.version)) == spec_tag_version(
        v.release.tag_name@,
    )
}

/// Every release's tag carries a version.
pub open spec fn all_versioned(releases: Seq<GitHubLatestRelease>) -> bool {
    forall|k: int| 0 <= k < releases.len() ==> #[trigger] tag_semver(releases[k]) is Some
}

/// No release's tag carries a version.
pub open spec fn none_versioned(releases: Seq<GitHubLatestRelease>) -> bool {
    forall|k: int| 0 <= k < releases.len() ==> #[trigger] tag_semver(releases[k]) is None
}

fn resolved_order(l: &ResolvedVersion, r: &ResolvedVersion) -> (o: i8)
    requires
        resolved_consistent(*l),
        resolved_consistent(*r),
    ensures
        o == release_order(l.release, r.release),
        l.version is Some && r.version is Some ==> release_order(r.release, l.release) == -o,
        l.version is Some && r.version is Some && o <= 0 ==> forall|x: GitHubLatestRelease|
            #[trigger] tag_semver(x) is Some && release_order(x, l.release) <= 0 ==> release_order(
                x,
                r.release,
            ) <= 0,
{
    match (&l.version, &r.version) {
        (Some(a), Some(b)) => {
            let o = a.precedence(b);
            proof {
                if o <= 0 {
                    assert forall|x: GitHubLatestRelease|
                        #[trigger] tag_semver(x) is Some && release_order(x, l.release) <= 0 implies release_order(
                        x,
                        r.release,
                    ) <= 0 by {
                        let text = strip_prefix_spec(x.tag_name@, "v"@)->0;
                        assert(semver_parse(text) is Some);
                    }
                }
            }
            o
        },
        _ => {
            proof {
                lemma_lex_order_antisymmetric(l.release.created_at@, r.release.created_at@);
            }
            str_order(l.release.created_at.as_str(), r.release.created_at.as_str())
        },
    }
}

fn newest_candidate(candidates: Vec<ResolvedVersion>) -> (r: Option<ResolvedVersion>)
    requires
        forall|k: int| 0 <= k < candidates@.len() ==> resolved_consistent(#[trigger] candidates@[k]),
    ensures
        candidates@.len() == 0 ==> r is None,
        candidates@.len() > 0 ==> r == Some(
            candidates@[newest_index(
                candidates@.map_values(|v: ResolvedVersion| v.release),
                candidates@.len() as int,
            )],
        ),
        ({
            let rels = candidates@.map_values(|v: ResolvedVersion| v.release);
            let idx = newest_index(rels, rels.len() as int);
            all_versioned(rels) ==> forall|k: int|
                0 <= k < rels.len() && k != idx ==> release_order(#[trigger] rels[k], rels[idx])
                    <= 0
        }),
{
    let n = candidates.len();
    if n == 0 {
        return None;
    }
    let ghost rels = candidates@.map_values(|v: ResolvedVersion| v.release);
    let mut best: usize = 0;
    let mut i: usize = 1;
    while i < n
        invariant
            n == candidates@.len(),
            rels == candidates@.map_values(|v: ResolvedVersion| v.release),
            forall|k: int|
                0 <= k < candidates@.len() ==> resolved_consistent(#[trigger] candidates@[k]),
            1 <= i <= n,
            best < i,
            best == newest_index(rels, i as int),
            all_versioned(rels) ==> forall|k: int|
                0 <= k < i && k != best ==> release_order(#[trigger] rels[k], rels[best as int])
                    <= 0,
        decreases n - i,
    {
        assert(rels[best as int] == candidates@[best as int].release);
        assert(rels[i as int] == candidates@[i as int].release);
        let ghost old_best = best;
        let o = resolved_order(&candidates[best], &candidates[i]);
        proof {
            if all_versioned(rels) {
                assert(tag_semver(rels[best as int]) is Some);
                assert(tag_semver(rels[i as int]) is Some);
            }
        }
        if o <= 0 {
            best = i;
            proof {
                if all_versioned(rels) {
                    assert forall|k: int| 0 <= k < i + 1 && k != best implies release_order(
                        #[trigger] rels[k],
                        rels[best as int],
                    ) <= 0 by {
                        if k != old_best {
                            assert(tag_semver(rels[k]) is Some);
                            assert(release_order(rels[k], rels[old_best as int]) <= 0);
                        }
                    }
                }
            }
        }
        i = i + 1;
    }
    let mut candidates = candidates;
    Some(candidates.swap_remove(best))
}

/// The newest release of `channel` among `releases` (see
/// [`is_candidate`] and [`newest_index`]), or the error naming the channel
/// when there is none.
pub fn latest_of_releases(releases: Vec<GitHubLatestRelease>, channel: Option<&str>) -> (r: Result<
    ResolvedVersion,
    UpdateError,
>)
    ensures
        ({
            let cands = releases@.filter(
                |rel: GitHubLatestRelease| is_candidate(rel, opt_chars(channel)),
            );
            &&& r is Err <==> cands.len() == 0
            &&& r matches Err(e) ==> (e matches UpdateError::NoReleases(c) && c@ == match channel {
                Some(ch) => ch@,
                None => Seq::<char>::empty(),
            })
            &&& r matches Ok(v) ==> v.release == cands[newest_index(cands, cands.len() as int)]
                && resolved_consistent(v)
            &&& r matches Ok(v) ==> is_candidate(v.release, opt_chars(channel)) && releases@.contains(
                v.release,
            )
            &&& r matches Ok(v) ==> (all_versioned(cands) ==> (forall|k: int|
                0 <= k < cands.len() && k != newest_index(cands, cands.len() as int)
                    ==> release_order(#[trigger] cands[k], v.release) <= 0))
            &&& r matches Ok(v) ==> (none_versioned(cands) ==> (forall|k: int|
                0 <= k < cands.len() ==> lex_order(
                    #[trigger] cands[k].created_at@,
                    v.release.created_at@,
                ) <= 0))
        }),
{
    let ghost releases_view = releases@;
    let candidates = release_candidates(releases, channel);
    let ghost cands = candidates@;
    assert forall|k: int| 0 <= k < cands.len() implies resolved_consistent(#[trigger] cands[k]) by {}
    match newest_candidate(candidates) {
        Some(v) => {
            proof {
                let idx = newest_index(
                    cands.map_values(|v: ResolvedVersion| v.release),
                    cands.len() as int,
                );
                lemma_newest_index_range(
                    cands.map_values(|v: ResolvedVersion| v.release),
                    cands.len() as int,
                );
                let rels = cands.map_values(|v: ResolvedVersion| v.release);
                assert(cands[idx].release == rels[idx]);
                let pred = |rel: GitHubLatestRelease| is_candidate(rel, opt_chars(channel));
                assert(rels == releases_view.filter(pred));
                releases_view.lemma_filter_pred(pred, idx);
                assert(rels.contains(rels[idx]));
                releases_view.lemma_filter_contains_rev(pred, rels[idx]);
                if none_versioned(rels) {
                    lemma_newest_unversioned_is_latest_created(rels, rels.len() as int);
                }
            }
            Ok(v)
        },
        None => {
            let c = match channel {
                Some(ch) => String::from_str(ch),
                None => String::new(),
            };
            Err(UpdateError::NoReleases(c))
        },
    }
}

/// The newest of the first `n` releases is one of them.
pub proof fn lemma_newest_index_range(releases: Seq<GitHubLatestRelease>, n: int)
    requires
        1 <= n,
    ensures
        0 <= newest_index(releases, n) < n,
    decreases n,
{
    if n > 1 {
        lemma_newest_index_range(releases, n - 1);
    }
}

/// Every release after the newest one orders strictly before it.
pub proof fn lemma_newest_beats_later(releases: Seq<GitHubLatestRelease>, n: int, k: int)
    requires
        1 <= n,
        newest_index(releases, n) < k < n,
    ensures
        release_order(releases[newest_index(releases, n)], releases[k]) > 0,
    decreases n,
{
    lemma_newest_index_range(releases, n - 1);
    if n > 1 && newest_index(releases, n) == newest_index(releases, n - 1) {
        if k < n - 1 {
            lemma_newest_beats_later(releases, n - 1, k);
        }
    }
}

/// Where the releases order consistently (a total preorder, as creation
/// times do), the newest one found orders after or level with every one of
/// them, and strictly after every later one.
pub proof fn lemma_newest_is_latest(releases: Seq<GitHubLatestRelease>, n: int)
    requires
        1 <= n <= releases.len(),
        forall|i: int, j: int|
            0 <= i < n && 0 <= j < n ==> #[trigger] release_order(releases[i], releases[j])
                == -release_order(releases[j], releases[i]),
        forall|i: int, j: int, k: int|
            0 <= i < n && 0 <= j < n && 0 <= k < n && #[trigger] release_order(releases[i], releases[j]) <= 0
                && #[trigger] release_order(releases[j], releases[k]) <= 0 ==> release_order(
                releases[i],
                releases[k],
            ) <= 0,
    ensures
        0 <= newest_index(releases, n) < n,
        forall|k: int|
            0 <= k < n ==> release_order(releases[k], releases[newest_index(releases, n)]) <= 0,
        forall|k: int|
            newest_index(releases, n) < k < n ==> release_order(
                releases[newest_index(releases, n)],
                releases[k],
            ) > 0,
    decreases n,
{
    lemma_newest_index_range(releases, n);
    let r = newest_index(releases, n);
    assert forall|k: int| r < k < n implies release_order(releases[r], releases[k]) > 0 by {
        lemma_newest_beats_later(releases, n, k);
    }
    if n == 1 {
        assert(release_order(releases[0], releases[0]) == -release_order(releases[0], releases[0]));
    } else {
        lemma_newest_is_latest(releases, n - 1);
        let best = newest_index(releases, n - 1);
        assert(release_order(releases[n - 1], releases[n - 1]) == -release_order(
            releases[n - 1],
            releases[n - 1],
        ));
        if release_order(releases[best], releases[n - 1]) <= 0 {
            assert forall|k: int| 0 <= k < n implies #[trigger] release_order(
                releases[k],
                releases[n - 1],
            ) <= 0 by {
                if k < n - 1 {
                    assert(release_order(releases[k], releases[best]) <= 0);
                }
            }
        } else {
            assert(release_order(releases[n - 1], releases[best]) == -release_order(
                releases[best],
                releases[n - 1],
            ));
        }
    }
}

/// Releases whose tags carry no version order by creation time alone, which
/// is a total order: the newest found is then the latest created, and the
/// last of those created at the same time.
pub proof fn lemma_newest_unversioned_is_latest_created(releases: Seq<GitHubLatestRelease>, n: int)
    requires
        1 <= n <= releases.len(),
        forall|k: int| 0 <= k < n ==> #[trigger] tag_semver(releases[k]) is None,
    ensures
        forall|k: int|
            0 <= k < n ==> lex_order(
                releases[k].created_at@,
                releases[newest_index(releases, n)].created_at@,
            ) <= 0,
        forall|k: int|
            newest_index(releases, n) < k < n ==> lex_order(
                releases[newest_index(releases, n)].created_at@,
                releases[k].created_at@,
            ) > 0,
{
    assert forall|i: int, j: int|
        0 <= i < n && 0 <= j < n implies #[trigger] release_order(releases[i], releases[j])
        == -release_order(releases[j], releases[i]) by {
        assert(tag_semver(releases[i]) is None);
        lemma_lex_order_antisymmetric(releases[i].created_at@, releases[j].created_at@);
    }
    assert forall|i: int, j: int, k: int|
        0 <= i < n && 0 <= j < n && 0 <= k < n && #[trigger] release_order(releases[i], releases[j])
            <= 0 && #[trigger] release_order(releases[j], releases[k]) <= 0 implies release_order(
        releases[i],
        releases[k],
    ) <= 0 by {
        assert(tag_semver(releases[i]) is None);
        assert(tag_semver(releases[j]) is None);
        lemma_lex_order_transitive(
            releases[i].created_at@,
            releases[j].created_at@,
            releases[k].created_at@,
        );
    }
    lemma_newest_is_latest(releases, n);
    let r = newest_index(releases, n);
    assert(tag_semver(releases[r]) is None);
    assert forall|k: int| 0 <= k < n implies lex_order(
        releases[k].created_at@,
        releases[r].created_at@,
    ) <= 0 by {
        assert(tag_semver(releases[k]) is None);
        assert(release_order(releases[k], releases[r]) <= 0);
    }
    assert forall|k: int| r < k < n implies lex_order(
        releases[r].created_at@,
        releases[k].created_at@,
    ) > 0 by {
        assert(tag_semver(releases[k]) is None);
        assert(release_order(releases[r], releases[k]) > 0);
    }
}

/// Only builds that follow no channel ask GitHub for its single latest
/// release; the others look through the list of releases.
pub fn checks_latest_release(channel: Option<&str>) -> (r: bool)
    ensures
        r == channel is None,
{
    channel.is_none()
}

/// Decides on the single latest release GitHub reports: a pre-release is
/// passed over (`Ok(None)`, look through the list instead); any other is
/// resolved.
pub fn accept_latest_release(latest: GitHubLatestRelease) -> (r: Result<
    Option<ResolvedVersion>,
    UpdateError,
>)
    ensures
        latest.prerelease ==> r matches Ok(None),
        !latest.prerelease ==> match r {
            Ok(Some(v)) => v.release == latest && resolved_consistent(v),
            Ok(None) => false,
            Err(e) => spec_tag_version(latest.tag_name@) is Err && (e matches UpdateError::VersionUnrecognized(
                t,
            ) && t@ == latest.tag_name@),
        },
        !latest.prerelease ==> (r is Ok <==> spec_tag_version(latest.tag_name@) is Ok),
{
    if latest.prerelease {
        return Ok(None);
    }
    match ResolvedVersion::with_gh_release(latest) {
        Ok(v) => Ok(Some(v)),
        Err(e) => Err(e),
    }
}

/// A preference that names no decision about the running version is in
/// effect as it stands, and nothing is recorded as outdated: asking with no
/// version remembered, never updating, a one-time update to another
/// version, or a remembered decision about another version.
pub proof fn lemma_preference_kept_unless_running(current: UpdatePreferenceView, crate_version: Seq<char>)
    ensures
        (current matches UpdatePreferenceView::Once { authorized } && authorized != crate_version)
            ==> spec_get_preference(current, crate_version) == (current, false),
        current is Never ==> spec_get_preference(current, crate_version) == (current, false),
        (current matches UpdatePreferenceView::Ask { authorized: None }) ==> spec_get_preference(
            current,
            crate_version,
        ) == (current, false),
        (current matches UpdatePreferenceView::Ask { authorized: Some(Ok(v)) } && v != crate_version)
            ==> spec_get_preference(current, crate_version) == (current, false),
        (current matches UpdatePreferenceView::Ask { authorized: Some(Err(v)) } && v != crate_version)
            ==> spec_get_preference(current, crate_version) == (current, false),
        (current matches UpdatePreferenceView::Once { authorized } && authorized == crate_version)
            ==> spec_get_preference(current, crate_version) == (UpdatePreferenceView::Never, true),
{
}

/// A release whose version orders before the running build's by semantic
/// precedence is never an update, pre-release or not.
pub proof fn lemma_older_release_is_no_update(release: ResolvedVersion, build: BuildInfo)
    ensures
        (release.version matches Some(v) && semver_cmp_precedence(v@, build.crate_semver@) < 0)
            ==> !release.spec_is_update(build),
{
}

/// A release whose tag carries no version and that GitHub marks as a
/// pre-release belongs to the `rc` channel, so a build that follows no
/// channel never takes it as a candidate; neither does it take a tag with
/// `-rc.` in it.
pub proof fn lemma_unversioned_prerelease_is_rc(release: GitHubLatestRelease)
    ensures
        spec_tag_version(release.tag_name@) == Ok::<Option<SemVersionView>, ()>(None) && (
        release.prerelease || contains_spec(release.tag_name@, "-rc."@)) ==> spec_release_channel(
            release,
            None,
        ) == Some(CHANNEL_PRERELEASE@) && !is_candidate(release, None),
        is_candidate(release, None) && tag_semver(release) is None ==> !release.prerelease,
{
    reveal_strlit("rc");
}

/// A remembered decision about the running version never survives: the
/// preference in effect neither authorizes, refuses nor schedules it.
pub proof fn lemma_preference_never_names_running_version(
    current: UpdatePreferenceView,
    crate_version: Seq<char>,
)
    ensures
        !(spec_get_preference(current, crate_version).0 matches UpdatePreferenceView::Ask {
            authorized: Some(Ok(v)),
        } && v == crate_version),
        !(spec_get_preference(current, crate_version).0 matches UpdatePreferenceView::Ask {
            authorized: Some(Err(v)),
        } && v == crate_version),
        !(spec_get_preference(current, crate_version).0 matches UpdatePreferenceView::Once {
            authorized,
        } && authorized == crate_version),
{
}

/// Working out the preference in effect a second time changes nothing.
pub proof fn lemma_get_preference_idempotent(current: UpdatePreferenceView, crate_version: Seq<char>)
    ensures
        spec_get_preference(spec_get_preference(current, crate_version).0, crate_version) == (
            spec_get_preference(current, crate_version).0,
            false,
        ),
{
}

/// Recording the same latest release twice leaves the state as recording it once.
pub proof fn lemma_mark_update_outdated_idempotent(
    pref: Option<UpdatePreferenceView>,
    remote: Option<Seq<char>>,
    latest: Option<Seq<char>>,
)
    ensures
        ({
            let once = spec_mark_update_outdated(pref, remote, latest);
            spec_mark_update_outdated(once.0, once.1, latest) == once
        }),
{
}

/// A debug build never takes an update, and neither does a build of the
/// release's own version.
pub proof fn lemma_no_update_for_debug_or_same_version(release: ResolvedVersion, build: BuildInfo)
    ensures
        build.debug_assertions ==> !release.spec_is_update(build),
        (release.version matches Some(v) && semver_cmp_precedence(v@, build.crate_semver@) == 0)
            ==> !release.spec_is_update(build),
        strip_prefix_spec(release.release.tag_name@, "v"@) == Some(build.crate_version@)
            ==> !release.spec_is_update(build),
{
}

} // verus!
