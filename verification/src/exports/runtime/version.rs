//! Semantic versions, parsed and ordered by the `semver` crate. The plain
//! fields are copies of what `semver` parsed; ordering asks `semver` itself.

use vstd::prelude::*;
use crate::text::{all_digits, decimal, is_digit, split_spec};

verus! {

/// `semver::Version`, carried opaquely.
#[verifier::external_type_specification]
#[verifier::external_body]
pub struct ExSemverVersion(semver::Version);

/// `semver::Error`, the reason a version did not parse.
#[verifier::external_type_specification]
#[verifier::external_body]
pub struct ExSemverError(semver::Error);

/// A semantic version: `major.minor.patch`, a pre-release and build metadata.
/// Values come only from `semver`, so the fields always agree with the
/// `semver::Version` kept beside them.
pub struct SemVersion {
    major: u64,
    minor: u64,
    patch: u64,
    pre: String,
    build: String,
    raw: semver::Version,
}

/// `(major, minor, patch, pre-release, build metadata)`.
pub type SemVersionView = (u64, u64, u64, Seq<char>, Seq<char>);

impl SemVersion {
    /// The pre-release and the build metadata are ones `semver` accepts:
    /// every version comes from `semver`.
    #[verifier::type_invariant]
    pub open spec fn well_formed(self) -> bool {
        identifier_ok(self@.3, true) && identifier_ok(self@.4, false)
    }
}

impl View for SemVersion {
    type V = SemVersionView;

    closed spec fn view(&self) -> SemVersionView {
        (self.major, self.minor, self.patch, self.pre@, self.build@)
    }
}

/// What `semver::Version::parse` gives for `text`, when it accepts it.
pub uninterp spec fn semver_parse(text: Seq<char>) -> Option<SemVersionView>;

/// What `semver::Version::cmp_precedence` gives for two versions: negative,
/// zero or positive as the first orders before, with or after the second.
pub uninterp spec fn semver_cmp_precedence(a: SemVersionView, b: SemVersionView) -> int;

/// Lexicographic order of version numbers: -1, 0 or 1.
pub open spec fn triple_order(a: SemVersionView, b: SemVersionView) -> int {
    if a.0 != b.0 {
        if a.0 < b.0 { -1 } else { 1 }
    } else if a.1 != b.1 {
        if a.1 < b.1 { -1 } else { 1 }
    } else if a.2 != b.2 {
        if a.2 < b.2 { -1 } else { 1 }
    } else {
        0
    }
}

/// Calls `semver::Version::parse`. Claims that it accepts exactly the texts
/// `semver_parse` maps to a version, and that the fields are those of the
/// parsed version, the pre-release and build metadata as their text.
#[verifier::external_body]
fn parse_semver(text: &str) -> (r: Result<SemVersion, semver::Error>)
    ensures
        r is Ok <==> semver_parse(text@) is Some,
        r matches Ok(v) ==> semver_parse(text@) == Some(v@),
        r matches Ok(v) ==> identifier_ok(v@.3, true) && identifier_ok(v@.4, false),
{
    match semver::Version::parse(text) {
        Ok(v) => Ok(SemVersion {
            major: v.major,
            minor: v.minor,
            patch: v.patch,
            pre: v.pre.as_str().to_string(),
            build: v.build.as_str().to_string(),
            raw: v,
        }),
        Err(e) => Err(e),
    }
}

/// Calls `semver::Version::new`. Claims, as its source shows, that the new
/// version has the given numbers and empty pre-release and build metadata.
#[verifier::external_body]
fn new_semver(major: u64, minor: u64, patch: u64) -> (r: SemVersion)
    ensures
        r@ == (major, minor, patch, Seq::<char>::empty(), Seq::<char>::empty()),
{
    SemVersion {
        major,
        minor,
        patch,
        pre: String::new(),
        build: String::new(),
        raw: semver::Version::new(major, minor, patch),
    }
}

/// Calls `semver::Version::cmp_precedence`, which orders by the tuple
/// (major, minor, patch, pre-release) and ignores build metadata. Claims,
/// as its source shows: the result is -1, 0 or 1; differing version numbers
/// decide by their lexicographic order; with equal numbers the result is 0
/// exactly when the pre-release texts are equal, and a version without a
/// pre-release orders after one with. How two different non-empty
/// pre-releases order is left to `semver_cmp_precedence`; but, as its source
/// shows (an `Ord` of the tuple, whose pre-release part is a total order),
/// the order is total: swapping the sides flips the result, and a version
/// that orders no later than `a` orders no later than `b` when `a` orders
/// no later than `b`, for every version `semver` parses.
#[verifier::external_body]
fn semver_precedence(a: &SemVersion, b: &SemVersion) -> (r: i8)
    ensures
        r == semver_cmp_precedence(a@, b@),
        -1 <= r <= 1,
        semver_cmp_precedence(b@, a@) == -r,
        r <= 0 ==> forall|t: Seq<char>|
            #![trigger semver_parse(t)]
            semver_parse(t) is Some && semver_cmp_precedence(semver_parse(t)->0, a@) <= 0
                ==> semver_cmp_precedence(semver_parse(t)->0, b@) <= 0,
        triple_order(a@, b@) != 0 ==> r == triple_order(a@, b@),
        triple_order(a@, b@) == 0 ==> (r == 0 <==> a@.3 == b@.3),
        triple_order(a@, b@) == 0 && a@.3.len() == 0 && b@.3.len() > 0 ==> r == 1,
        triple_order(a@, b@) == 0 && a@.3.len() > 0 && b@.3.len() == 0 ==> r == -1,
{
    match a.raw.cmp_precedence(&b.raw) {
        core::cmp::Ordering::Less => -1,
        core::cmp::Ordering::Equal => 0,
        core::cmp::Ordering::Greater => 1,
    }
}

/// A version's text as `semver` writes it: `major.minor.patch`, then
/// `-pre-release` and `+build` where those are not empty.
pub open spec fn version_text(v: SemVersionView) -> Seq<char> {
    decimal(v.0 as nat) + "."@ + decimal(v.1 as nat) + "."@ + decimal(v.2 as nat) + (if v.3.len()
        == 0 {
        Seq::<char>::empty()
    } else {
        "-"@ + v.3
    }) + (if v.4.len() == 0 {
        Seq::<char>::empty()
    } else {
        "+"@ + v.4
    })
}

/// Calls `Display` of `semver::Version`, through `to_string`. Claims, as its
/// source shows (no width is given, so nothing is padded): the numbers in
/// decimal joined by dots, then `-` and the pre-release and `+` and the
/// build metadata, each only when not empty.
#[verifier::external_body]
fn semver_text(v: &SemVersion) -> (r: String)
    ensures
        r@ == version_text(v@),
{
    v.raw.to_string()
}

/// A character `semver` allows in pre-release and build identifiers: an
/// ASCII letter or digit, or `-`.
pub open spec fn identifier_char(c: char) -> bool {
    (65 <= (c as u32) <= 90) || (97 <= (c as u32) <= 122) || is_digit(c) || c == '-'
}

/// A dot-separated part of an identifier that `semver` accepts: not empty,
/// made of identifier characters; in a pre-release (`pre`), a part of
/// digits only has no leading zero unless it is a single digit.
pub open spec fn identifier_segment_ok(segment: Seq<char>, pre: bool) -> bool {
    &&& segment.len() > 0
    &&& forall|i: int| 0 <= i < segment.len() ==> identifier_char(#[trigger] segment[i])
    &&& !(pre && segment.len() > 1 && all_digits(segment) && segment[0] == '0')
}

/// What `semver::Prerelease::new` (`pre`) or `semver::BuildMetadata::new`
/// accepts: the empty text, or parts separated by single dots that are
/// each acceptable.
pub open spec fn identifier_ok(text: Seq<char>, pre: bool) -> bool {
    text.len() == 0 || forall|i: int|
        0 <= i < split_spec(text, "."@).len() ==> identifier_segment_ok(
            #[trigger] split_spec(text, "."@)[i],
            pre,
        )
}

/// A non-empty identifier that `semver` accepts does not start with a dot.
pub proof fn lemma_identifier_starts_with_part(text: Seq<char>, pre: bool)
    requires
        identifier_ok(text, pre),
        text.len() > 0,
    ensures
        text[0] != '.',
{
    reveal_strlit(".");
    if text[0] == '.' {
        assert(crate::text::has_prefix(text, "."@));
        assert(split_spec(text, "."@)[0] == Seq::<char>::empty());
        assert(!identifier_segment_ok(split_spec(text, "."@)[0], pre));
    }
}

/// Calls `semver::Prerelease::new` and, when it accepts `text`, makes the
/// result the version's pre-release; a refused text leaves the version as it
/// is. Claims, as the source shows (`identifier` in its parser), that `new`
/// accepts exactly the texts `identifier_ok(_, true)` describes and keeps
/// the text as it is.
#[verifier::external_body]
pub(crate) fn try_set_prerelease(v: &mut SemVersion, text: &str) -> (accepted: bool)
    ensures
        accepted == identifier_ok(text@, true),
        accepted ==> final(v)@ == (old(v)@.0, old(v)@.1, old(v)@.2, text@, old(v)@.4),
        !accepted ==> final(v)@ == old(v)@,
{
    match semver::Prerelease::new(text) {
        Ok(pre) => {
            v.pre = pre.as_str().to_string();
            v.raw.pre = pre;
            true
        },
        Err(_) => false,
    }
}

/// Calls `semver::BuildMetadata::new` and, when it accepts `text`, makes the
/// result the version's build metadata; a refused text leaves the version as
/// it is. Claims, as the source shows, that `new` accepts exactly the texts
/// `identifier_ok(_, false)` describes and keeps the text as it is.
#[verifier::external_body]
pub(crate) fn try_set_build_metadata(v: &mut SemVersion, text: &str) -> (accepted: bool)
    ensures
        accepted == identifier_ok(text@, false),
        accepted ==> final(v)@ == (old(v)@.0, old(v)@.1, old(v)@.2, old(v)@.3, text@),
        !accepted ==> final(v)@ == old(v)@,
{
    match semver::BuildMetadata::new(text) {
        Ok(build) => {
            v.build = build.as_str().to_string();
            v.raw.build = build;
            true
        },
        Err(_) => false,
    }
}

/// A version text that `semver` does not accept.
#[derive(Debug)]
pub struct VersionParseError {
    pub text: String,
}

impl SemVersion {
    /// Parses a semantic version with `semver`.
    pub fn parse(text: &str) -> (r: Result<SemVersion, VersionParseError>)
        ensures
            r is Ok <==> semver_parse(text@) is Some,
            r matches Ok(v) ==> semver_parse(text@) == Some(v@),
            r matches Err(e) ==> e.text@ == text@,
    {
        match parse_semver(text) {
            Ok(v) => Ok(v),
            Err(_) => Err(VersionParseError { text: String::from_str(text) }),
        }
    }

    /// The version `major.minor.patch`.
    pub fn new(major: u64, minor: u64, patch: u64) -> (r: SemVersion)
        ensures
            r@ == (major, minor, patch, Seq::<char>::empty(), Seq::<char>::empty()),
    {
        new_semver(major, minor, patch)
    }

    /// The major version.
    pub fn major(&self) -> (r: u64)
        ensures
            r == self@.0,
    {
        self.major
    }

    /// The minor version.
    pub fn minor(&self) -> (r: u64)
        ensures
            r == self@.1,
    {
        self.minor
    }

    /// The patch version.
    pub fn patch(&self) -> (r: u64)
        ensures
            r == self@.2,
    {
        self.patch
    }

    /// The pre-release, empty for a release.
    pub fn pre(&self) -> (r: &str)
        ensures
            r@ == self@.3,
    {
        self.pre.as_str()
    }

    /// The build metadata.
    pub fn build(&self) -> (r: &str)
        ensures
            r@ == self@.4,
    {
        self.build.as_str()
    }

    /// The version's text; see [`version_text`].
    pub fn to_text(&self) -> (r: String)
        ensures
            r@ == version_text(self@),
    {
        semver_text(self)
    }

    /// Precedence of `self` against `other`: -1, 0 or 1; see [`semver_precedence`].
    pub fn precedence(&self, other: &SemVersion) -> (r: i8)
        ensures
            r == semver_cmp_precedence(self@, other@),
            -1 <= r <= 1,
            semver_cmp_precedence(other@, self@) == -r,
            r <= 0 ==> forall|t: Seq<char>|
                #![trigger semver_parse(t)]
                semver_parse(t) is Some && semver_cmp_precedence(semver_parse(t)->0, self@) <= 0
                    ==> semver_cmp_precedence(semver_parse(t)->0, other@) <= 0,
            triple_order(self@, other@) != 0 ==> r == triple_order(self@, other@),
            triple_order(self@, other@) == 0 ==> (r == 0 <==> self@.3 == other@.3),
            triple_order(self@, other@) == 0 && self@.3.len() == 0 && other@.3.len() > 0 ==> r
                == 1,
            triple_order(self@, other@) == 0 && self@.3.len() > 0 && other@.3.len() == 0 ==> r
                == -1,
    {
        semver_precedence(self, other)
    }
}

} // verus!
