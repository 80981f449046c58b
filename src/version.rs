//! Release versions in semantic-versioning form and semver's order on them.
use vstd::prelude::*;
use crate::text::same_text;

verus! {

/// The parts of a version: major, minor, patch, pre-release and build texts.
pub type VersionParts = (u64, u64, u64, Seq<char>, Seq<char>);

/// A release version: `major.minor.patch`, then the pre-release and build
/// texts (empty when absent).
#[derive(Debug, Clone, PartialEq, Eq)]
pub struct Version {
    pub major: u64,
    pub minor: u64,
    pub patch: u64,
    pub pre: String,
    pub build: String,
}

impl Version {
    /// The parts of the version.
    pub open spec fn parts(&self) -> VersionParts {
        (self.major, self.minor, self.patch, self.pre@, self.build@)
    }
}

/// What semver's order says of two versions: negative, zero or positive as
/// the first is less than, equal to or greater than the second.
pub uninterp spec fn semver_cmp(a: VersionParts, b: VersionParts) -> int;

/// What semver's parser makes of a text: the parts of the version, or
/// nothing when the text is not a version.
pub uninterp spec fn semver_parts(s: Seq<char>) -> Option<VersionParts>;

/// `a < b` in semver's order.
pub open spec fn version_lt(a: Version, b: Version) -> bool {
    semver_cmp(a.parts(), b.parts()) < 0
}

/// `a <= b` in semver's order.
pub open spec fn version_le(a: Version, b: Version) -> bool {
    semver_cmp(a.parts(), b.parts()) <= 0
}

/// The two versions have the same parts.
pub open spec fn same_version(a: Version, b: Version) -> bool {
    a.parts() == b.parts()
}

/// Relies on semver::Version::parse: the parts of a version text, or `None`
/// when it does not parse.
#[verifier::external_body]
fn semver_parse(s: &str) -> (r: Option<(u64, u64, u64, String, String)>)
    ensures
        r is None <==> semver_parts(s@) is None,
        r matches Some(t) ==> semver_parts(s@) == Some((t.0, t.1, t.2, t.3@, t.4@)),
{
    semver::Version::parse(s).ok().map(
        |v| (v.major, v.minor, v.patch, v.pre.as_str().to_string(), v.build.as_str().to_string()),
    )
}

/// Relies on semver::Version's `Ord` (major, minor, patch, then pre-release
/// and build identifiers as semver ranks them): -1, 0 or 1.
#[verifier::external_body]
fn semver_compare(a: &Version, b: &Version) -> (r: i8)
    ensures
        r as int == semver_cmp(a.parts(), b.parts()),
        -1 <= r <= 1,
{
    let to_semver = |v: &Version| semver::Version {
        major: v.major,
        minor: v.minor,
        patch: v.patch,
        pre: semver::Prerelease::new(&v.pre).unwrap_or(semver::Prerelease::EMPTY),
        build: semver::BuildMetadata::new(&v.build).unwrap_or(semver::BuildMetadata::EMPTY),
    };
    match to_semver(a).cmp(&to_semver(b)) {
        std::cmp::Ordering::Less => -1,
        std::cmp::Ordering::Equal => 0,
        std::cmp::Ordering::Greater => 1,
    }
}

impl Version {
    /// A release version `major.minor.patch` without pre-release or build parts.
    pub fn release(major: u64, minor: u64, patch: u64) -> (r: Version)
        ensures
            r.parts() == (major, minor, patch, Seq::<char>::empty(), Seq::<char>::empty()),
    {
        Version { major, minor, patch, pre: String::new(), build: String::new() }
    }

    /// Parses a version text (`"1.2.3"`, `"1.2.3-rc.1"`).
    pub fn parse(s: &str) -> (r: Option<Version>)
        ensures
            r is None <==> semver_parts(s@) is None,
            r matches Some(v) ==> semver_parts(s@) == Some(v.parts()),
    {
        match semver_parse(s) {
            Some(t) => Some(Version { major: t.0, minor: t.1, patch: t.2, pre: t.3, build: t.4 }),
            None => None,
        }
    }

    /// A copy with the same parts.
    pub fn duplicate(&self) -> (r: Version)
        ensures
            r.parts() == self.parts(),
    {
        Version {
            major: self.major,
            minor: self.minor,
            patch: self.patch,
            pre: self.pre.clone(),
            build: self.build.clone(),
        }
    }

    /// `self < other` in semver's order.
    pub fn lt(&self, other: &Version) -> (r: bool)
        ensures
            r == version_lt(*self, *other),
    {
        semver_compare(self, other) < 0
    }

    /// `self <= other` in semver's order.
    pub fn le(&self, other: &Version) -> (r: bool)
        ensures
            r == version_le(*self, *other),
    {
        semver_compare(self, other) <= 0
    }

    /// Whether the two versions have the same parts.
    pub fn same(&self, other: &Version) -> (r: bool)
        ensures
            r == same_version(*self, *other),
    {
        self.major == other.major && self.minor == other.minor && self.patch == other.patch
            && same_text(self.pre.as_str(), other.pre.as_str()) && same_text(
            self.build.as_str(),
            other.build.as_str(),
        )
    }
}

} // verus!
