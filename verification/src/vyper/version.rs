//! The `vyper` compiler version.

use vstd::prelude::*;

use crate::text::chars_of;
use crate::text::decimal_text;
use crate::text::push_decimal;
use crate::text::string_of;

verus! {

/// A semantic version: major, minor and patch numbers, with the
/// pre-release and build metadata texts, each empty where there is none.
#[derive(Debug, Clone)]
pub struct SemVer {
    /// The major version.
    pub major: u64,
    /// The minor version.
    pub minor: u64,
    /// The patch version.
    pub patch: u64,
    /// The pre-release identifiers, joined by dots.
    pub pre: String,
    /// The build metadata identifiers, joined by dots.
    pub build: String,
}

/// The parts of a semantic version as plain values: major, minor, patch,
/// pre-release and build metadata.
pub type SemVerParts = (u64, u64, u64, Seq<char>, Seq<char>);

/// What `semver::Version::parse` makes of a text: the parts of the version,
/// or the text of the error.
pub uninterp spec fn semver_parsed(text: Seq<char>) -> Result<(u64, u64, u64, Seq<char>, Seq<char>), Seq<char>>;

/// Parses a semantic version with `semver::Version::parse`.
///
/// Trusted: the version parts, or the error's text, are what the `semver`
/// crate makes of the text; nothing more is claimed of them.
#[verifier::external_body]
fn parse_semver(text: &str) -> (r: Result<SemVer, String>)
    ensures
        match r {
            Ok(version) => semver_parsed(text@) == Ok::<SemVerParts, Seq<char>>(version.parts()),
            Err(error) => semver_parsed(text@) == Err::<SemVerParts, Seq<char>>(error@),
        },
{
    match semver::Version::parse(text) {
        Ok(version) => Ok(SemVer {
            major: version.major,
            minor: version.minor,
            patch: version.patch,
            pre: version.pre.as_str().to_owned(),
            build: version.build.as_str().to_owned(),
        }),
        Err(error) => Err(error.to_string()),
    }
}

/// The text of a version given by its parts: `major.minor.patch`, then
/// `-` and the pre-release and `+` and the build metadata where they are not
/// empty.
pub open spec fn parts_text(parts: SemVerParts) -> Seq<char> {
    decimal_text(parts.0 as nat) + "."@ + decimal_text(parts.1 as nat) + "."@ + decimal_text(parts.2 as nat)
        + (if parts.3.len() == 0 {
        Seq::empty()
    } else {
        "-"@ + parts.3
    }) + (if parts.4.len() == 0 {
        Seq::empty()
    } else {
        "+"@ + parts.4
    })
}

impl SemVer {
    /// The parts of the version as plain values.
    pub open spec fn parts(&self) -> SemVerParts {
        (self.major, self.minor, self.patch, self.pre@, self.build@)
    }

    /// Whether the version is the release `major.minor.patch`, with neither
    /// pre-release nor build metadata.
    pub open spec fn is_release(&self, major: u64, minor: u64, patch: u64) -> bool {
        &&& self.major == major
        &&& self.minor == minor
        &&& self.patch == patch
        &&& self.pre@.len() == 0
        &&& self.build@.len() == 0
    }

    /// Whether the version is not below the release `major.minor.patch` in
    /// the order of `semver`: a pre-release precedes its release.
    pub open spec fn is_at_least(&self, major: u64, minor: u64, patch: u64) -> bool {
        ||| self.major > major
        ||| self.major == major && self.minor > minor
        ||| self.major == major && self.minor == minor && self.patch > patch
        ||| self.major == major && self.minor == minor && self.patch == patch && self.pre@.len() == 0
    }

    /// The text of the version: `major.minor.patch`, then `-` and the
    /// pre-release and `+` and the build metadata where they are not empty.
    pub open spec fn text(&self) -> Seq<char> {
        parts_text(self.parts())
    }

    /// The release `major.minor.patch`.
    pub fn new(major: u64, minor: u64, patch: u64) -> (r: Self)
        ensures
            r.is_release(major, minor, patch),
    {
        SemVer { major, minor, patch, pre: String::new(), build: String::new() }
    }

    /// Parses a semantic version.
    pub fn parse(text: &str) -> (r: Result<Self, String>)
        ensures
            match r {
                Ok(version) => semver_parsed(text@) == Ok::<SemVerParts, Seq<char>>(version.parts()),
                Err(error) => semver_parsed(text@) == Err::<SemVerParts, Seq<char>>(error@),
            },
    {
        parse_semver(text)
    }

    /// A copy of the version.
    pub fn duplicate(&self) -> (r: Self)
        ensures
            r == *self,
    {
        SemVer {
            major: self.major,
            minor: self.minor,
            patch: self.patch,
            pre: self.pre.clone(),
            build: self.build.clone(),
        }
    }

    /// Whether the version is the release `major.minor.patch`.
    pub fn equals_release(&self, major: u64, minor: u64, patch: u64) -> (r: bool)
        ensures
            r == self.is_release(major, minor, patch),
    {
        self.major == major && self.minor == minor && self.patch == patch && self.pre.as_str().is_empty()
            && self.build.as_str().is_empty()
    }

    /// Whether the version is not below the release `major.minor.patch`.
    pub fn at_least(&self, major: u64, minor: u64, patch: u64) -> (r: bool)
        ensures
            r == self.is_at_least(major, minor, patch),
    {
        if self.major != major {
            return self.major > major;
        }
        if self.minor != minor {
            return self.minor > minor;
        }
        if self.patch != patch {
            return self.patch > patch;
        }
        self.pre.as_str().is_empty()
    }

    /// The text of the version.
    pub fn to_string(&self) -> (r: String)
        ensures
            r@ == self.text(),
    {
        let mut text: Vec<char> = Vec::new();
        let dot = chars_of(".");
        push_decimal(self.major, &mut text);
        text.extend_from_slice(dot.as_slice());
        push_decimal(self.minor, &mut text);
        text.extend_from_slice(dot.as_slice());
        push_decimal(self.patch, &mut text);
        let ghost release = text@;
        if !self.pre.as_str().is_empty() {
            let dash = chars_of("-");
            let pre = chars_of(self.pre.as_str());
            text.extend_from_slice(dash.as_slice());
            text.extend_from_slice(pre.as_slice());
        }
        let ghost with_pre = text@;
        if !self.build.as_str().is_empty() {
            let plus = chars_of("+");
            let build = chars_of(self.build.as_str());
            text.extend_from_slice(plus.as_slice());
            text.extend_from_slice(build.as_slice());
        }
        proof {
            assert(text@ =~= self.text());
        }
        string_of(text.as_slice())
    }
}

/// The `vyper` compiler version.
#[derive(Debug, Clone)]
pub struct Version {
    /// The long version string: the whole of `vyper --version`.
    pub long: String,
    /// The short `semver`.
    pub default: SemVer,
}

impl Version {
    /// A shortcut constructor.
    pub fn new(long: String, default: SemVer) -> (r: Self)
        ensures
            r.long@ == long@,
            r.default.parts() == default.parts(),
    {
        Self { long, default }
    }
}

} // verus!
