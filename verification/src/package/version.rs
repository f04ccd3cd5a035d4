//! Versions and the constraints that a dependent places on them.

use crate::util::text::{
    decimal, decimal_string, lemma_cut_joined, lemma_decimal_injective, lemma_decimal_lacks,
    lemma_with_tail_injective, same_text, with_tail,
};
use vstd::prelude::*;
use vstd::std_specs::cmp::PartialEqSpecImpl;

verus! {

/// A semantic version: three numbers, then the pre-release and build tags.
/// A tag that is absent is empty.
#[derive(Debug, Eq, Hash)]
pub struct Version {
    major: u64,
    minor: u64,
    patch: u64,
    pre: String,
    build: String,
}

/// A `Version` as plain values.
pub struct VersionView {
    pub major: u64,
    pub minor: u64,
    pub patch: u64,
    pub pre: Seq<char>,
    pub build: Seq<char>,
}

impl View for Version {
    type V = VersionView;

    closed spec fn view(&self) -> VersionView {
        VersionView {
            major: self.major,
            minor: self.minor,
            patch: self.patch,
            pre: self.pre@,
            build: self.build@,
        }
    }
}

/// The text of a version: `major.minor.patch`, then `-` and the pre-release
/// tag if there is one, then `+` and the build tag if there is one.
pub open spec fn version_text(v: VersionView) -> Seq<char> {
    decimal(v.major as nat) + seq!['.'] + decimal(v.minor as nat) + seq!['.'] + decimal(
        v.patch as nat,
    ) + (if v.pre.len() > 0 {
        seq!['-'] + v.pre
    } else {
        seq![]
    }) + (if v.build.len() > 0 {
        seq!['+'] + v.build
    } else {
        seq![]
    })
}

impl VersionView {
    /// What holds of every version: its pre-release tag holds no `+`, so
    /// that where the pre-release tag ends and the build tag begins is told
    /// by the text.
    pub open spec fn valid(self) -> bool {
        !self.pre.contains('+')
    }
}

/// Two versions that are written alike are the same version.
pub proof fn lemma_version_text_injective(a: VersionView, b: VersionView)
    requires
        a.valid(),
        b.valid(),
        version_text(a) == version_text(b),
    ensures
        a == b,
{
    let pre_a = with_tail(decimal(a.patch as nat), '-', a.pre);
    let pre_b = with_tail(decimal(b.patch as nat), '-', b.pre);
    let rest_a = with_tail(pre_a, '+', a.build);
    let rest_b = with_tail(pre_b, '+', b.build);
    let minor_a = decimal(a.minor as nat) + seq!['.'] + rest_a;
    let minor_b = decimal(b.minor as nat) + seq!['.'] + rest_b;
    assert(version_text(a) =~= decimal(a.major as nat) + seq!['.'] + minor_a);
    assert(version_text(b) =~= decimal(b.major as nat) + seq!['.'] + minor_b);
    lemma_decimal_lacks(a.major as nat, '.');
    lemma_decimal_lacks(b.major as nat, '.');
    lemma_decimal_lacks(a.minor as nat, '.');
    lemma_decimal_lacks(b.minor as nat, '.');
    lemma_decimal_lacks(a.patch as nat, '-');
    lemma_decimal_lacks(b.patch as nat, '-');
    lemma_decimal_lacks(a.patch as nat, '+');
    lemma_decimal_lacks(b.patch as nat, '+');
    lemma_cut_joined(decimal(a.major as nat), '.', minor_a);
    lemma_cut_joined(decimal(b.major as nat), '.', minor_b);
    lemma_cut_joined(decimal(a.minor as nat), '.', rest_a);
    lemma_cut_joined(decimal(b.minor as nat), '.', rest_b);
    lemma_lacks_plus(decimal(a.patch as nat), a.pre);
    lemma_lacks_plus(decimal(b.patch as nat), b.pre);
    lemma_with_tail_injective(pre_a, a.build, pre_b, b.build, '+');
    lemma_with_tail_injective(
        decimal(a.patch as nat),
        a.pre,
        decimal(b.patch as nat),
        b.pre,
        '-',
    );
    lemma_decimal_injective(a.major as nat, b.major as nat);
    lemma_decimal_injective(a.minor as nat, b.minor as nat);
    lemma_decimal_injective(a.patch as nat, b.patch as nat);
}

/// The patch number with a pre-release tag holds no `+` where neither of
/// them does.
proof fn lemma_lacks_plus(patch: Seq<char>, pre: Seq<char>)
    requires
        !patch.contains('+'),
        !pre.contains('+'),
    ensures
        !with_tail(patch, '-', pre).contains('+'),
{
    let s = with_tail(patch, '-', pre);
    if s.contains('+') {
        let i = choose|i: int| 0 <= i < s.len() && s[i] == '+';
        if i < patch.len() {
            assert(patch.contains(s[i]));
        } else if i > patch.len() {
            assert(s[i] == pre[i - patch.len() - 1]);
            assert(pre.contains(s[i]));
        }
    }
}

/// What `semver::Version::parse` makes of `text`: the version it reads, or
/// `None` where it refuses the text.
pub uninterp spec fn semver_parse(text: Seq<char>) -> Option<VersionView>;

/// The error of the `semver` crate's parsers.
#[verifier::external_type_specification]
#[verifier::external_body]
pub struct ExSemverError(semver::Error);

/// Calls `semver::Version::parse` and copies the fields of what it returns.
///
/// Believed, not proved: whether the text is accepted, and the version read
/// from it, depend on the text alone. A pre-release tag that was read
/// holds no `+`: the parser takes letters, digits, hyphens and dots for
/// it, and what comes behind a `+` for the build tag.
#[verifier::external_body]
fn parse_semver(text: &str) -> (r: Result<Version, semver::Error>)
    ensures
        r matches Ok(v) ==> semver_parse(text@) == Some(v@) && v@.valid(),
        r is Err ==> semver_parse(text@) is None,
{
    let v = semver::Version::parse(text)?;
    Ok(
        Version {
            major: v.major,
            minor: v.minor,
            patch: v.patch,
            pre: v.pre.as_str().to_owned(),
            build: v.build.as_str().to_owned(),
        },
    )
}

impl Version {
    /// Every version is valid.
    #[verifier::type_invariant]
    closed spec fn wf(&self) -> bool {
        !self.pre@.contains('+')
    }

    /// The version `major.minor.patch`, without tags.
    pub fn new(major: u64, minor: u64, patch: u64) -> (r: Version)
        ensures
            r@ == (VersionView { major, minor, patch, pre: seq![], build: seq![] }),
    {
        Version { major, minor, patch, pre: String::new(), build: String::new() }
    }

    /// Reads a version from its text.
    pub fn parse(text: &str) -> (r: Option<Version>)
        ensures
            match r {
                Some(v) => semver_parse(text@) == Some(v@) && v@.valid(),
                None => semver_parse(text@) is None,
            },
    {
        match parse_semver(text) {
            Ok(v) => Some(v),
            Err(_) => None,
        }
    }

    pub fn major(&self) -> (r: u64)
        ensures
            r == self@.major,
    {
        self.major
    }

    pub fn minor(&self) -> (r: u64)
        ensures
            r == self@.minor,
    {
        self.minor
    }

    pub fn patch(&self) -> (r: u64)
        ensures
            r == self@.patch,
    {
        self.patch
    }

    /// The pre-release tag, empty where there is none.
    pub fn pre(&self) -> (r: &str)
        ensures
            r@ == self@.pre,
            self@.valid(),
    {
        proof {
            use_type_invariant(self);
        }
        self.pre.as_str()
    }

    /// The build tag, empty where there is none.
    pub fn build(&self) -> (r: &str)
        ensures
            r@ == self@.build,
    {
        self.build.as_str()
    }

    /// Writes the version as text.
    pub fn to_string(&self) -> (r: String)
        ensures
            r@ == version_text(self@),
            self@.valid(),
    {
        proof {
            use_type_invariant(self);
        }
        let mut r = decimal_string(self.major);
        r.append(".");
        r.append(decimal_string(self.minor).as_str());
        r.append(".");
        r.append(decimal_string(self.patch).as_str());
        if !self.pre.as_str().is_empty() {
            r.append("-");
            r.append(self.pre.as_str());
        }
        if !self.build.as_str().is_empty() {
            r.append("+");
            r.append(self.build.as_str());
        }
        proof {
            reveal_strlit(".");
            reveal_strlit("-");
            reveal_strlit("+");
            assert(r@ =~= version_text(self@));
        }
        r
    }
}

impl Clone for Version {
    fn clone(&self) -> (r: Version)
        ensures
            r@ == self@,
    {
        proof {
            use_type_invariant(self);
        }
        Version {
            major: self.major,
            minor: self.minor,
            patch: self.patch,
            pre: self.pre.clone(),
            build: self.build.clone(),
        }
    }
}

impl PartialEq for Version {
    fn eq(&self, other: &Version) -> (r: bool) {
        self.major == other.major && self.minor == other.minor && self.patch == other.patch
            && self.pre == other.pre && self.build == other.build
    }
}

impl PartialEqSpecImpl for Version {
    open spec fn obeys_eq_spec() -> bool {
        true
    }

    open spec fn eq_spec(&self, other: &Version) -> bool {
        self@ == other@
    }
}

/// The versions of a dependency that a dependent accepts, as the text of
/// the requirement. The text `*` admits every version.
#[derive(Debug, PartialEq, Eq)]
pub struct Constraint {
    req: String,
}

impl View for Constraint {
    type V = Seq<char>;

    closed spec fn view(&self) -> Seq<char> {
        self.req@
    }
}

/// The text of the constraint that every version meets.
pub open spec fn any_text() -> Seq<char> {
    "*"@
}

impl Constraint {
    /// The constraint with this text.
    pub fn new(req: String) -> (r: Constraint)
        ensures
            r@ == req@,
    {
        Constraint { req }
    }

    /// The constraint that every version meets.
    pub fn any() -> (r: Constraint)
        ensures
            r@ == any_text(),
    {
        Constraint { req: "*".to_owned() }
    }

    /// The text of the requirement.
    pub fn as_str(&self) -> (r: &str)
        ensures
            r@ == self@,
    {
        self.req.as_str()
    }

    /// Whether every version meets the constraint.
    pub fn is_any(&self) -> (r: bool)
        ensures
            r == (self@ == any_text()),
    {
        same_text(self.req.as_str(), "*")
    }
}

impl Clone for Constraint {
    fn clone(&self) -> (r: Constraint)
        ensures
            r@ == self@,
    {
        Constraint { req: self.req.clone() }
    }
}

} // verus!
