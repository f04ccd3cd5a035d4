//! How a package is named, located and told apart from every other.

pub mod manifest;
pub mod resolution;
pub mod version;

use crate::package::manifest::{
    git_specifier_parse, git_specifier_text, lemma_git_specifier_round_trip,
    lemma_specifier_text_holds, PkgGitSpecifier, PkgGitSpecifierView,
};
use crate::package::resolution::{is_normal_url, url_parse, Url};
use crate::package::version::{semver_parse, version_text, Constraint, Version, VersionView};
use crate::util::errors::{ok_view, some_view, ErrorKind};
use crate::util::text::{
    cut, cut_last, cut_last_str, cut_str, has_char, lemma_cut, lemma_cut_joined,
    lemma_cut_last_joined, same_text,
};
use vstd::prelude::*;
use vstd::std_specs::cmp::PartialEqSpecImpl;

verus! {

/// The name of a package. Every package stands in a group: the group comes
/// before the slash and the name after it.
#[derive(Debug, Eq, Hash, PartialOrd, Ord)]
pub struct Name {
    /// The canonical form, `group/name`.
    serialization: String,
    group: String,
    name: String,
}

/// A `Name` as plain values.
pub struct NameView {
    pub group: Seq<char>,
    pub name: Seq<char>,
}

impl View for Name {
    type V = NameView;

    closed spec fn view(&self) -> NameView {
        NameView { group: self.group@, name: self.name@ }
    }
}

/// The canonical form of a name: `group/name`.
pub open spec fn name_text(n: NameView) -> Seq<char> {
    n.group + seq!['/'] + n.name
}

/// The name that a text stands for: the text holds exactly one slash, the
/// group is what comes before it and the name what comes after.
pub open spec fn name_parse(s: Seq<char>) -> Option<NameView> {
    match cut(s, '/') {
        Some((group, name)) => if name.contains('/') {
            None
        } else {
            Some(NameView { group, name })
        },
        None => None,
    }
}

/// A name whose parts hold no slash is read back from its canonical form.
pub proof fn lemma_name_round_trip(n: NameView)
    requires
        !n.group.contains('/'),
        !n.name.contains('/'),
    ensures
        name_parse(name_text(n)) == Some(n),
{
    lemma_cut_joined(n.group, '/', n.name);
}

/// A text that is read as a name is that name's canonical form.
pub proof fn lemma_name_parse_text(s: Seq<char>)
    ensures
        name_parse(s) matches Some(n) ==> name_text(n) == s,
{
    lemma_cut(s, '/');
}

impl Name {
    /// The canonical form is kept beside the two parts.
    #[verifier::type_invariant]
    closed spec fn wf(&self) -> bool {
        self.serialization@ == self.group@ + seq!['/'] + self.name@
    }

    pub fn new(group: String, name: String) -> (r: Name)
        ensures
            r@ == (NameView { group: group@, name: name@ }),
    {
        let mut serialization = group.clone();
        serialization.append("/");
        serialization.append(name.as_str());
        proof {
            reveal_strlit("/");
            assert(serialization@ =~= group@ + seq!['/'] + name@);
        }
        Name { serialization, group, name }
    }

    pub fn group(&self) -> (r: &str)
        ensures
            r@ == self@.group,
    {
        self.group.as_str()
    }

    pub fn name(&self) -> (r: &str)
        ensures
            r@ == self@.name,
    {
        self.name.as_str()
    }

    /// The canonical form, `group/name`.
    pub fn as_str(&self) -> (r: &str)
        ensures
            r@ == name_text(self@),
    {
        proof {
            use_type_invariant(self);
        }
        self.serialization.as_str()
    }

    /// Reads a name from its canonical form. A text without a slash, or with
    /// more than one, is no name.
    pub fn from_str(s: &str) -> (r: Result<Name, ErrorKind>)
        ensures
            match r {
                Ok(n) => name_parse(s@) == Some(n@),
                Err(e) => e == ErrorKind::InvalidPackageId && name_parse(s@) is None,
            },
    {
        match cut_str(s, '/') {
            Some((group, name)) => {
                if has_char(name, '/') {
                    Err(ErrorKind::InvalidPackageId)
                } else {
                    Ok(Name::new(group.to_owned(), name.to_owned()))
                }
            },
            None => Err(ErrorKind::InvalidPackageId),
        }
    }
}

impl Clone for Name {
    fn clone(&self) -> (r: Name)
        ensures
            r@ == self@,
    {
        proof {
            use_type_invariant(self);
        }
        Name {
            serialization: self.serialization.clone(),
            group: self.group.clone(),
            name: self.name.clone(),
        }
    }
}

impl PartialEq for Name {
    fn eq(&self, other: &Name) -> (r: bool) {
        self.group == other.group && self.name == other.name
    }
}

impl PartialEqSpecImpl for Name {
    open spec fn obeys_eq_spec() -> bool {
        true
    }

    open spec fn eq_spec(&self, other: &Name) -> bool {
        self@ == other@
    }
}

/// A requirement: a package by name, and the versions of it that will do.
#[derive(Debug, PartialEq, Eq)]
pub struct Dep {
    pub name: Name,
    pub req: Constraint,
}

/// The point of a git history that a package was taken from.
#[derive(Debug, Eq, Hash)]
pub enum GitTag {
    Commit(String),
    Tag(String),
    Branch(String),
}

/// A `GitTag` as plain values.
pub enum GitTagView {
    Commit(Seq<char>),
    Tag(Seq<char>),
    Branch(Seq<char>),
}

impl GitTagView {
    /// The specifier that asks for this point of history.
    pub open spec fn specifier(self) -> PkgGitSpecifierView {
        match self {
            GitTagView::Commit(v) => PkgGitSpecifierView::Commit(v),
            GitTagView::Tag(v) => PkgGitSpecifierView::Tag(v),
            GitTagView::Branch(v) => PkgGitSpecifierView::Branch(v),
        }
    }
}

impl View for GitTag {
    type V = GitTagView;

    open spec fn view(&self) -> GitTagView {
        match self {
            GitTag::Commit(id) => GitTagView::Commit(id@),
            GitTag::Tag(name) => GitTagView::Tag(name@),
            GitTag::Branch(name) => GitTagView::Branch(name@),
        }
    }
}

impl GitTag {
    /// The specifier that asks for this point of history.
    pub fn specifier(&self) -> (r: PkgGitSpecifier)
        ensures
            r@ == self@.specifier(),
    {
        match self {
            GitTag::Commit(id) => PkgGitSpecifier::Commit(id.clone()),
            GitTag::Tag(name) => PkgGitSpecifier::Tag(name.clone()),
            GitTag::Branch(name) => PkgGitSpecifier::Branch(name.clone()),
        }
    }
}

impl Clone for GitTag {
    fn clone(&self) -> (r: GitTag)
        ensures
            r@ == self@,
    {
        match self {
            GitTag::Commit(id) => GitTag::Commit(id.clone()),
            GitTag::Tag(name) => GitTag::Tag(name.clone()),
            GitTag::Branch(name) => GitTag::Branch(name.clone()),
        }
    }
}

impl PartialEq for GitTag {
    fn eq(&self, other: &GitTag) -> (r: bool) {
        match (self, other) {
            (GitTag::Commit(a), GitTag::Commit(b)) => *a == *b,
            (GitTag::Tag(a), GitTag::Tag(b)) => *a == *b,
            (GitTag::Branch(a), GitTag::Branch(b)) => *a == *b,
            _ => false,
        }
    }
}

impl PartialEqSpecImpl for GitTag {
    open spec fn obeys_eq_spec() -> bool {
        true
    }

    open spec fn eq_spec(&self, other: &GitTag) -> bool {
        self@ == other@
    }
}

/// The place a package was resolved from: a git repository, a directory on
/// disk, an archive, or a package index.
#[derive(Debug, Eq, Hash)]
pub enum Resolution {
    /// The package came from a git repository.
    Git { repo: Url, tag: GitTag },
    /// The package lies in a directory on disk.
    Dir { url: Url },
    /// The package came from an archive stored somewhere.
    Tar { url: Url },
    /// The package was resolved through an index, local or remote.
    Index { url: Url },
}

/// A `Resolution` as plain values.
pub enum ResolutionView {
    Git { repo: Seq<char>, tag: GitTagView },
    Dir { url: Seq<char> },
    Tar { url: Seq<char> },
    Index { url: Seq<char> },
}

impl ResolutionView {
    /// The URL of the resolution, whatever its kind.
    pub open spec fn url(self) -> Seq<char> {
        match self {
            ResolutionView::Git { repo, .. } => repo,
            ResolutionView::Dir { url } => url,
            ResolutionView::Tar { url } => url,
            ResolutionView::Index { url } => url,
        }
    }

    /// The scheme that stands before the `+` in the text of the resolution.
    pub open spec fn scheme(self) -> Seq<char> {
        match self {
            ResolutionView::Git { .. } => "git"@,
            ResolutionView::Dir { .. } => "dir"@,
            ResolutionView::Tar { .. } => "tar"@,
            ResolutionView::Index { .. } => "index"@,
        }
    }
}

impl View for Resolution {
    type V = ResolutionView;

    open spec fn view(&self) -> ResolutionView {
        match self {
            Resolution::Git { repo, tag } => ResolutionView::Git { repo: repo@, tag: tag@ },
            Resolution::Dir { url } => ResolutionView::Dir { url: url@ },
            Resolution::Tar { url } => ResolutionView::Tar { url: url@ },
            Resolution::Index { url } => ResolutionView::Index { url: url@ },
        }
    }
}

/// The text of a resolution: its scheme, a `+`, and its URL. A git
/// repository has the point of its history after the URL, behind a `#`,
/// written as the specifier that asks for it.
pub open spec fn resolution_text(r: ResolutionView) -> Seq<char> {
    match r {
        ResolutionView::Git { repo, tag } => "git"@ + seq!['+'] + (repo + seq!['#']
            + git_specifier_text(tag.specifier())),
        _ => r.scheme() + seq!['+'] + r.url(),
    }
}

/// The resolution that a scheme and the outcome of reading a URL give: a
/// directory, an archive or an index at that URL. Any other scheme, and
/// any text that is no URL, give no resolution; `git` gives none here,
/// since a git resolution has more to it than a URL.
pub open spec fn resolution_of(scheme: Seq<char>, url: Option<Seq<char>>) -> Result<
    ResolutionView,
    ErrorKind,
> {
    match url {
        Some(url) => if scheme == "dir"@ {
            Ok(ResolutionView::Dir { url })
        } else if scheme == "tar"@ {
            Ok(ResolutionView::Tar { url })
        } else if scheme == "index"@ {
            Ok(ResolutionView::Index { url })
        } else {
            Err(ErrorKind::InvalidSourceUrl)
        },
        None => Err(ErrorKind::InvalidSourceUrl),
    }
}

/// The git resolution that the outcomes of reading a URL and a specifier
/// give. A text that is no URL gives none; after that, the error of the
/// specifier stands.
pub open spec fn resolution_of_git(
    url: Option<Seq<char>>,
    tag: Result<PkgGitSpecifierView, ErrorKind>,
) -> Result<ResolutionView, ErrorKind> {
    match (url, tag) {
        (Some(repo), Ok(tag)) => Ok(ResolutionView::Git { repo, tag: tag.git_tag() }),
        (Some(_), Err(e)) => Err(e),
        (None, _) => Err(ErrorKind::InvalidSourceUrl),
    }
}

/// The resolution that a text stands for: the text is cut at its first `+`,
/// the scheme stands before it and the URL after it. What follows `git+`
/// is cut once more, at its last `#`: the URL stands before it and the
/// specifier after it.
pub open spec fn resolution_parse(s: Seq<char>) -> Result<ResolutionView, ErrorKind> {
    match cut(s, '+') {
        Some((scheme, rest)) => if scheme == "git"@ {
            match cut_last(rest, '#') {
                Some((url, tag)) => resolution_of_git(url_parse(url), git_specifier_parse(tag)),
                None => Err(ErrorKind::InvalidSourceUrl),
            }
        } else {
            resolution_of(scheme, url_parse(rest))
        },
        None => Err(ErrorKind::InvalidSourceUrl),
    }
}

/// What has to hold of a resolution for it to be read back from its text:
/// its URL is a normal form, and the point of a git history is written
/// without a `#`.
pub open spec fn readable(r: ResolutionView) -> bool {
    &&& is_normal_url(r.url())
    &&& r matches ResolutionView::Git { tag, .. } ==> !tag.specifier().value().contains('#')
}

/// A resolution that is readable is read back from its text: a directory,
/// an archive and an index at a URL in normal form, and a git repository
/// as well.
pub proof fn lemma_resolution_round_trip(r: ResolutionView)
    requires
        readable(r),
    ensures
        resolution_parse(resolution_text(r)) == Ok::<ResolutionView, ErrorKind>(r),
{
    reveal_strlit("git");
    reveal_strlit("dir");
    reveal_strlit("tar");
    reveal_strlit("index");
    let scheme = r.scheme();
    assert(!scheme.contains('+')) by {
        if scheme.contains('+') {
            let i = choose|i: int| 0 <= i < scheme.len() && scheme[i] == '+';
            assert(scheme[i] == '+');
        }
    }
    assert("dir"@ != "tar"@) by {
        assert("dir"@[0] != "tar"@[0]);
    }
    assert("dir"@ != "index"@) by {
        assert("dir"@[0] != "index"@[0]);
    }
    assert("tar"@ != "index"@) by {
        assert("tar"@[0] != "index"@[0]);
    }
    assert("git"@ != "dir"@) by {
        assert("git"@[0] != "dir"@[0]);
    }
    assert("git"@ != "tar"@) by {
        assert("git"@[0] != "tar"@[0]);
    }
    assert("git"@ != "index"@) by {
        assert("git"@[0] != "index"@[0]);
    }
    match r {
        ResolutionView::Git { repo, tag } => {
            let spec = tag.specifier();
            let tag_text = git_specifier_text(spec);
            lemma_cut_joined(scheme, '+', repo + seq!['#'] + tag_text);
            lemma_specifier_text_holds(spec, '#');
            lemma_cut_last_joined(repo, '#', tag_text);
            lemma_git_specifier_round_trip(spec);
            assert(spec.git_tag() == tag);
        },
        _ => {
            lemma_cut_joined(scheme, '+', r.url());
        },
    }
}

impl Resolution {
    /// The URL of the resolution, whatever its kind.
    pub fn url(&self) -> (r: &Url)
        ensures
            r@ == self@.url(),
    {
        match self {
            Resolution::Git { repo, .. } => repo,
            Resolution::Dir { url } => url,
            Resolution::Tar { url } => url,
            Resolution::Index { url } => url,
        }
    }

    /// The resolution for a scheme and the outcome of reading the URL that
    /// came with it.
    pub fn with_scheme(scheme: &str, url: Option<Url>) -> (r: Result<Resolution, ErrorKind>)
        ensures
            ok_view(r) == resolution_of(scheme@, some_view(url)),
    {
        match url {
            Some(url) => {
                if same_text(scheme, "dir") {
                    Ok(Resolution::Dir { url })
                } else if same_text(scheme, "tar") {
                    Ok(Resolution::Tar { url })
                } else if same_text(scheme, "index") {
                    Ok(Resolution::Index { url })
                } else {
                    Err(ErrorKind::InvalidSourceUrl)
                }
            },
            None => Err(ErrorKind::InvalidSourceUrl),
        }
    }

    /// The git resolution for the outcomes of reading the URL and the
    /// specifier that came with it.
    pub fn git(url: Option<Url>, tag: Result<PkgGitSpecifier, ErrorKind>) -> (r: Result<
        Resolution,
        ErrorKind,
    >)
        ensures
            ok_view(r) == resolution_of_git(some_view(url), ok_view(tag)),
    {
        match url {
            Some(repo) => match tag {
                Ok(tag) => Ok(Resolution::Git { repo, tag: tag.into_tag() }),
                Err(e) => Err(e),
            },
            None => Err(ErrorKind::InvalidSourceUrl),
        }
    }

    /// Reads a resolution from its text, `scheme+url`; for a git
    /// repository, `git+url#specifier`.
    pub fn from_str(s: &str) -> (r: Result<Resolution, ErrorKind>)
        ensures
            ok_view(r) == resolution_parse(s@),
    {
        match cut_str(s, '+') {
            Some((scheme, rest)) => {
                if same_text(scheme, "git") {
                    match cut_last_str(rest, '#') {
                        Some((url, tag)) => Resolution::git(
                            Url::parse(url),
                            PkgGitSpecifier::from_str(tag),
                        ),
                        None => Err(ErrorKind::InvalidSourceUrl),
                    }
                } else {
                    Resolution::with_scheme(scheme, Url::parse(rest))
                }
            },
            None => Err(ErrorKind::InvalidSourceUrl),
        }
    }

    /// Whether the resolution is read back from its own text: its URL is
    /// a normal form, which is found by reading it once more, and the
    /// point of a git history is written without a `#`.
    pub fn is_read_back(&self) -> (r: bool)
        ensures
            r == readable(self@),
            r ==> resolution_parse(resolution_text(self@)) == Ok::<ResolutionView, ErrorKind>(
                self@,
            ),
    {
        let clean = match self {
            Resolution::Git { tag, .. } => match tag {
                GitTag::Commit(v) => !has_char(v.as_str(), '#'),
                GitTag::Tag(v) => !has_char(v.as_str(), '#'),
                GitTag::Branch(v) => !has_char(v.as_str(), '#'),
            },
            _ => true,
        };
        let r = clean && self.url().is_normal();
        proof {
            if r {
                lemma_resolution_round_trip(self@);
            }
        }
        r
    }

    /// Writes the resolution as text, `scheme+url`; for a git repository,
    /// `git+url#specifier`.
    pub fn to_string(&self) -> (r: String)
        ensures
            r@ == resolution_text(self@),
    {
        let mut r = match self {
            Resolution::Git { .. } => "git".to_owned(),
            Resolution::Dir { .. } => "dir".to_owned(),
            Resolution::Tar { .. } => "tar".to_owned(),
            Resolution::Index { .. } => "index".to_owned(),
        };
        r.append("+");
        r.append(self.url().as_str());
        if let Resolution::Git { tag, .. } = self {
            r.append("#");
            r.append(tag.specifier().to_string().as_str());
        }
        proof {
            reveal_strlit("+");
            reveal_strlit("#");
            assert(r@ =~= resolution_text(self@));
        }
        r
    }
}

impl Clone for Resolution {
    fn clone(&self) -> (r: Resolution)
        ensures
            r@ == self@,
    {
        match self {
            Resolution::Git { repo, tag } => Resolution::Git {
                repo: repo.clone(),
                tag: tag.clone(),
            },
            Resolution::Dir { url } => Resolution::Dir { url: url.clone() },
            Resolution::Tar { url } => Resolution::Tar { url: url.clone() },
            Resolution::Index { url } => Resolution::Index { url: url.clone() },
        }
    }
}

impl PartialEq for Resolution {
    fn eq(&self, other: &Resolution) -> (r: bool) {
        match (self, other) {
            (Resolution::Git { repo: a, tag: s }, Resolution::Git { repo: b, tag: t }) => *a == *b
                && *s == *t,
            (Resolution::Dir { url: a }, Resolution::Dir { url: b }) => *a == *b,
            (Resolution::Tar { url: a }, Resolution::Tar { url: b }) => *a == *b,
            (Resolution::Index { url: a }, Resolution::Index { url: b }) => *a == *b,
            _ => false,
        }
    }
}

impl PartialEqSpecImpl for Resolution {
    open spec fn obeys_eq_spec() -> bool {
        true
    }

    open spec fn eq_spec(&self, other: &Resolution) -> bool {
        self@ == other@
    }
}

/// The identity of a package in a dependency graph. Two ids are the same
/// package only where name, version and resolution are all the same.
#[derive(Debug, Eq, Hash)]
pub struct PackageId {
    name: Name,
    version: Version,
    resolution: Resolution,
}

/// A `PackageId` as plain values.
pub struct PackageIdView {
    pub name: NameView,
    pub version: VersionView,
    pub resolution: ResolutionView,
}

impl View for PackageId {
    type V = PackageIdView;

    closed spec fn view(&self) -> PackageIdView {
        PackageIdView { name: self.name@, version: self.version@, resolution: self.resolution@ }
    }
}

/// The text of a package id: name, version and resolution, a space between
/// them.
pub open spec fn package_id_text(id: PackageIdView) -> Seq<char> {
    name_text(id.name) + seq![' '] + version_text(id.version) + seq![' '] + resolution_text(
        id.resolution,
    )
}

/// The package id that the three fields of a text give, each already read. A
/// field that is no name or no version makes the whole an invalid package
/// id; after those, the error of the resolution stands.
pub open spec fn package_id_of(
    name: Option<NameView>,
    version: Option<VersionView>,
    resolution: Result<ResolutionView, ErrorKind>,
) -> Result<PackageIdView, ErrorKind> {
    match (name, version, resolution) {
        (Some(name), Some(version), Ok(resolution)) => Ok(
            PackageIdView { name, version, resolution },
        ),
        (Some(_), Some(_), Err(e)) => Err(e),
        _ => Err(ErrorKind::InvalidPackageId),
    }
}

/// The package id that a text stands for. The text is cut at its first two
/// spaces: the name, the version, and the resolution, which may itself hold
/// spaces. A text with fewer than three fields is an invalid package id.
pub open spec fn package_id_parse(s: Seq<char>) -> Result<PackageIdView, ErrorKind> {
    match cut(s, ' ') {
        Some((name, rest)) => match cut(rest, ' ') {
            Some((version, resolution)) => package_id_of(
                name_parse(name),
                semver_parse(version),
                resolution_parse(resolution),
            ),
            None => Err(ErrorKind::InvalidPackageId),
        },
        None => Err(ErrorKind::InvalidPackageId),
    }
}

/// A package id is read back from its text, where each of its parts is:
/// the name's parts hold no slash, the text of the version is read as that
/// version, the resolution is readable, and neither name nor version
/// holds a space.
pub proof fn lemma_package_id_round_trip(id: PackageIdView)
    requires
        !id.name.group.contains('/'),
        !id.name.name.contains('/'),
        !name_text(id.name).contains(' '),
        semver_parse(version_text(id.version)) == Some(id.version),
        !version_text(id.version).contains(' '),
        readable(id.resolution),
    ensures
        package_id_parse(package_id_text(id)) == Ok::<PackageIdView, ErrorKind>(id),
{
    let name = name_text(id.name);
    let version = version_text(id.version);
    let resolution = resolution_text(id.resolution);
    let rest = version + seq![' '] + resolution;
    assert(package_id_text(id) =~= name + seq![' '] + rest);
    lemma_cut_joined(name, ' ', rest);
    lemma_cut_joined(version, ' ', resolution);
    lemma_name_round_trip(id.name);
    lemma_resolution_round_trip(id.resolution);
}

impl PackageId {
    pub fn new(name: Name, version: Version, resolution: Resolution) -> (r: PackageId)
        ensures
            r@ == (PackageIdView { name: name@, version: version@, resolution: resolution@ }),
    {
        PackageId { name, version, resolution }
    }

    pub fn name(&self) -> (r: &Name)
        ensures
            r@ == self@.name,
    {
        &self.name
    }

    pub fn version(&self) -> (r: &Version)
        ensures
            r@ == self@.version,
    {
        &self.version
    }

    pub fn resolution(&self) -> (r: &Resolution)
        ensures
            r@ == self@.resolution,
    {
        &self.resolution
    }

    /// The package id for the three fields of a text, each already read.
    pub fn from_parts(
        name: Option<Name>,
        version: Option<Version>,
        resolution: Result<Resolution, ErrorKind>,
    ) -> (r: Result<PackageId, ErrorKind>)
        ensures
            ok_view(r) == package_id_of(some_view(name), some_view(version), ok_view(resolution)),
    {
        match name {
            Some(name) => match version {
                Some(version) => match resolution {
                    Ok(resolution) => Ok(PackageId { name, version, resolution }),
                    Err(e) => Err(e),
                },
                None => Err(ErrorKind::InvalidPackageId),
            },
            None => Err(ErrorKind::InvalidPackageId),
        }
    }

    /// Reads a package id from its text, `name version resolution`.
    pub fn from_str(s: &str) -> (r: Result<PackageId, ErrorKind>)
        ensures
            ok_view(r) == package_id_parse(s@),
    {
        match cut_str(s, ' ') {
            Some((name, rest)) => match cut_str(rest, ' ') {
                Some((version, resolution)) => {
                    let name = match Name::from_str(name) {
                        Ok(name) => Some(name),
                        Err(_) => None,
                    };
                    PackageId::from_parts(
                        name,
                        Version::parse(version),
                        Resolution::from_str(resolution),
                    )
                },
                None => Err(ErrorKind::InvalidPackageId),
            },
            None => Err(ErrorKind::InvalidPackageId),
        }
    }

    /// Writes the package id as text, `name version resolution`.
    pub fn to_string(&self) -> (r: String)
        ensures
            r@ == package_id_text(self@),
    {
        let mut r = self.name.as_str().to_owned();
        r.append(" ");
        r.append(self.version.to_string().as_str());
        r.append(" ");
        r.append(self.resolution.to_string().as_str());
        proof {
            reveal_strlit(" ");
            assert(r@ =~= package_id_text(self@));
        }
        r
    }
}

impl Clone for PackageId {
    fn clone(&self) -> (r: PackageId)
        ensures
            r@ == self@,
    {
        PackageId {
            name: self.name.clone(),
            version: self.version.clone(),
            resolution: self.resolution.clone(),
        }
    }
}

impl PartialEq for PackageId {
    fn eq(&self, other: &PackageId) -> (r: bool) {
        self.name == other.name && self.version == other.version && self.resolution
            == other.resolution
    }
}

impl PartialEqSpecImpl for PackageId {
    open spec fn obeys_eq_spec() -> bool {
        true
    }

    open spec fn eq_spec(&self, other: &PackageId) -> bool {
        self@ == other@
    }
}

/// The algorithm of a checksum.
#[derive(Clone, Copy, Debug, PartialEq, Eq, Hash, PartialOrd, Ord, Structural)]
pub enum ChecksumFmt {
    Sha512,
}

/// A digest that stands for one content of a source, with the algorithm
/// that gave it.
#[derive(Debug, Eq, Hash, PartialOrd, Ord)]
pub struct Checksum {
    fmt: ChecksumFmt,
    hash: String,
}

/// A `Checksum` as plain values.
pub struct ChecksumView {
    pub fmt: ChecksumFmt,
    pub hash: Seq<char>,
}

impl View for Checksum {
    type V = ChecksumView;

    closed spec fn view(&self) -> ChecksumView {
        ChecksumView { fmt: self.fmt, hash: self.hash@ }
    }
}

/// The tag that names an algorithm in the text of a checksum.
pub open spec fn checksum_tag(fmt: ChecksumFmt) -> Seq<char> {
    match fmt {
        ChecksumFmt::Sha512 => "sha512"@,
    }
}

/// The text of a checksum: the algorithm's tag, a colon, and the digest in
/// hexadecimal.
pub open spec fn checksum_text(c: ChecksumView) -> Seq<char> {
    checksum_tag(c.fmt) + seq![':'] + c.hash
}

impl Checksum {
    pub fn new(fmt: ChecksumFmt, hash: String) -> (r: Checksum)
        ensures
            r@ == (ChecksumView { fmt, hash: hash@ }),
    {
        Checksum { fmt, hash }
    }

    pub fn fmt(&self) -> (r: ChecksumFmt)
        ensures
            r == self@.fmt,
    {
        self.fmt
    }

    pub fn hash(&self) -> (r: &str)
        ensures
            r@ == self@.hash,
    {
        self.hash.as_str()
    }

    /// Writes the checksum as text, `tag:digest`.
    pub fn to_string(&self) -> (r: String)
        ensures
            r@ == checksum_text(self@),
    {
        let mut r = match self.fmt {
            ChecksumFmt::Sha512 => "sha512".to_owned(),
        };
        r.append(":");
        r.append(self.hash.as_str());
        proof {
            reveal_strlit(":");
            assert(r@ =~= checksum_text(self@));
        }
        r
    }
}

impl Clone for Checksum {
    fn clone(&self) -> (r: Checksum)
        ensures
            r@ == self@,
    {
        Checksum { fmt: self.fmt, hash: self.hash.clone() }
    }
}

impl PartialEq for Checksum {
    fn eq(&self, other: &Checksum) -> (r: bool) {
        self.fmt == other.fmt && self.hash == other.hash
    }
}

impl PartialEqSpecImpl for Checksum {
    open spec fn obeys_eq_spec() -> bool {
        true
    }

    open spec fn eq_spec(&self, other: &Checksum) -> bool {
        self@ == other@
    }
}

/// A package in short: its id, the checksum of its content, and its
/// dependencies. `T` is the shape of a dependency: a requirement before
/// resolution, the id of the chosen package after it.
#[derive(Debug)]
pub struct Summary<T> {
    id: PackageId,
    checksum: Checksum,
    dependencies: Vec<T>,
}

/// A `Summary` as plain values, its dependencies as they are.
pub struct SummaryView<T> {
    pub id: PackageIdView,
    pub checksum: ChecksumView,
    pub dependencies: Seq<T>,
}

impl<T> View for Summary<T> {
    type V = SummaryView<T>;

    closed spec fn view(&self) -> SummaryView<T> {
        SummaryView { id: self.id@, checksum: self.checksum@, dependencies: self.dependencies@ }
    }
}

impl<T> Summary<T> {
    pub fn new(id: PackageId, checksum: Checksum, dependencies: Vec<T>) -> (r: Summary<T>)
        ensures
            r@ == (SummaryView { id: id@, checksum: checksum@, dependencies: dependencies@ }),
    {
        Summary { id, checksum, dependencies }
    }

    pub fn id(&self) -> (r: &PackageId)
        ensures
            r@ == self@.id,
    {
        &self.id
    }

    pub fn checksum(&self) -> (r: &Checksum)
        ensures
            r@ == self@.checksum,
    {
        &self.checksum
    }

    pub fn dependencies(&self) -> (r: &[T])
        ensures
            r@ == self@.dependencies,
    {
        self.dependencies.as_slice()
    }
}

} // verus!
