//! What a package says of itself: its manifest.

use crate::package::resolution::{IndexRes, Url};
use crate::package::version::{any_text, Constraint, Version, VersionView};
use crate::package::{
    GitTag, GitTagView, Name, NameView, PackageId, PackageIdView, Resolution, ResolutionView,
};
use crate::util::errors::{ok_view, some_view, ErrorKind};
use crate::util::text::{cut, cut_str, lemma_cut_joined, same_text};
use indexmap::IndexMap;
use vstd::prelude::*;

verus! {

/// The `indexmap` crate's map, which keeps its entries in the order in
/// which their keys were first inserted.
#[verifier::external_type_specification]
#[verifier::external_body]
#[verifier::reject_recursive_types(K)]
#[verifier::reject_recursive_types(V)]
#[verifier::reject_recursive_types(S)]
pub struct ExIndexMap<K, V, S>(IndexMap<K, V, S>);

/// The point of a git history that a requirement asks for.
#[derive(Debug, PartialEq, Eq, Hash)]
pub enum PkgGitSpecifier {
    Branch(String),
    Commit(String),
    Tag(String),
}

/// A `PkgGitSpecifier` as plain values.
pub enum PkgGitSpecifierView {
    Branch(Seq<char>),
    Commit(Seq<char>),
    Tag(Seq<char>),
}

impl PkgGitSpecifierView {
    /// The word that stands before the `=` in the text of the specifier.
    pub open spec fn kind(self) -> Seq<char> {
        match self {
            PkgGitSpecifierView::Branch(_) => "branch"@,
            PkgGitSpecifierView::Commit(_) => "commit"@,
            PkgGitSpecifierView::Tag(_) => "tag"@,
        }
    }

    /// The branch, commit or tag that is asked for.
    pub open spec fn value(self) -> Seq<char> {
        match self {
            PkgGitSpecifierView::Branch(v) => v,
            PkgGitSpecifierView::Commit(v) => v,
            PkgGitSpecifierView::Tag(v) => v,
        }
    }

    /// The point of history that a resolved package records for this
    /// specifier: the same point, under the same kind.
    pub open spec fn git_tag(self) -> GitTagView {
        match self {
            PkgGitSpecifierView::Branch(v) => GitTagView::Branch(v),
            PkgGitSpecifierView::Commit(v) => GitTagView::Commit(v),
            PkgGitSpecifierView::Tag(v) => GitTagView::Tag(v),
        }
    }
}

impl View for PkgGitSpecifier {
    type V = PkgGitSpecifierView;

    open spec fn view(&self) -> PkgGitSpecifierView {
        match self {
            PkgGitSpecifier::Branch(v) => PkgGitSpecifierView::Branch(v@),
            PkgGitSpecifier::Commit(v) => PkgGitSpecifierView::Commit(v@),
            PkgGitSpecifier::Tag(v) => PkgGitSpecifierView::Tag(v@),
        }
    }
}

/// The text of a specifier: its kind, `=`, and its value.
pub open spec fn git_specifier_text(g: PkgGitSpecifierView) -> Seq<char> {
    g.kind() + seq!['='] + g.value()
}

/// The specifier that a text stands for: the text is cut at its first `=`,
/// the kind stands before it and the value after it.
pub open spec fn git_specifier_parse(s: Seq<char>) -> Result<PkgGitSpecifierView, ErrorKind> {
    match cut(s, '=') {
        Some((kind, value)) => if kind == "branch"@ {
            Ok(PkgGitSpecifierView::Branch(value))
        } else if kind == "commit"@ {
            Ok(PkgGitSpecifierView::Commit(value))
        } else if kind == "tag"@ {
            Ok(PkgGitSpecifierView::Tag(value))
        } else {
            Err(ErrorKind::InvalidSourceUrl)
        },
        None => Err(ErrorKind::InvalidSourceUrl),
    }
}

/// Every specifier is read back from its text.
pub proof fn lemma_git_specifier_round_trip(g: PkgGitSpecifierView)
    ensures
        git_specifier_parse(git_specifier_text(g)) == Ok::<PkgGitSpecifierView, ErrorKind>(g),
{
    reveal_strlit("branch");
    reveal_strlit("commit");
    reveal_strlit("tag");
    let kind = g.kind();
    assert(!kind.contains('=')) by {
        if kind.contains('=') {
            let i = choose|i: int| 0 <= i < kind.len() && kind[i] == '=';
            assert(kind[i] == '=');
        }
    }
    lemma_cut_joined(kind, '=', g.value());
    assert("branch"@ != "commit"@) by {
        assert("branch"@[0] != "commit"@[0]);
    }
    assert("branch"@ != "tag"@) by {
        assert("branch"@[0] != "tag"@[0]);
    }
    assert("commit"@ != "tag"@) by {
        assert("commit"@[0] != "tag"@[0]);
    }
}

/// The text of a specifier holds a character that is neither `=` nor a
/// small letter only where its value does.
pub proof fn lemma_specifier_text_holds(g: PkgGitSpecifierView, c: char)
    requires
        c != '=',
        !('a' <= c <= 'z'),
        !g.value().contains(c),
    ensures
        !git_specifier_text(g).contains(c),
{
    reveal_strlit("branch");
    reveal_strlit("commit");
    reveal_strlit("tag");
    let text = git_specifier_text(g);
    let kind = g.kind();
    if text.contains(c) {
        let i = choose|i: int| 0 <= i < text.len() && text[i] == c;
        if i < kind.len() {
            assert(text[i] == kind[i]);
        } else if i == kind.len() {
            assert(text[i] == '=');
        } else {
            assert(text[i] == g.value()[i - kind.len() - 1]);
            assert(g.value().contains(text[i]));
        }
    }
}

impl PkgGitSpecifier {
    /// Reads a specifier from its text, `kind=value`.
    pub fn from_str(s: &str) -> (r: Result<PkgGitSpecifier, ErrorKind>)
        ensures
            ok_view(r) == git_specifier_parse(s@),
    {
        match cut_str(s, '=') {
            Some((kind, value)) => {
                if same_text(kind, "branch") {
                    Ok(PkgGitSpecifier::Branch(value.to_owned()))
                } else if same_text(kind, "commit") {
                    Ok(PkgGitSpecifier::Commit(value.to_owned()))
                } else if same_text(kind, "tag") {
                    Ok(PkgGitSpecifier::Tag(value.to_owned()))
                } else {
                    Err(ErrorKind::InvalidSourceUrl)
                }
            },
            None => Err(ErrorKind::InvalidSourceUrl),
        }
    }

    /// Writes the specifier as text, `kind=value`.
    pub fn to_string(&self) -> (r: String)
        ensures
            r@ == git_specifier_text(self@),
    {
        let (mut r, value) = match self {
            PkgGitSpecifier::Branch(v) => ("branch".to_owned(), v),
            PkgGitSpecifier::Commit(v) => ("commit".to_owned(), v),
            PkgGitSpecifier::Tag(v) => ("tag".to_owned(), v),
        };
        r.append("=");
        r.append(value.as_str());
        proof {
            reveal_strlit("=");
            assert(r@ =~= git_specifier_text(self@));
        }
        r
    }

    /// The point of history that a resolved package records for this
    /// specifier.
    pub fn into_tag(self) -> (r: GitTag)
        ensures
            r@ == self@.git_tag(),
    {
        match self {
            PkgGitSpecifier::Branch(v) => GitTag::Branch(v),
            PkgGitSpecifier::Commit(v) => GitTag::Commit(v),
            PkgGitSpecifier::Tag(v) => GitTag::Tag(v),
        }
    }
}

impl Default for PkgGitSpecifier {
    /// The branch `master`.
    fn default() -> (r: PkgGitSpecifier)
        ensures
            r@ == PkgGitSpecifierView::Branch("master"@),
    {
        PkgGitSpecifier::Branch("master".to_owned())
    }
}

impl Clone for PkgGitSpecifier {
    fn clone(&self) -> (r: PkgGitSpecifier)
        ensures
            r@ == self@,
    {
        match self {
            PkgGitSpecifier::Branch(v) => PkgGitSpecifier::Branch(v.clone()),
            PkgGitSpecifier::Commit(v) => PkgGitSpecifier::Commit(v.clone()),
            PkgGitSpecifier::Tag(v) => PkgGitSpecifier::Tag(v.clone()),
        }
    }
}

/// What a manifest asks of one dependency.
#[derive(Debug, PartialEq, Eq)]
pub enum DepReq {
    /// Some version from the default index.
    Registry(Constraint),
    /// Some version from the index named.
    RegLong { con: Constraint, registry: IndexRes },
    /// The package in a directory on disk.
    Local { path: Url },
    /// The package in a git repository.
    Git { git: Url, spec: PkgGitSpecifier },
}

/// A `DepReq` as plain values.
pub enum DepReqView {
    Registry(Seq<char>),
    RegLong { con: Seq<char>, registry: Seq<char> },
    Local { path: Seq<char> },
    Git { git: Seq<char>, spec: PkgGitSpecifierView },
}

impl View for DepReq {
    type V = DepReqView;

    open spec fn view(&self) -> DepReqView {
        match self {
            DepReq::Registry(con) => DepReqView::Registry(con@),
            DepReq::RegLong { con, registry } => DepReqView::RegLong {
                con: con@,
                registry: registry@,
            },
            DepReq::Local { path } => DepReqView::Local { path: path@ },
            DepReq::Git { git, spec } => DepReqView::Git { git: git@, spec: spec@ },
        }
    }
}

impl DepReqView {
    /// Where the dependency is to be resolved from. A requirement that names
    /// no index goes to the default index.
    pub open spec fn resolution(self, def_index: Seq<char>) -> ResolutionView {
        match self {
            DepReqView::Registry(_) => ResolutionView::Index { url: def_index },
            DepReqView::RegLong { registry, .. } => ResolutionView::Index { url: registry },
            DepReqView::Local { path } => ResolutionView::Dir { url: path },
            DepReqView::Git { git, spec } => ResolutionView::Git { repo: git, tag: spec.git_tag() },
        }
    }

    /// The versions that will do. A directory or a repository is pinned by
    /// its place alone, so every version of what is found there will do.
    pub open spec fn constraint(self) -> Seq<char> {
        match self {
            DepReqView::Registry(con) => con,
            DepReqView::RegLong { con, .. } => con,
            DepReqView::Local { .. } => any_text(),
            DepReqView::Git { .. } => any_text(),
        }
    }

    /// The id under which the dependency `name` is asked for.
    pub open spec fn id(self, def_index: Seq<char>, name: NameView) -> PackageIdView {
        PackageIdView {
            name,
            version: unresolved_version(),
            resolution: self.resolution(def_index),
        }
    }
}

/// The version in the id of a package that is asked for and not yet chosen:
/// `0.0.0`, since a requirement names no version.
pub open spec fn unresolved_version() -> VersionView {
    VersionView { major: 0, minor: 0, patch: 0, pre: seq![], build: seq![] }
}

impl DepReq {
    /// Turns the requirement on the package `n` into the id it asks for and
    /// the constraint on its version.
    pub fn into_dep(self, def_index: IndexRes, n: Name) -> (r: (PackageId, Constraint))
        ensures
            r.0@ == self@.id(def_index@, n@),
            r.1@ == self@.constraint(),
    {
        let version = Version::new(0, 0, 0);
        match self {
            DepReq::Registry(c) => {
                let pi = PackageId::new(n, version, Resolution::Index { url: def_index.url });
                (pi, c)
            },
            DepReq::RegLong { con, registry } => {
                let pi = PackageId::new(n, version, Resolution::Index { url: registry.url });
                (pi, con)
            },
            DepReq::Local { path } => {
                let pi = PackageId::new(n, version, Resolution::Dir { url: path });
                (pi, Constraint::any())
            },
            DepReq::Git { git, spec } => {
                let res = Resolution::Git { repo: git, tag: spec.into_tag() };
                let pi = PackageId::new(n, version, res);
                (pi, Constraint::any())
            },
        }
    }
}

impl Clone for DepReq {
    fn clone(&self) -> (r: DepReq)
        ensures
            r@ == self@,
    {
        match self {
            DepReq::Registry(con) => DepReq::Registry(con.clone()),
            DepReq::RegLong { con, registry } => DepReq::RegLong {
                con: con.clone(),
                registry: registry.clone(),
            },
            DepReq::Local { path } => DepReq::Local { path: path.clone() },
            DepReq::Git { git, spec } => DepReq::Git { git: git.clone(), spec: spec.clone() },
        }
    }
}

/// What an `IndexMap` of requirements holds: its entries in their order.
pub uninterp spec fn requirements(m: IndexMap<Name, DepReq>) -> Seq<(NameView, DepReqView)>;

/// Calls `IndexMap::len`.
///
/// Believed, not proved: it is the number of entries.
#[verifier::external_body]
fn requirements_len(m: &IndexMap<Name, DepReq>) -> (n: usize)
    ensures
        n == requirements(*m).len(),
{
    m.len()
}

/// Calls `IndexMap::get_index`.
///
/// Believed, not proved: the indices below the length are the valid ones,
/// and the entry at an index is the one at that place in the map's order.
/// The key of that entry is the key of no other entry: the map holds a key
/// once, since it puts a value under a key that it holds already in the
/// place of the old one. Two keys are the same where `Name`'s `==` says
/// so, which is where their views are the same; the derived `Hash` hashes
/// what `==` compares.
#[verifier::external_body]
fn requirements_at(m: &IndexMap<Name, DepReq>, i: usize) -> (r: Option<(&Name, &DepReq)>)
    ensures
        match r {
            Some((name, req)) => i < requirements(*m).len() && requirements(*m)[i as int] == (
                name@,
                req@,
            ) && forall|j: int|
                0 <= j < requirements(*m).len() && j != i ==> (#[trigger] requirements(
                    *m,
                )[j]).0 != name@,
            None => i >= requirements(*m).len(),
        },
{
    m.get_index(i)
}

/// What a package says of itself: who it is, and what it depends on.
#[derive(Debug)]
pub struct Manifest {
    name: Name,
    version: Version,
    authors: Vec<String>,
    license: Option<String>,
    dependencies: IndexMap<Name, DepReq>,
    dev_dependencies: IndexMap<Name, DepReq>,
}

/// A `Manifest` as plain values. The dependencies stand in the order in
/// which the manifest lists them.
pub struct ManifestView {
    pub name: NameView,
    pub version: VersionView,
    pub authors: Seq<Seq<char>>,
    pub license: Option<Seq<char>>,
    /// What the package needs wherever it is used.
    pub dependencies: Seq<(NameView, DepReqView)>,
    /// What the package needs only where it is itself the root.
    pub dev_dependencies: Seq<(NameView, DepReqView)>,
}

impl View for Manifest {
    type V = ManifestView;

    closed spec fn view(&self) -> ManifestView {
        ManifestView {
            name: self.name@,
            version: self.version@,
            authors: self.authors@.map_values(|a: String| a@),
            license: some_view(self.license),
            dependencies: requirements(self.dependencies),
            dev_dependencies: requirements(self.dev_dependencies),
        }
    }
}

impl Manifest {
    pub fn new(
        name: Name,
        version: Version,
        authors: Vec<String>,
        license: Option<String>,
        dependencies: IndexMap<Name, DepReq>,
        dev_dependencies: IndexMap<Name, DepReq>,
    ) -> (r: Manifest)
        ensures
            r@ == (ManifestView {
                name: name@,
                version: version@,
                authors: authors@.map_values(|a: String| a@),
                license: some_view(license),
                dependencies: requirements(dependencies),
                dev_dependencies: requirements(dev_dependencies),
            }),
    {
        Manifest { name, version, authors, license, dependencies, dev_dependencies }
    }

    pub fn name(&self) -> (r: &Name)
        ensures
            r@ == self@.name,
    {
        &self.name
    }

    pub fn version(&self) -> (r: &Version)
        ensures
            r@ == self@.version,
    {
        &self.version
    }

    /// What the package needs wherever it is used.
    pub fn dependencies(&self) -> (r: &IndexMap<Name, DepReq>)
        ensures
            requirements(*r) == self@.dependencies,
    {
        &self.dependencies
    }

    /// What the package needs only where it is itself the root.
    pub fn dev_dependencies(&self) -> (r: &IndexMap<Name, DepReq>)
        ensures
            requirements(*r) == self@.dev_dependencies,
    {
        &self.dev_dependencies
    }

    /// The number of dependencies.
    pub fn dependency_count(&self) -> (n: usize)
        ensures
            n == self@.dependencies.len(),
    {
        requirements_len(&self.dependencies)
    }

    /// The dependency at place `i` in the manifest's order. No other
    /// dependency of the manifest is on the same package.
    pub fn dependency(&self, i: usize) -> (r: Option<(&Name, &DepReq)>)
        ensures
            match r {
                Some((name, req)) => i < self@.dependencies.len() && self@.dependencies[i as int]
                    == (name@, req@) && forall|j: int|
                    0 <= j < self@.dependencies.len() && j != i ==> (
                    #[trigger] self@.dependencies[j]).0 != name@,
                None => i >= self@.dependencies.len(),
            },
    {
        requirements_at(&self.dependencies, i)
    }
}

} // verus!
