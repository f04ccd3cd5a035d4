//! The cache of packages that were brought before.
//!
//! A cache owns one directory. Below it stand `src`, with one directory for
//! each package source, `build`, with one for each build, and `indices`, with
//! one for each index.

use crate::package::resolution::{direct_res_text, DirectRes, DirectResView, IndexRes};
use crate::package::version::{Version, VersionView};
use crate::package::{Name, NameView, PackageId};
use crate::retrieve::indices::{kept_indices, IndexStateView};
use crate::retrieve::meta::{edges, meta_deps};
use crate::retrieve::naming::{dir_name, index_dir, src_dir, src_key, text_digest};
use crate::util::errors::{some_view, ErrorKind};
use crate::retrieve::fetch::{
    lemma_load_seals_last, lemma_race_retrieves_once, run_load, seal_path, Luck, Race, Turn,
};
use crate::util::text::{join, join_path};
use vstd::prelude::*;

pub use crate::retrieve::builds::{Binary, Build};
pub use crate::retrieve::fetch::{seal_of, Action, Event, FetchState, FetchStateView};
pub use crate::retrieve::indices::IndexState;
pub use crate::retrieve::meta::CacheMeta;
pub use crate::retrieve::naming::{digest_hex, package_dir_name};
pub use crate::retrieve::source::{
    hash_contents, HashSource, ManifestFile, Source, SrcPath, SrcPathView,
};

verus! {

/// A cache of packages that were brought before, and of their builds.
///
/// The cache is the one authority over its directory. Whoever wants a
/// package on disk asks the cache where it stands and what is left to do.
#[derive(Debug)]
pub struct Cache {
    location: String,
    def_index: IndexRes,
}

/// A `Cache` as plain values.
pub struct CacheView {
    pub location: Seq<char>,
    pub def_index: Seq<char>,
}

impl View for Cache {
    type V = CacheView;

    closed spec fn view(&self) -> CacheView {
        CacheView { location: self.location@, def_index: self.def_index@ }
    }
}

/// The name of the file that holds the manifest of a checkout.
pub open spec fn manifest_file_name() -> Seq<char> {
    "Cargo.toml"@
}

impl CacheView {
    /// The directory of package sources.
    pub open spec fn src(self) -> Seq<char> {
        join(self.location, "src"@)
    }

    /// The directory of builds.
    pub open spec fn build(self) -> Seq<char> {
        join(self.location, "build"@)
    }

    /// The directory of indices.
    pub open spec fn indices(self) -> Seq<char> {
        join(self.location, "indices"@)
    }

    /// The directory in which the source of a package is kept.
    pub open spec fn src_path(
        self,
        name: NameView,
        loc: DirectResView,
        v: Option<VersionView>,
    ) -> Seq<char> {
        join(self.src(), src_dir(name, loc, v))
    }

    /// The directory in which an index is kept.
    pub open spec fn index_path(self, loc: DirectResView) -> Seq<char> {
        join(self.indices(), index_dir(loc))
    }

    /// The directory in which a build is kept.
    pub open spec fn build_path(self, name: NameView, hash: Seq<char>) -> Seq<char> {
        join(self.build(), dir_name(name, hash))
    }

    /// The path that has to be probed before it can be said whether a
    /// source is cached: the seal of its directory in the cache. A
    /// directory on disk needs no probe.
    pub open spec fn check_probe(
        self,
        name: NameView,
        loc: DirectResView,
        v: Option<VersionView>,
    ) -> Option<Seq<char>> {
        match loc {
            DirectResView::Dir { .. } => None,
            _ => Some(seal_path(self.src_path(name, loc, v))),
        }
    }

    /// Where a source is cached, if it is. A directory on disk is its own
    /// cache, at its own path. Anything else is cached where its directory
    /// in the cache is sealed, which is what `exists` says of the seal: a
    /// directory that is there and not sealed holds no source yet.
    pub open spec fn check(
        self,
        name: NameView,
        loc: DirectResView,
        v: Option<VersionView>,
        exists: bool,
    ) -> Option<Seq<char>> {
        match loc {
            DirectResView::Dir { url } => Some(url),
            _ => if exists {
                Some(self.src_path(name, loc, v))
            } else {
                None
            },
        }
    }

    /// The state in which the request for a source starts.
    pub open spec fn load(
        self,
        name: NameView,
        loc: DirectResView,
        v: Option<VersionView>,
    ) -> FetchStateView {
        match loc {
            DirectResView::Dir { url } => FetchStateView::Cached { path: url },
            _ => FetchStateView::Unknown { path: self.src_path(name, loc, v) },
        }
    }

    /// The state in which the request for an index starts. A local index
    /// is used where it lies; any other has its directory in the cache.
    pub open spec fn index_start(self, loc: DirectResView) -> IndexStateView {
        match loc {
            DirectResView::Dir { url } => IndexStateView::Cached { path: url },
            _ => IndexStateView::Unknown { path: self.index_path(loc) },
        }
    }
}

/// The three directories of a cache are apart: nothing that stands in
/// one of them stands in another, so that a lock on a source never stands
/// in the way of a build or of an index.
pub proof fn lemma_directories_apart(cache: CacheView, a: Seq<char>, b: Seq<char>)
    ensures
        join(cache.src(), a) != join(cache.build(), b),
        join(cache.src(), a) != join(cache.indices(), b),
        join(cache.build(), a) != join(cache.indices(), b),
{
    reveal_strlit("src");
    reveal_strlit("build");
    reveal_strlit("indices");
    let at = cache.location.len() as int + 1;
    assert(join(cache.src(), a)[at] == 's');
    assert(join(cache.build(), a)[at] == 'b');
    assert(join(cache.build(), b)[at] == 'b');
    assert(join(cache.indices(), b)[at] == 'i');
}

/// While two requests for a source race for it, `check` finds the source
/// only where one of them has ended with it. The source was not cached
/// when they began. A directory that is locked and still being filled, or
/// that could not be filled, is not reported.
pub proof fn lemma_check_sees_whole_sources(
    cache: CacheView,
    name: NameView,
    loc: DirectResView,
    v: Option<VersionView>,
    disk: Set<Seq<char>>,
    turns: Seq<Turn>,
)
    requires
        !(loc is Dir),
        !disk.contains(cache.check_probe(name, loc, v)->0),
    ensures
        ({
            let now = Race::start(cache.src_path(name, loc, v), disk).run(turns);
            let exists = now.disk.contains(cache.check_probe(name, loc, v)->0);
            cache.check(name, loc, v, exists) is Some ==> now.first is Populated || now.second
                is Populated
        }),
{
    lemma_race_retrieves_once(cache.src_path(name, loc, v), disk, turns);
}

/// After a request for a source has failed, `check` finds the source absent
/// as it was before, so that whoever tries again fetches again.
pub proof fn lemma_check_after_failure(
    cache: CacheView,
    name: NameView,
    loc: DirectResView,
    v: Option<VersionView>,
    disk: Set<Seq<char>>,
    luck: Luck,
)
    requires
        !(loc is Dir),
        !disk.contains(cache.check_probe(name, loc, v)->0),
        run_load(cache.load(name, loc, v), disk, luck).state is Failed,
    ensures
        ({
            let end = run_load(cache.load(name, loc, v), disk, luck);
            let exists = end.disk.contains(cache.check_probe(name, loc, v)->0);
            cache.check(name, loc, v, exists) is None
        }),
{
    lemma_load_seals_last(cache.load(name, loc, v), disk, luck);
}

impl Cache {
    /// The cache at `location`. Requirements that name no index go to
    /// `def_index`.
    pub fn from_disk(location: String, def_index: IndexRes) -> (r: Cache)
        ensures
            r@ == (CacheView { location: location@, def_index: def_index@ }),
    {
        Cache { location, def_index }
    }

    /// The directory of the cache.
    pub fn location(&self) -> (r: &str)
        ensures
            r@ == self@.location,
    {
        self.location.as_str()
    }

    /// The index for requirements that name none.
    pub fn def_index(&self) -> (r: &IndexRes)
        ensures
            r@ == self@.def_index,
    {
        &self.def_index
    }

    /// The three directories of the cache, which have to exist before it is
    /// used: sources, builds, indices.
    pub fn layout(&self) -> (r: Vec<String>)
        ensures
            r@.len() == 3,
            r@[0]@ == self@.src(),
            r@[1]@ == self@.build(),
            r@[2]@ == self@.indices(),
    {
        let mut r = Vec::new();
        r.push(join_path(self.location.as_str(), "src"));
        r.push(join_path(self.location.as_str(), "build"));
        r.push(join_path(self.location.as_str(), "indices"));
        r
    }

    /// Writes what the directory for the source of a package is named
    /// after. The version is looked at only for a package from an archive.
    pub fn src_key(name: &Name, loc: &DirectRes, v: Option<&Version>) -> (r: String)
        ensures
            r@ == src_key(name@, loc@, some_view(v)),
    {
        let mut key = name.as_str().to_owned();
        key.append(loc.to_string().as_str());
        if let Some(v) = v {
            if let DirectRes::Tar { .. } = loc {
                key.append(v.to_string().as_str());
            }
        }
        proof {
            assert(key@ =~= src_key(name@, loc@, some_view(v)));
        }
        key
    }

    /// Names the directory for the source of a package: the package's
    /// group and name, then the digest of `src_key`.
    pub fn get_src_dir(name: &Name, loc: &DirectRes, v: Option<&Version>) -> (r: String)
        ensures
            r@ == src_dir(name@, loc@, some_view(v)),
            text_digest(src_key(name@, loc@, some_view(v))).len() == 32,
    {
        let hash = digest_hex(Cache::src_key(name, loc, v).as_str());
        package_dir_name(name, hash.as_str())
    }

    /// Names the directory for an index.
    pub fn get_index_dir(loc: &DirectRes) -> (r: String)
        ensures
            r@ == index_dir(loc@),
            text_digest(direct_res_text(loc@)).len() == 32,
            r@.len() == 64,
    {
        digest_hex(loc.to_string().as_str())
    }

    /// The directory in which the source of a package is kept.
    pub fn src_path(&self, name: &Name, loc: &DirectRes, v: Option<&Version>) -> (r: String)
        ensures
            r@ == self@.src_path(name@, loc@, some_view(v)),
    {
        let src = join_path(self.location.as_str(), "src");
        join_path(src.as_str(), Cache::get_src_dir(name, loc, v).as_str())
    }

    /// The directory in which an index is kept.
    pub fn index_path(&self, loc: &DirectRes) -> (r: String)
        ensures
            r@ == self@.index_path(loc@),
    {
        let indices = join_path(self.location.as_str(), "indices");
        join_path(indices.as_str(), Cache::get_index_dir(loc).as_str())
    }

    /// The directory in which a build is kept.
    pub fn build_path(&self, build: &Build) -> (r: String)
        ensures
            r@ == self@.build_path(build.summary@.id.name, build.hash@),
    {
        let dir = join_path(self.location.as_str(), "build");
        join_path(dir.as_str(), build.dir_name().as_str())
    }

    /// Gives a build its place on disk, once the lock on `build_path` was
    /// asked for: `locked` says whether it was acquired. Nothing is fetched
    /// and nothing is built here.
    pub fn checkout_build(&self, build: Build, locked: bool) -> (r: Result<Binary, ErrorKind>)
        ensures
            match r {
                Ok(binary) => locked && binary.build == build && binary.binary_path@
                    == self@.build_path(build.summary@.id.name, build.hash@),
                Err(e) => !locked && e == ErrorKind::LockAcquisitionFailure,
            },
    {
        if locked {
            let binary_path = self.build_path(&build);
            Ok(Binary { build, binary_path })
        } else {
            Err(ErrorKind::LockAcquisitionFailure)
        }
    }

    /// The path that has to be probed before `check` can answer: `None`
    /// where no probe is needed.
    pub fn check_probe(&self, name: &Name, loc: &DirectRes, v: Option<&Version>) -> (r: Option<
        String,
    >)
        ensures
            some_view(r) == self@.check_probe(name@, loc@, some_view(v)),
    {
        match loc {
            DirectRes::Dir { .. } => None,
            _ => Some(seal_of(self.src_path(name, loc, v).as_str())),
        }
    }

    /// Says whether a package is in the cache, and where. `exists` is the
    /// answer of the disk for the path that `check_probe` gave, the seal of
    /// the package's directory; where that gave none, `exists` is not
    /// looked at.
    pub fn check(&self, name: &Name, loc: &DirectRes, v: Option<&Version>, exists: bool) -> (r:
        Option<String>)
        ensures
            some_view(r) == self@.check(name@, loc@, some_view(v), exists),
            loc@ matches DirectResView::Dir { url } ==> some_view(r) == Some(url),
    {
        match loc {
            DirectRes::Dir { url } => Some(url.clone()),
            _ => {
                if exists {
                    Some(self.src_path(name, loc, v))
                } else {
                    None
                }
            },
        }
    }

    /// Starts the request for the source of a package. What has to be done
    /// is the `action` of the state; the world's answer leads to the `next`
    /// one, until a state is final.
    ///
    /// The lock is taken before anything is fetched, so that of two
    /// requests for the same source only one fetches. The directory is
    /// sealed once everything was brought, and removed where that failed.
    pub fn load(&self, pkg: &PackageId, loc: &DirectRes, v: Option<&Version>) -> (r: FetchState)
        ensures
            r@ == self@.load(pkg@.name, loc@, some_view(v)),
    {
        match loc {
            DirectRes::Dir { url } => FetchState::Cached { path: url.clone() },
            _ => FetchState::Unknown { path: self.src_path(pkg.name(), loc, v) },
        }
    }

    /// The path of the manifest in the checkout at `dir`.
    pub fn manifest_path(dir: &str) -> (r: String)
        ensures
            r@ == join(dir@, manifest_file_name()),
    {
        join_path(dir, "Cargo.toml")
    }

    /// Makes the source of the package that was loaded into `dir`, once its
    /// manifest was looked for: `file` says what was found.
    ///
    /// The metadata is read off the manifest as `CacheMeta::from_manifest`
    /// does it, with this cache's default index: one dependency for each
    /// requirement, in the manifest's order.
    pub fn checkout_source(
        &self,
        loc: &DirectRes,
        dir: String,
        file: ManifestFile,
        observed: &str,
    ) -> (r: Result<Source, ErrorKind>)
        ensures
            match r {
                Ok(source) => file == ManifestFile::Parsed(source.manifest)
                    && source.meta.version@ == source.manifest@.version
                    && edges(source.meta.deps) == meta_deps(
                    source.manifest@.dependencies,
                    self@.def_index,
                ) && edges(source.meta.deps).len() == source.manifest@.dependencies.len()
                    && (forall|i: int|
                    0 <= i < source.manifest@.dependencies.len() ==> #[trigger] edges(
                        source.meta.deps,
                    )[i] == (
                        source.manifest@.dependencies[i].1.id(
                            self@.def_index,
                            source.manifest@.dependencies[i].0,
                        ),
                        source.manifest@.dependencies[i].1.constraint(),
                    )) && source.location@ == loc@ && source.path@ == SrcPathView::Directory(
                    dir@,
                ) && source.hash@ == loc@.content_hash(observed@),
                Err(e) => match file {
                    ManifestFile::Missing => e == ErrorKind::MissingManifest,
                    ManifestFile::Invalid => e == ErrorKind::InvalidManifest,
                    ManifestFile::Parsed(_) => false,
                },
            },
    {
        match file {
            ManifestFile::Missing => Err(ErrorKind::MissingManifest),
            ManifestFile::Invalid => Err(ErrorKind::InvalidManifest),
            ManifestFile::Parsed(manifest) => {
                let meta = CacheMeta::from_manifest(&manifest, &self.def_index);
                Ok(Source::new(manifest, meta, loc.clone(), SrcPath::Directory(dir), observed))
            },
        }
    }

    /// Starts the request for one index.
    pub fn index_start(&self, loc: &DirectRes) -> (r: IndexState)
        ensures
            r@ == self@.index_start(loc@),
    {
        match loc {
            DirectRes::Dir { url } => IndexState::Cached { path: url.clone() },
            _ => IndexState::Unknown { path: self.index_path(loc) },
        }
    }

    /// Starts the requests for some indices, one for each locator.
    pub fn get_indices(&self, index_reses: &[DirectRes]) -> (r: Vec<IndexState>)
        ensures
            r@.len() == index_reses@.len(),
            forall|i: int|
                0 <= i < r@.len() ==> (#[trigger] r@[i])@ == self@.index_start(
                    index_reses@[i]@,
                ),
    {
        let mut r: Vec<IndexState> = Vec::new();
        let mut i: usize = 0;
        while i < index_reses.len()
            invariant
                i <= index_reses.len(),
                r@.len() == i,
                forall|j: int|
                    0 <= j < i ==> (#[trigger] r@[j])@ == self@.index_start(index_reses@[j]@),
            decreases index_reses.len() - i,
        {
            r.push(self.index_start(&index_reses[i]));
            i = i + 1;
        }
        r
    }

    /// Gathers the indices that were read, once every request has come to
    /// its end. Those that were left out are passed over in silence.
    pub fn kept_indices(ends: &[IndexState]) -> (r: Vec<(usize, String)>)
        ensures
            r@.map_values(|e: (usize, String)| (e.0, e.1@)) == kept_indices(
                ends@.map_values(|s: IndexState| s@),
            ),
    {
        let ghost views = ends@.map_values(|s: IndexState| s@);
        let mut r: Vec<(usize, String)> = Vec::new();
        let mut i: usize = 0;
        while i < ends.len()
            invariant
                i <= ends.len(),
                views == ends@.map_values(|s: IndexState| s@),
                r@.map_values(|e: (usize, String)| (e.0, e.1@)) == kept_indices(
                    views.take(i as int),
                ),
            decreases ends.len() - i,
        {
            let ghost before = r@.map_values(|e: (usize, String)| (e.0, e.1@));
            proof {
                let next = views.take(i as int + 1);
                assert(next.drop_last() =~= views.take(i as int));
                assert(next.last() == ends@[i as int]@);
            }
            match &ends[i] {
                IndexState::Kept { path } => {
                    r.push((i, path.clone()));
                    proof {
                        assert(r@.map_values(|e: (usize, String)| (e.0, e.1@)) =~= before.push(
                            (i, path@),
                        ));
                    }
                },
                _ => {},
            }
            i = i + 1;
        }
        proof {
            assert(views.take(i as int) =~= views);
        }
        r
    }
}

} // verus!
