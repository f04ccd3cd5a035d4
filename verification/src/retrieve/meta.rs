//! What the cache knows of a package from its manifest.

use crate::package::manifest::{DepReqView, Manifest};
use crate::package::resolution::IndexRes;
use crate::package::version::{Constraint, Version};
use crate::package::{NameView, PackageId, PackageIdView};
use indexmap::IndexMap;
use vstd::prelude::*;

verus! {

/// One dependency of a cached package: the id asked for, and the constraint
/// on its version.
pub type Edge = (PackageIdView, Seq<char>);

/// The place of the first entry of `s` under the key `k`, or the length of
/// `s` where no entry has that key.
pub open spec fn key_index(s: Seq<Edge>, k: PackageIdView) -> int
    decreases s.len(),
{
    if s.len() == 0 || s[0].0 == k {
        0
    } else {
        1 + key_index(s.drop_first(), k)
    }
}

/// `s` after the value `v` was put under the key `k`: an entry with that key
/// keeps its place and takes the new value, and a new key goes to the end.
pub open spec fn put(s: Seq<Edge>, k: PackageIdView, v: Seq<char>) -> Seq<Edge> {
    let i = key_index(s, k);
    if i < s.len() {
        s.update(i, (k, v))
    } else {
        s.push((k, v))
    }
}

/// What an `IndexMap` of dependencies holds: its entries in their order.
pub uninterp spec fn edges(m: IndexMap<PackageId, Constraint>) -> Seq<Edge>;

/// Calls `IndexMap::new`.
///
/// Believed, not proved: the new map is empty.
#[verifier::external_body]
fn edges_new() -> (m: IndexMap<PackageId, Constraint>)
    ensures
        edges(m) == Seq::<Edge>::empty(),
{
    IndexMap::new()
}

/// Calls `IndexMap::insert` and drops the value that it hands back.
///
/// Believed, not proved: where the map holds an equal key, that entry keeps
/// its place in the order and takes the new value; where it holds none, the
/// new entry becomes the last. Two keys are equal where `PackageId`'s `==`
/// says so, which is where their views are the same; the derived `Hash`
/// hashes the fields that `==` compares.
#[verifier::external_body]
fn edges_insert(m: &mut IndexMap<PackageId, Constraint>, k: PackageId, v: Constraint)
    ensures
        edges(*final(m)) == put(edges(*old(m)), k@, v@),
{
    m.insert(k, v);
}

/// The dependencies that a cached package records for the requirements of
/// its manifest, taken in order: each is put under the id it asks for.
pub open spec fn meta_deps(reqs: Seq<(NameView, DepReqView)>, def_index: Seq<char>) -> Seq<Edge>
    decreases reqs.len(),
{
    if reqs.len() == 0 {
        Seq::empty()
    } else {
        let (name, req) = reqs.last();
        put(meta_deps(reqs.drop_last(), def_index), req.id(def_index, name), req.constraint())
    }
}

/// What the cache knows of a package from its manifest: its version, and
/// for each dependency the id asked for and the constraint on its version.
///
/// A dependency on a directory or on a git repository is pinned by its
/// place, so its constraint is the one that every version meets.
#[derive(Debug)]
pub struct CacheMeta {
    pub version: Version,
    pub deps: IndexMap<PackageId, Constraint>,
}

impl CacheMeta {
    /// Reads the metadata off a manifest. Requirements that name no index
    /// go to `def_index`. The dependencies that matter only where the
    /// package is the root are left out.
    ///
    /// The metadata lists one dependency for each requirement of the
    /// manifest, in the manifest's order.
    pub fn from_manifest(manifest: &Manifest, def_index: &IndexRes) -> (r: CacheMeta)
        ensures
            r.version@ == manifest@.version,
            edges(r.deps) == meta_deps(manifest@.dependencies, def_index@),
            distinct_names(manifest@.dependencies),
            edges(r.deps).len() == manifest@.dependencies.len(),
            forall|i: int|
                0 <= i < manifest@.dependencies.len() ==> #[trigger] edges(r.deps)[i] == (
                    manifest@.dependencies[i].1.id(def_index@, manifest@.dependencies[i].0),
                    manifest@.dependencies[i].1.constraint(),
                ),
    {
        let version = manifest.version().clone();
        let mut deps = edges_new();
        let count = manifest.dependency_count();
        let mut i: usize = 0;
        while i < count
            invariant
                i <= count,
                count == manifest@.dependencies.len(),
                edges(deps) == meta_deps(manifest@.dependencies.take(i as int), def_index@),
                forall|a: int, b: int|
                    0 <= a < i && 0 <= b < count && a != b ==> (
                    #[trigger] manifest@.dependencies[a]).0 != (
                    #[trigger] manifest@.dependencies[b]).0,
            decreases count - i,
        {
            match manifest.dependency(i) {
                Some((n, dep)) => {
                    let (pid, c) = dep.clone().into_dep(def_index.clone(), n.clone());
                    edges_insert(&mut deps, pid, c);
                    proof {
                        let done = manifest@.dependencies.take(i as int);
                        let next = manifest@.dependencies.take(i as int + 1);
                        assert(next.drop_last() =~= done);
                        assert(next.last() == manifest@.dependencies[i as int]);
                    }
                },
                None => {},
            }
            i = i + 1;
        }
        proof {
            assert(manifest@.dependencies.take(count as int) =~= manifest@.dependencies);
            lemma_meta_deps_in_order(manifest@.dependencies, def_index@);
        }
        CacheMeta { version, deps }
    }
}

/// No two requirements are for the same package.
pub open spec fn distinct_names(reqs: Seq<(NameView, DepReqView)>) -> bool {
    forall|i: int, j: int| 0 <= i < j < reqs.len() ==> reqs[i].0 != reqs[j].0
}

/// A key that no entry has is found at the length.
proof fn lemma_key_index_absent(s: Seq<Edge>, k: PackageIdView)
    requires
        forall|i: int| 0 <= i < s.len() ==> s[i].0 != k,
    ensures
        key_index(s, k) == s.len(),
    decreases s.len(),
{
    if s.len() > 0 {
        let t = s.drop_first();
        assert forall|i: int| 0 <= i < t.len() implies t[i].0 != k by {
            assert(t[i] == s[i + 1]);
        }
        lemma_key_index_absent(t, k);
    }
}

/// Where no two requirements of a manifest are for the same package, the
/// metadata lists one dependency for each requirement, in the manifest's
/// order.
pub proof fn lemma_meta_deps_in_order(reqs: Seq<(NameView, DepReqView)>, def_index: Seq<char>)
    requires
        distinct_names(reqs),
    ensures
        meta_deps(reqs, def_index).len() == reqs.len(),
        forall|i: int|
            0 <= i < reqs.len() ==> #[trigger] meta_deps(reqs, def_index)[i] == (
                reqs[i].1.id(def_index, reqs[i].0),
                reqs[i].1.constraint(),
            ),
    decreases reqs.len(),
{
    if reqs.len() > 0 {
        let before = reqs.drop_last();
        let (name, req) = reqs.last();
        let key = req.id(def_index, name);
        lemma_meta_deps_in_order(before, def_index);
        let s = meta_deps(before, def_index);
        assert forall|i: int| 0 <= i < s.len() implies s[i].0 != key by {
            assert(before[i] == reqs[i]);
            assert(s[i].0.name == reqs[i].0);
            assert(reqs[i].0 != reqs[reqs.len() - 1].0);
        }
        lemma_key_index_absent(s, key);
        assert forall|i: int| 0 <= i < reqs.len() implies #[trigger] meta_deps(reqs, def_index)[i]
            == (reqs[i].1.id(def_index, reqs[i].0), reqs[i].1.constraint()) by {
            if i < reqs.len() - 1 {
                assert(before[i] == reqs[i]);
            }
        }
    }
}

} // verus!
