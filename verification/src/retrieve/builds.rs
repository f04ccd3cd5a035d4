//! Builds and their fingerprints.

use crate::package::version::version_text;
use crate::package::{
    checksum_tag, checksum_text, package_id_text, ChecksumView, PackageId, Summary, SummaryView,
};
use crate::retrieve::naming::{
    digest_hex, digest_text, dir_name, package_dir_name, text_digest,
};
use crate::util::hash::lemma_hex_injective;
use crate::util::text::lemma_concat_differs;
use vstd::prelude::*;
use vstd::utf8::encode_utf8;

verus! {

/// What one package of a build is hashed as: the texts of its id, of its
/// version and of its checksum, one after the other.
pub open spec fn node_text<T>(node: SummaryView<T>) -> Seq<char> {
    package_id_text(node.id) + version_text(node.id.version) + checksum_text(node.checksum)
}

/// What a build is named after: the texts of the packages that go into it,
/// in their order.
pub open spec fn build_key<T>(tree: Seq<SummaryView<T>>) -> Seq<char>
    decreases tree.len(),
{
    if tree.len() == 0 {
        seq![]
    } else {
        build_key(tree.drop_last()) + node_text(tree.last())
    }
}

/// The packages of a build as plain values.
pub open spec fn tree_view<T>(tree: Seq<Summary<T>>) -> Seq<SummaryView<T>> {
    tree.map_values(|node: Summary<T>| node@)
}

/// The fingerprint of a build: the digest of what it is named after.
pub open spec fn build_hash<T>(tree: Seq<SummaryView<T>>) -> Seq<char> {
    digest_text(build_key(tree))
}

/// What a build is named after is made up of its parts.
proof fn lemma_build_key_concat<T>(a: Seq<SummaryView<T>>, b: Seq<SummaryView<T>>)
    ensures
        build_key(a + b) == build_key(a) + build_key(b),
    decreases b.len(),
{
    if b.len() == 0 {
        assert(a + b =~= a);
    } else {
        assert((a + b).drop_last() =~= a + b.drop_last());
        assert((a + b).last() == b.last());
        lemma_build_key_concat(a, b.drop_last());
        assert(build_key(a + b) =~= build_key(a) + build_key(b));
    }
}

/// A build of one package is named after that package.
proof fn lemma_build_key_one<T>(node: SummaryView<T>)
    ensures
        build_key(seq![node]) == node_text(node),
{
    let one = seq![node];
    assert(one.drop_last().len() == 0);
    assert(build_key(one.drop_last()) =~= Seq::<char>::empty());
    assert(one.last() == node);
    assert(build_key(one) =~= node_text(node));
}

/// What a build is named after looks at the id and the checksum of each
/// package, and at nothing else.
proof fn lemma_build_key_same<T>(a: Seq<SummaryView<T>>, b: Seq<SummaryView<T>>)
    requires
        a.len() == b.len(),
        forall|i: int| 0 <= i < a.len() ==> a[i].id == b[i].id && a[i].checksum == b[i].checksum,
    ensures
        build_key(a) == build_key(b),
    decreases a.len(),
{
    if a.len() > 0 {
        lemma_build_key_same(a.drop_last(), b.drop_last());
    }
}

/// Two checksums that differ have texts that differ.
pub proof fn lemma_checksum_text_injective(c1: ChecksumView, c2: ChecksumView)
    requires
        c1 != c2,
    ensures
        checksum_text(c1) != checksum_text(c2),
{
    assert(c1.fmt == c2.fmt);
    assert(c1.hash != c2.hash);
    lemma_concat_differs(checksum_tag(c1.fmt) + seq![':'], c1.hash, c2.hash, seq![]);
    assert(checksum_text(c1) =~= checksum_tag(c1.fmt) + seq![':'] + c1.hash + seq![]);
    assert(checksum_text(c2) =~= checksum_tag(c1.fmt) + seq![':'] + c2.hash + seq![]);
}

/// The fingerprint of a build looks at the content of every package in it.
/// Take two builds of the same packages, with the same ids and versions
/// throughout, that differ in the checksum of one package, wherever in the
/// build it stands. They are named after different keys, so their
/// fingerprints are the same only if SHA-256 gives one digest for two
/// different inputs.
pub proof fn lemma_build_hash_sensitive<T>(
    a: Seq<SummaryView<T>>,
    b: Seq<SummaryView<T>>,
    k: int,
)
    requires
        a.len() == b.len(),
        0 <= k < a.len(),
        forall|i: int| 0 <= i < a.len() ==> a[i].id == b[i].id,
        forall|i: int| 0 <= i < a.len() && i != k ==> a[i].checksum == b[i].checksum,
        a[k].checksum != b[k].checksum,
    ensures
        build_key(a) != build_key(b),
        encode_utf8(build_key(a)) != encode_utf8(build_key(b)),
        build_hash(a) == build_hash(b) ==> text_digest(build_key(a)) == text_digest(
            build_key(b),
        ),
{
    let head_a = a.take(k);
    let head_b = b.take(k);
    let tail_a = a.skip(k + 1);
    let tail_b = b.skip(k + 1);
    assert(a =~= head_a + seq![a[k]] + tail_a);
    assert(b =~= head_b + seq![b[k]] + tail_b);
    lemma_build_key_concat(head_a + seq![a[k]], tail_a);
    lemma_build_key_concat(head_a, seq![a[k]]);
    lemma_build_key_concat(head_b + seq![b[k]], tail_b);
    lemma_build_key_concat(head_b, seq![b[k]]);
    lemma_build_key_same(head_a, head_b);
    lemma_build_key_same(tail_a, tail_b);
    lemma_build_key_one(a[k]);
    lemma_build_key_one(b[k]);
    lemma_checksum_text_injective(a[k].checksum, b[k].checksum);
    let id_text = package_id_text(a[k].id) + version_text(a[k].id.version);
    lemma_concat_differs(
        id_text,
        checksum_text(a[k].checksum),
        checksum_text(b[k].checksum),
        seq![],
    );
    assert(node_text(a[k]) =~= id_text + checksum_text(a[k].checksum) + seq![]);
    assert(node_text(b[k]) =~= id_text + checksum_text(b[k].checksum) + seq![]);
    lemma_concat_differs(build_key(head_a), node_text(a[k]), node_text(b[k]), build_key(tail_a));
    vstd::utf8::encode_utf8_decode_utf8(build_key(a));
    vstd::utf8::encode_utf8_decode_utf8(build_key(b));
    if build_hash(a) == build_hash(b) {
        lemma_hex_injective(text_digest(build_key(a)), text_digest(build_key(b)));
    }
}

/// One build of a package: the package, and the fingerprint of everything
/// that went into building it. The same version of a package built against
/// other dependencies, or against other content of the same dependencies,
/// is another build.
#[derive(Debug)]
pub struct Build {
    pub summary: Summary<PackageId>,
    pub hash: String,
}

impl Build {
    /// Writes what a build of `sub_tree` is named after.
    pub fn key(sub_tree: &[Summary<PackageId>]) -> (r: String)
        ensures
            r@ == build_key(tree_view(sub_tree@)),
    {
        let mut key = String::new();
        let mut i: usize = 0;
        while i < sub_tree.len()
            invariant
                i <= sub_tree.len(),
                key@ == build_key(tree_view(sub_tree@.take(i as int))),
            decreases sub_tree.len() - i,
        {
            let src = &sub_tree[i];
            let ghost before = key@;
            key.append(src.id().to_string().as_str());
            key.append(src.id().version().to_string().as_str());
            key.append(src.checksum().to_string().as_str());
            proof {
                let done = tree_view(sub_tree@.take(i as int));
                let next = tree_view(sub_tree@.take(i as int + 1));
                assert(next.drop_last() =~= done);
                assert(next.last() == sub_tree@[i as int]@);
                assert(key@ =~= before + node_text(sub_tree@[i as int]@));
            }
            i = i + 1;
        }
        proof {
            assert(sub_tree@.take(i as int) =~= sub_tree@);
        }
        key
    }

    /// The build of `summary` against `sub_tree`: the package itself and
    /// everything it depends on, directly or not, in the order that the
    /// resolution gives them. Its fingerprint is the digest of `key`.
    pub fn new(summary: Summary<PackageId>, sub_tree: &[Summary<PackageId>]) -> (r: Build)
        ensures
            r.summary@ == summary@,
            r.hash@ == build_hash(tree_view(sub_tree@)),
            text_digest(build_key(tree_view(sub_tree@))).len() == 32,
            r.hash@.len() == 64,
    {
        let hash = digest_hex(Build::key(sub_tree).as_str());
        Build { summary, hash }
    }

    /// Names the directory of the build. It is not the directory of the
    /// package's source: the fingerprint in it looks at every package that
    /// went into the build.
    pub fn dir_name(&self) -> (r: String)
        ensures
            r@ == dir_name(self.summary@.id.name, self.hash@),
    {
        package_dir_name(self.summary.id().name(), self.hash.as_str())
    }
}

/// A build that has its place on disk.
#[derive(Debug)]
pub struct Binary {
    pub build: Build,
    /// The directory of the build, which the holder of this value has
    /// locked.
    pub binary_path: String,
}

} // verus!
