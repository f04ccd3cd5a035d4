//! Package sources that lie on disk.

use crate::package::manifest::Manifest;
use crate::package::resolution::{DirectRes, DirectResView};
use crate::package::checksum_text;
use crate::retrieve::meta::CacheMeta;
use crate::util::hash::{hex, hexify_hash, lemma_hex_injective, sha256, sha256_digest};
use vstd::bytes::{
    lemma_auto_spec_u64_to_from_le_bytes, spec_u64_from_le_bytes, spec_u64_to_le_bytes,
    u64_to_le_bytes,
};
use vstd::prelude::*;
use vstd::string::StringSliceAdditionalSpecFns;
use vstd::utf8::encode_utf8;

verus! {

/// Where the content hash of a source comes from.
#[derive(Clone, Copy, Debug, PartialEq, Eq, Structural)]
pub enum HashSource {
    /// From the locator: the checksum that an archive is declared with.
    Declared,
    /// From the checkout: the id of the commit that is checked out.
    CommitId,
    /// From the files: a digest of their paths and contents.
    Contents,
}

impl DirectResView {
    /// Where the content hash of a source from this locator comes from.
    pub open spec fn hash_source(self) -> HashSource {
        match self {
            DirectResView::Tar { .. } => HashSource::Declared,
            DirectResView::Git { .. } => HashSource::CommitId,
            DirectResView::Dir { .. } => HashSource::Contents,
        }
    }

    /// The content hash of a source from this locator, where `observed` is
    /// what was read off the checkout: an archive has the checksum it was
    /// declared with, whatever was observed.
    pub open spec fn content_hash(self, observed: Seq<char>) -> Seq<char> {
        match self {
            DirectResView::Tar { cksum, .. } => checksum_text(cksum),
            _ => observed,
        }
    }
}

/// One file of a source as plain values: its path below the root of the
/// source, and its bytes.
pub type FileView = (Seq<char>, Seq<u8>);

/// Some bytes with their number before them, in eight bytes, the lowest
/// first: where one such piece ends is told by how it begins.
pub open spec fn framed(piece: Seq<u8>) -> Seq<u8> {
    spec_u64_to_le_bytes(piece.len() as u64) + piece
}

/// What is digested of one file: its path, framed, and its bytes, framed.
pub open spec fn file_input(file: FileView) -> Seq<u8> {
    framed(encode_utf8(file.0)) + framed(file.1)
}

/// What is digested of the files of a source: one file after the other, in
/// their order.
pub open spec fn contents_input(files: Seq<FileView>) -> Seq<u8>
    decreases files.len(),
{
    if files.len() == 0 {
        Seq::empty()
    } else {
        file_input(files.first()) + contents_input(files.drop_first())
    }
}

/// The digest of the files of a source, in hexadecimal.
pub open spec fn contents_hash(files: Seq<FileView>) -> Seq<char> {
    hex(sha256_digest(contents_input(files)))
}

/// Every path and every content is short enough for its length to be
/// written in eight bytes, as everything is that a machine holds.
pub open spec fn measurable(files: Seq<FileView>) -> bool {
    forall|i: int|
        0 <= i < files.len() ==> encode_utf8(#[trigger] files[i].0).len() <= u64::MAX
            && files[i].1.len() <= u64::MAX
}

/// The files of a source as plain values.
pub open spec fn files_view(files: Seq<(String, Vec<u8>)>) -> Seq<FileView> {
    files.map_values(|f: (String, Vec<u8>)| (f.0@, f.1@))
}

/// What follows a framed piece, and the piece itself, are told by the
/// whole.
proof fn lemma_framed_apart(p: Seq<u8>, s: Seq<u8>, q: Seq<u8>, t: Seq<u8>)
    requires
        p.len() <= u64::MAX,
        q.len() <= u64::MAX,
        framed(p) + s == framed(q) + t,
    ensures
        p == q,
        s == t,
{
    lemma_auto_spec_u64_to_from_le_bytes();
    let x = framed(p) + s;
    let y = framed(q) + t;
    let lp = spec_u64_to_le_bytes(p.len() as u64);
    let lq = spec_u64_to_le_bytes(q.len() as u64);
    assert(x.subrange(0, 8) =~= lp);
    assert(y.subrange(0, 8) =~= lq);
    assert(spec_u64_from_le_bytes(lp) == p.len() as u64);
    assert(spec_u64_from_le_bytes(lq) == q.len() as u64);
    assert(p.len() == q.len());
    assert(x.subrange(8, 8 + p.len() as int) =~= p);
    assert(y.subrange(8, 8 + q.len() as int) =~= q);
    assert(x.subrange(8 + p.len() as int, x.len() as int) =~= s);
    assert(y.subrange(8 + q.len() as int, y.len() as int) =~= t);
}

/// What is digested of some files and of one more is what is digested of
/// the first, then of the last.
proof fn lemma_contents_input_push(files: Seq<FileView>, file: FileView)
    ensures
        contents_input(files.push(file)) == contents_input(files) + file_input(file),
    decreases files.len(),
{
    let all = files.push(file);
    if files.len() == 0 {
        assert(all.drop_first() =~= Seq::<FileView>::empty());
        assert(all.first() == file);
        assert(contents_input(all.drop_first()) =~= Seq::<u8>::empty());
        assert(contents_input(all) =~= file_input(file));
        assert(contents_input(files) + file_input(file) =~= file_input(file));
    } else {
        assert(all.drop_first() =~= files.drop_first().push(file));
        assert(all.first() == files.first());
        lemma_contents_input_push(files.drop_first(), file);
        assert(contents_input(all) =~= contents_input(files) + file_input(file));
    }
}

/// What is digested tells the files: two lists of files of which the same
/// is digested are the same list, path by path and byte by byte. A file
/// that was changed, added, removed, renamed, or cut differently from its
/// neighbour changes what is digested.
pub proof fn lemma_contents_input_injective(a: Seq<FileView>, b: Seq<FileView>)
    requires
        measurable(a),
        measurable(b),
        contents_input(a) == contents_input(b),
    ensures
        a == b,
    decreases a.len(),
{
    lemma_auto_spec_u64_to_from_le_bytes();
    if a.len() == 0 {
        if b.len() > 0 {
            assert(contents_input(b).len() >= 8);
        }
        assert(a =~= b);
    } else if b.len() == 0 {
        assert(contents_input(a).len() >= 8);
    } else {
        let x = a.first();
        let y = b.first();
        let ra = contents_input(a.drop_first());
        let rb = contents_input(b.drop_first());
        assert(a[0] == x && b[0] == y);
        assert(contents_input(a) =~= framed(encode_utf8(x.0)) + (framed(x.1) + ra));
        assert(contents_input(b) =~= framed(encode_utf8(y.0)) + (framed(y.1) + rb));
        lemma_framed_apart(encode_utf8(x.0), framed(x.1) + ra, encode_utf8(y.0), framed(y.1) + rb);
        lemma_framed_apart(x.1, ra, y.1, rb);
        vstd::utf8::encode_utf8_decode_utf8(x.0);
        vstd::utf8::encode_utf8_decode_utf8(y.0);
        assert(x == y);
        assert forall|i: int| 0 <= i < a.drop_first().len() implies encode_utf8(
            #[trigger] a.drop_first()[i].0,
        ).len() <= u64::MAX && a.drop_first()[i].1.len() <= u64::MAX by {
            assert(a.drop_first()[i] == a[i + 1]);
        }
        assert forall|i: int| 0 <= i < b.drop_first().len() implies encode_utf8(
            #[trigger] b.drop_first()[i].0,
        ).len() <= u64::MAX && b.drop_first()[i].1.len() <= u64::MAX by {
            assert(b.drop_first()[i] == b[i + 1]);
        }
        lemma_contents_input_injective(a.drop_first(), b.drop_first());
        assert(a =~= seq![x] + a.drop_first());
        assert(b =~= seq![y] + b.drop_first());
    }
}

/// Two sources whose files differ have the same content hash only where
/// SHA-256 gives one digest for two different inputs.
pub proof fn lemma_contents_hash_changes(a: Seq<FileView>, b: Seq<FileView>)
    requires
        measurable(a),
        measurable(b),
        a != b,
    ensures
        contents_input(a) != contents_input(b),
        contents_hash(a) == contents_hash(b) ==> sha256_digest(contents_input(a))
            == sha256_digest(contents_input(b)),
{
    if contents_input(a) == contents_input(b) {
        lemma_contents_input_injective(a, b);
    }
    if contents_hash(a) == contents_hash(b) {
        lemma_hex_injective(sha256_digest(contents_input(a)), sha256_digest(contents_input(b)));
    }
}

/// Appends a piece, framed.
fn push_framed(bytes: &mut Vec<u8>, piece: &[u8])
    ensures
        final(bytes)@ == old(bytes)@ + framed(piece@),
        piece@.len() <= u64::MAX,
{
    let length = u64_to_le_bytes(piece.len() as u64);
    bytes.extend_from_slice(length.as_slice());
    bytes.extend_from_slice(piece);
    assert(bytes@ =~= old(bytes)@ + framed(piece@));
}

/// Digests the files of a source: each with its path below the root of
/// the source, in the order given.
pub fn hash_contents(files: &[(String, Vec<u8>)]) -> (r: String)
    ensures
        r@ == contents_hash(files_view(files@)),
        measurable(files_view(files@)),
        r@.len() == 64,
{
    let ghost all = files_view(files@);
    let mut bytes: Vec<u8> = Vec::new();
    let mut i: usize = 0;
    while i < files.len()
        invariant
            i <= files.len(),
            all == files_view(files@),
            bytes@ == contents_input(all.take(i as int)),
            measurable(all.take(i as int)),
        decreases files.len() - i,
    {
        let ghost before = bytes@;
        let path = files[i].0.as_str().as_bytes();
        let content = files[i].1.as_slice();
        push_framed(&mut bytes, path);
        push_framed(&mut bytes, content);
        proof {
            let done = all.take(i as int);
            let next = all.take(i as int + 1);
            assert(all[i as int] == (files@[i as int].0@, files@[i as int].1@));
            assert(path@ == encode_utf8(all[i as int].0));
            assert(content@ == all[i as int].1);
            assert(next =~= done.push(all[i as int]));
            lemma_contents_input_push(done, all[i as int]);
            assert(bytes@ =~= before + file_input(all[i as int]));
            assert forall|j: int| 0 <= j < next.len() implies encode_utf8(
                #[trigger] next[j].0,
            ).len() <= u64::MAX && next[j].1.len() <= u64::MAX by {
                if j < i {
                    assert(next[j] == done[j]);
                } else {
                    assert(next[j] == all[i as int]);
                }
            }
        }
        i = i + 1;
    }
    proof {
        assert(all.take(i as int) =~= all);
    }
    hexify_hash(sha256(bytes.as_slice()).as_slice())
}

impl DirectRes {
    /// Where the content hash of a source from this locator comes from.
    pub fn hash_source(&self) -> (r: HashSource)
        ensures
            r == self@.hash_source(),
    {
        match self {
            DirectRes::Tar { .. } => HashSource::Declared,
            DirectRes::Git { .. } => HashSource::CommitId,
            DirectRes::Dir { .. } => HashSource::Contents,
        }
    }
}

/// Where a checked-out source lies.
#[derive(Debug, PartialEq, Eq)]
pub enum SrcPath {
    /// An archive that is not unpacked.
    Tar(String),
    /// A directory, which the holder of the source has locked.
    Directory(String),
}

/// A `SrcPath` as plain values.
pub enum SrcPathView {
    Tar(Seq<char>),
    Directory(Seq<char>),
}

impl View for SrcPath {
    type V = SrcPathView;

    open spec fn view(&self) -> SrcPathView {
        match self {
            SrcPath::Tar(path) => SrcPathView::Tar(path@),
            SrcPath::Directory(path) => SrcPathView::Directory(path@),
        }
    }
}

/// The source of a package that lies somewhere on disk: the manifest and
/// all the files that belong to it.
#[derive(Debug)]
pub struct Source {
    /// The manifest of the package.
    pub manifest: Manifest,
    pub meta: CacheMeta,
    /// Where the source was brought from.
    pub location: DirectRes,
    /// What stands for the content of the source.
    pub hash: String,
    pub path: SrcPath,
}

impl Source {
    /// The source of the package with this manifest, brought from
    /// `location` to `path`. `observed` is what was read off the checkout
    /// for `location.hash_source()`; it is not looked at where the hash is
    /// declared.
    pub fn new(
        manifest: Manifest,
        meta: CacheMeta,
        location: DirectRes,
        path: SrcPath,
        observed: &str,
    ) -> (r: Source)
        ensures
            r.manifest == manifest,
            r.meta == meta,
            r.location == location,
            r.path == path,
            r.hash@ == location@.content_hash(observed@),
    {
        let hash = match &location {
            DirectRes::Tar { cksum, .. } => cksum.to_string(),
            _ => observed.to_owned(),
        };
        Source { manifest, meta, location, hash, path }
    }

    /// What stands for the content of the source. It changes where the
    /// content changes, also where the directory of the source keeps its
    /// name: a branch that has moved on, a directory that was edited.
    pub fn hash(&self) -> (r: String)
        ensures
            r@ == self.hash@,
    {
        self.hash.clone()
    }
}

/// What was found where the manifest of a checkout should be.
#[derive(Debug)]
pub enum ManifestFile {
    /// No file.
    Missing,
    /// A file that could not be read as a manifest.
    Invalid,
    /// The manifest.
    Parsed(Manifest),
}

} // verus!
