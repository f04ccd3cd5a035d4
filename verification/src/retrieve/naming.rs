//! The names of the cache's directories.
//!
//! A directory is named after a digest of what it was brought from, so that
//! the same request finds the same directory again.

use crate::package::resolution::{
    direct_res_text, lemma_locator_text_injective, DirectResView,
};
use crate::package::version::{lemma_version_text_injective, version_text, VersionView};
use crate::package::{name_text, Name, NameView};
use crate::util::hash::{hex, hexify_hash, lemma_hex_injective, sha256, sha256_digest};
use crate::util::text::{lemma_concat_differs, lemma_decimal_digits};
use vstd::prelude::*;
use vstd::utf8::encode_utf8;

verus! {

/// The SHA-256 digest of a text's UTF-8 bytes.
pub open spec fn text_digest(text: Seq<char>) -> Seq<u8> {
    sha256_digest(encode_utf8(text))
}

/// The SHA-256 digest of a text's UTF-8 bytes, in hexadecimal.
pub open spec fn digest_text(text: Seq<char>) -> Seq<char> {
    hex(text_digest(text))
}

/// Digests a text and writes the digest in hexadecimal.
pub fn digest_hex(text: &str) -> (r: String)
    ensures
        r@ == digest_text(text@),
        text_digest(text@).len() == 32,
        r@.len() == 64,
{
    let digest = sha256(text.as_bytes());
    hexify_hash(digest.as_slice())
}

/// The name of a directory that belongs to a package: group and name of the
/// package, then the digest that tells this directory from the package's
/// others.
pub open spec fn dir_name(name: NameView, digest: Seq<char>) -> Seq<char> {
    name.group + seq!['_'] + name.name + seq!['-'] + digest
}

/// Writes the name of a directory that belongs to a package.
pub fn package_dir_name(name: &Name, digest: &str) -> (r: String)
    ensures
        r@ == dir_name(name@, digest@),
{
    let mut r = name.group().to_owned();
    r.append("_");
    r.append(name.name());
    r.append("-");
    r.append(digest);
    proof {
        reveal_strlit("_");
        reveal_strlit("-");
        assert(r@ =~= dir_name(name@, digest@));
    }
    r
}

/// Whether the version belongs to what a source directory is named after:
/// only where there is one and the package comes from an archive. A git
/// locator is pinned by its own text, and a directory has no version until
/// it is read.
pub open spec fn version_counts(loc: DirectResView, v: Option<VersionView>) -> bool {
    v is Some && loc is Tar
}

/// What a source directory is named after: the package's name, the
/// locator's text, and the version where it counts, one after the other.
pub open spec fn src_key(name: NameView, loc: DirectResView, v: Option<VersionView>) -> Seq<
    char,
> {
    name_text(name) + direct_res_text(loc) + if version_counts(loc, v) {
        version_text(v->0)
    } else {
        seq![]
    }
}

/// The name of the directory that holds the source of a package.
pub open spec fn src_dir(name: NameView, loc: DirectResView, v: Option<VersionView>) -> Seq<
    char,
> {
    dir_name(name, digest_text(src_key(name, loc, v)))
}

/// The name of the directory that holds an index.
pub open spec fn index_dir(loc: DirectResView) -> Seq<char> {
    digest_text(direct_res_text(loc))
}

/// The name of a directory keeps the digest it was made of: two names that
/// are the same were made of the same digest and begin alike, where the
/// two digests are of one length.
pub proof fn lemma_dir_name_keeps_digest(n1: NameView, d1: Seq<u8>, n2: NameView, d2: Seq<u8>)
    requires
        d1.len() == d2.len(),
        dir_name(n1, hex(d1)) == dir_name(n2, hex(d2)),
    ensures
        d1 == d2,
        n1.group + seq!['_'] + n1.name == n2.group + seq!['_'] + n2.name,
{
    let a = dir_name(n1, hex(d1));
    let b = dir_name(n2, hex(d2));
    let h1 = hex(d1);
    let h2 = hex(d2);
    let start_a = n1.group + seq!['_'] + n1.name;
    let start_b = n2.group + seq!['_'] + n2.name;
    assert(h1.len() == h2.len());
    assert(a.len() == start_a.len() + 1 + h1.len());
    assert(b.len() == start_b.len() + 1 + h2.len());
    assert forall|i: int| 0 <= i < h1.len() implies h1[i] == h2[i] by {
        assert(a[a.len() - h1.len() + i] == h1[i]);
        assert(b[b.len() - h2.len() + i] == h2[i]);
    }
    assert(h1 =~= h2);
    lemma_hex_injective(d1, d2);
    assert forall|i: int| 0 <= i < start_a.len() implies start_a[i] == start_b[i] by {
        assert(a[i] == start_a[i]);
        assert(b[i] == start_b[i]);
    }
    assert(start_a =~= start_b);
}

/// Two names that are written alike with a slash and alike with an
/// underscore between group and name are the same name.
proof fn lemma_name_of_two_texts(n1: NameView, n2: NameView)
    requires
        name_text(n1) == name_text(n2),
        n1.group + seq!['_'] + n1.name == n2.group + seq!['_'] + n2.name,
    ensures
        n1 == n2,
{
    let s1 = name_text(n1);
    let s2 = name_text(n2);
    let u1 = n1.group + seq!['_'] + n1.name;
    let u2 = n2.group + seq!['_'] + n2.name;
    let g1 = n1.group.len() as int;
    let g2 = n2.group.len() as int;
    assert(s1.len() == g1 + 1 + n1.name.len());
    assert(s2.len() == g2 + 1 + n2.name.len());
    if g1 < g2 {
        assert(s1[g1] == '/');
        assert(u1[g1] == '_');
        assert(s2[g1] == n2.group[g1]);
        assert(u2[g1] == n2.group[g1]);
    } else if g2 < g1 {
        assert(s2[g2] == '/');
        assert(u2[g2] == '_');
        assert(s1[g2] == n1.group[g2]);
        assert(u1[g2] == n1.group[g2]);
    } else {
        assert(n1.group =~= s1.take(g1));
        assert(n2.group =~= s2.take(g2));
        assert(n1.name =~= s1.skip(g1 + 1));
        assert(n2.name =~= s2.skip(g2 + 1));
    }
}

/// A source directory is named after a version only where the package
/// comes from an archive: for any other locator the version changes
/// nothing.
pub proof fn lemma_src_dir_ignores_version(
    name: NameView,
    loc: DirectResView,
    v1: Option<VersionView>,
    v2: Option<VersionView>,
)
    requires
        !(loc is Tar),
    ensures
        src_dir(name, loc, v1) == src_dir(name, loc, v2),
{
}

/// For one package, what a source directory is named after changes with
/// the text of the locator, which changes with the locator where the
/// locators are clean, and for an archive with the version: two versions
/// give two keys, and a version gives another key than none.
pub proof fn lemma_src_key_changes(
    name: NameView,
    l1: DirectResView,
    v1: Option<VersionView>,
    l2: DirectResView,
    v2: Option<VersionView>,
)
    requires
        v1 matches Some(v) ==> v.valid(),
        v2 matches Some(v) ==> v.valid(),
    ensures
        !version_counts(l1, v1) && !version_counts(l2, v2) && direct_res_text(l1)
            != direct_res_text(l2) ==> src_key(name, l1, v1) != src_key(name, l2, v2),
        !version_counts(l1, v1) && !version_counts(l2, v2) && l1.clean() && l2.clean() && l1
            != l2 ==> src_key(name, l1, v1) != src_key(name, l2, v2),
        l1 == l2 && l1 is Tar && v1 != v2 ==> src_key(name, l1, v1) != src_key(name, l2, v2),
{
    let head = name_text(name);
    if l1.clean() && l2.clean() && direct_res_text(l1) == direct_res_text(l2) {
        lemma_locator_text_injective(l1, l2);
    }
    if !version_counts(l1, v1) && !version_counts(l2, v2) && direct_res_text(l1)
        != direct_res_text(l2) {
        lemma_concat_differs(head, direct_res_text(l1), direct_res_text(l2), seq![]);
    }
    if l1 == l2 && l1 is Tar && v1 != v2 {
        let text1 = if v1 is Some {
            version_text(v1->0)
        } else {
            seq![]
        };
        let text2 = if v2 is Some {
            version_text(v2->0)
        } else {
            seq![]
        };
        if v1 is Some {
            lemma_decimal_digits(v1->0.major as nat);
            assert(version_text(v1->0).len() > 0);
        }
        if v2 is Some {
            lemma_decimal_digits(v2->0.major as nat);
            assert(version_text(v2->0).len() > 0);
        }
        if v1 is Some && v2 is Some && text1 == text2 {
            lemma_version_text_injective(v1->0, v2->0);
        }
        assert(text1 != text2);
        lemma_concat_differs(head + direct_res_text(l1), text1, text2, seq![]);
        assert(src_key(name, l1, v1) =~= head + direct_res_text(l1) + text1 + seq![]);
        assert(src_key(name, l2, v2) =~= head + direct_res_text(l1) + text2 + seq![]);
    }
}

/// For a package from an archive, two versions give two directories, and
/// a version gives another directory than none: the keys differ, so the
/// names are the same only where SHA-256 gives one digest for two
/// different inputs.
pub proof fn lemma_src_dir_tells_versions(
    name: NameView,
    loc: DirectResView,
    v1: Option<VersionView>,
    v2: Option<VersionView>,
)
    requires
        loc is Tar,
        v1 matches Some(v) ==> v.valid(),
        v2 matches Some(v) ==> v.valid(),
        v1 != v2,
    ensures
        src_key(name, loc, v1) != src_key(name, loc, v2),
        encode_utf8(src_key(name, loc, v1)) != encode_utf8(src_key(name, loc, v2)),
        text_digest(src_key(name, loc, v1)).len() == text_digest(src_key(name, loc, v2)).len()
            && src_dir(name, loc, v1) == src_dir(name, loc, v2) ==> text_digest(
            src_key(name, loc, v1),
        ) == text_digest(src_key(name, loc, v2)),
{
    lemma_src_key_changes(name, loc, v1, loc, v2);
    lemma_src_dir_changes(name, loc, v1, name, loc, v2);
}

/// Two source directories have the same name only where SHA-256 gives the
/// same digest for what they are named after: where the two keys differ,
/// that is a collision of SHA-256 on two different inputs. And the keys do
/// differ where the packages' names do, whatever the names hold: what the
/// key runs together, the beginning of the directory's name keeps apart.
pub proof fn lemma_src_dir_changes(
    n1: NameView,
    l1: DirectResView,
    v1: Option<VersionView>,
    n2: NameView,
    l2: DirectResView,
    v2: Option<VersionView>,
)
    ensures
        src_key(n1, l1, v1) != src_key(n2, l2, v2) ==> encode_utf8(src_key(n1, l1, v1))
            != encode_utf8(src_key(n2, l2, v2)),
        text_digest(src_key(n1, l1, v1)).len() == text_digest(src_key(n2, l2, v2)).len()
            && src_dir(n1, l1, v1) == src_dir(n2, l2, v2) ==> text_digest(src_key(n1, l1, v1))
            == text_digest(src_key(n2, l2, v2)) && (n1 != n2 ==> src_key(n1, l1, v1) != src_key(
            n2,
            l2,
            v2,
        )),
{
    let k1 = src_key(n1, l1, v1);
    let k2 = src_key(n2, l2, v2);
    vstd::utf8::encode_utf8_decode_utf8(k1);
    vstd::utf8::encode_utf8_decode_utf8(k2);
    if text_digest(k1).len() == text_digest(k2).len() && src_dir(n1, l1, v1) == src_dir(
        n2,
        l2,
        v2,
    ) {
        lemma_dir_name_keeps_digest(n1, text_digest(k1), n2, text_digest(k2));
        if k1 == k2 {
            let u1 = n1.group + seq!['_'] + n1.name;
            let u2 = n2.group + seq!['_'] + n2.name;
            assert(u1.len() == n1.group.len() + 1 + n1.name.len());
            assert(u2.len() == n2.group.len() + 1 + n2.name.len());
            assert(name_text(n1).len() == name_text(n2).len());
            assert(name_text(n1) =~= k1.take(name_text(n1).len() as int));
            assert(name_text(n2) =~= k2.take(name_text(n2).len() as int));
            lemma_name_of_two_texts(n1, n2);
        }
    }
}

} // verus!
