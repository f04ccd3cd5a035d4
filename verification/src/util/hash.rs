//! Digests and their hexadecimal form.

use crate::util::text::{digit, digit_text, lemma_digit_injective};
use sha2::Digest;
use vstd::prelude::*;

verus! {

/// The SHA-256 digest of `data`, as the `sha2` crate computes it.
pub uninterp spec fn sha256_digest(data: Seq<u8>) -> Seq<u8>;

/// Calls `sha2::Sha256::digest`, the one-shot form of the hasher.
///
/// Believed, not proved: the result is a function of the bytes alone, and it
/// is 32 bytes long (the hasher's output size is fixed at 32).
#[verifier::external_body]
pub(crate) fn sha256(data: &[u8]) -> (digest: Vec<u8>)
    ensures
        digest@ == sha256_digest(data@),
        digest@.len() == 32,
{
    sha2::Sha256::digest(data).to_vec()
}

/// The hexadecimal form of `bytes`: two lower-case digits for each byte, the
/// high half first.
pub open spec fn hex(bytes: Seq<u8>) -> Seq<char> {
    Seq::new(
        2 * bytes.len(),
        |i: int|
            if i % 2 == 0 {
                digit(bytes[i / 2] as int / 16)
            } else {
                digit(bytes[i / 2] as int % 16)
            },
    )
}

/// Two byte sequences with the same hexadecimal form are the same.
pub proof fn lemma_hex_injective(a: Seq<u8>, b: Seq<u8>)
    requires
        hex(a) == hex(b),
    ensures
        a == b,
{
    assert(hex(a).len() == 2 * a.len());
    assert(hex(b).len() == 2 * b.len());
    assert forall|k: int| 0 <= k < a.len() implies a[k] == b[k] by {
        let hi_a = a[k] as int / 16;
        let lo_a = a[k] as int % 16;
        let hi_b = b[k] as int / 16;
        let lo_b = b[k] as int % 16;
        assert(hex(a)[2 * k] == digit(hi_a));
        assert(hex(b)[2 * k] == digit(hi_b));
        assert(hex(a)[2 * k + 1] == digit(lo_a));
        assert(hex(b)[2 * k + 1] == digit(lo_b));
        lemma_digit_injective(hi_a, hi_b);
        lemma_digit_injective(lo_a, lo_b);
    }
    assert(a =~= b);
}

/// Writes a digest in hexadecimal.
pub fn hexify_hash(hash: &[u8]) -> (r: String)
    ensures
        r@ == hex(hash@),
{
    let mut out = String::new();
    let mut i: usize = 0;
    while i < hash.len()
        invariant
            i <= hash.len(),
            out@ == hex(hash@.take(i as int)),
        decreases hash.len() - i,
    {
        let byte = hash[i];
        out.append(digit_text(byte / 16));
        out.append(digit_text(byte % 16));
        proof {
            let shorter = hash@.take(i as int);
            let longer = hash@.take(i as int + 1);
            assert(longer =~= shorter.push(byte));
            assert(out@ =~= hex(longer));
        }
        i = i + 1;
    }
    assert(hash@.take(i as int) =~= hash@);
    out
}

} // verus!
