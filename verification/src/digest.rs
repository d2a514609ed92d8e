//! One-way hashing of the secret: SHA-256 over the UTF-8 bytes of the text,
//! written as lower-case hexadecimal.

use sha2::{Digest, Sha256};
use vstd::prelude::*;
use vstd::string::*;

verus! {

/// The SHA-256 digest of a byte string, as `sha2::Sha256` computes it. The
/// algorithm is not written out here; the digest is known by this name only.
pub uninterp spec fn sha256_digest(data: Seq<u8>) -> Seq<u8>;

/// Calls `sha2::Sha256::digest` on `data` and copies the output into a vector.
/// Trusted: the result is the SHA-256 digest of exactly these bytes, and it is
/// 32 bytes long (the hasher's fixed output size).
#[verifier::external_body]
fn sha256(data: &[u8]) -> (digest: Vec<u8>)
    ensures
        digest@ == sha256_digest(data@),
        digest@.len() == 32,
{
    Sha256::digest(data).to_vec()
}

/// The sixteen lower-case hexadecimal digits, in order of value.
pub open spec fn hex_alphabet() -> Seq<char> {
    "0123456789abcdef"@
}

/// The two digits that stand for one byte, high nibble first.
pub open spec fn hex_pair(b: u8) -> Seq<char> {
    seq![hex_alphabet()[(b / 16) as int], hex_alphabet()[(b % 16) as int]]
}

/// Lower-case hexadecimal text of a byte string, two digits per byte.
pub open spec fn hex_lower(bytes: Seq<u8>) -> Seq<char>
    decreases bytes.len(),
{
    if bytes.len() == 0 {
        Seq::empty()
    } else {
        hex_lower(bytes.drop_last()) + hex_pair(bytes.last())
    }
}

/// Whether a character is a lower-case hexadecimal digit.
pub open spec fn is_hex_char(c: char) -> bool {
    exists|k: int| 0 <= k < 16 && hex_alphabet()[k] == c
}

/// Whether a text has the shape of a stored digest: 64 hexadecimal digits.
pub open spec fn is_digest_text(s: Seq<char>) -> bool {
    &&& s.len() == 64
    &&& forall|i: int| 0 <= i < s.len() ==> is_hex_char(#[trigger] s[i])
}

/// What is kept at rest for a plaintext secret.
pub open spec fn hashed(plain: Seq<char>) -> Seq<char> {
    hex_lower(sha256_digest(vstd::utf8::encode_utf8(plain)))
}

/// Hexadecimal text has two digits per byte, each from the alphabet.
pub proof fn lemma_hex_lower_shape(bytes: Seq<u8>)
    ensures
        hex_lower(bytes).len() == 2 * bytes.len(),
        forall|i: int| 0 <= i < hex_lower(bytes).len() ==> is_hex_char(#[trigger] hex_lower(bytes)[i]),
    decreases bytes.len(),
{
    reveal_strlit("0123456789abcdef");
    if bytes.len() > 0 {
        let init = bytes.drop_last();
        let b = bytes.last();
        lemma_hex_lower_shape(init);
        let hi = (b / 16) as int;
        let lo = (b % 16) as int;
        assert(0 <= hi < 16 && 0 <= lo < 16);
        assert(hex_alphabet()[hi] == hex_pair(b)[0]);
        assert(hex_alphabet()[lo] == hex_pair(b)[1]);
        assert(is_hex_char(hex_pair(b)[0]));
        assert(is_hex_char(hex_pair(b)[1]));
        assert forall|i: int| 0 <= i < hex_lower(bytes).len() implies is_hex_char(
            #[trigger] hex_lower(bytes)[i],
        ) by {
            if i < hex_lower(init).len() {
                assert(hex_lower(bytes)[i] == hex_lower(init)[i]);
            } else {
                assert(hex_lower(bytes)[i] == hex_pair(b)[i - hex_lower(init).len()]);
            }
        }
    }
}

/// Writes a byte string as lower-case hexadecimal.
pub fn hex_encode(bytes: &[u8]) -> (out: String)
    ensures
        out@ == hex_lower(bytes@),
{
    let digits = "0123456789abcdef";
    proof {
        reveal_strlit("0123456789abcdef");
    }
    let mut out = String::new();
    let mut i: usize = 0;
    while i < bytes.len()
        invariant
            i <= bytes.len(),
            out@ == hex_lower(bytes@.take(i as int)),
            digits@ == hex_alphabet(),
            digits@.len() == 16,
            digits.is_ascii(),
        decreases bytes.len() - i,
    {
        let b: u8 = bytes[i];
        let hi: usize = (b / 16) as usize;
        let lo: usize = (b % 16) as usize;
        out.append(digits.substring_ascii(hi, hi + 1));
        out.append(digits.substring_ascii(lo, lo + 1));
        proof {
            let next = bytes@.take(i + 1);
            assert(next.drop_last() =~= bytes@.take(i as int));
            assert(next.last() == b);
            assert(digits@.subrange(hi as int, hi + 1) =~= seq![digits@[hi as int]]);
            assert(digits@.subrange(lo as int, lo + 1) =~= seq![digits@[lo as int]]);
            assert(hex_pair(b) =~= seq![digits@[hi as int]] + seq![digits@[lo as int]]);
            assert(out@ =~= hex_lower(next.drop_last()) + hex_pair(b));
        }
        i += 1;
    }
    proof {
        assert(bytes@.take(bytes.len() as int) =~= bytes@);
    }
    out
}

/// Hashes a plaintext secret for storage.
pub fn hash_secret(plain: &str) -> (out: String)
    ensures
        out@ == hashed(plain@),
        is_digest_text(out@),
{
    let digest = sha256(plain.as_bytes());
    let out = hex_encode(digest.as_slice());
    proof {
        lemma_hex_lower_shape(digest@);
    }
    out
}

} // verus!
