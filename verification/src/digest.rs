//! Content identification: the SHA-256 digest of a file, in lowercase hexadecimal.

use vstd::prelude::*;

verus! {

/// Number of bytes in a SHA-256 digest.
pub const DIGEST_BYTES: usize = 32;

/// Number of characters in a content hash.
pub const HASH_CHARS: usize = 64;

/// The SHA-256 digest of `data`, as the `sha2` crate computes it.
pub uninterp spec fn sha256(data: Seq<u8>) -> Seq<u8>;

/// The lowercase hexadecimal digit of `n`, for `0 <= n < 16`.
pub open spec fn hex_digit(n: int) -> char {
    if n < 10 {
        (48 + n) as u8 as char
    } else {
        (87 + n) as u8 as char
    }
}

/// `c` is one of `0` to `9` or `a` to `f`.
pub open spec fn is_lower_hex(c: char) -> bool {
    48 <= c as u32 <= 57 || 97 <= c as u32 <= 102
}

/// Two lowercase hexadecimal digits for each byte, the high half first.
pub open spec fn hex_lower(bytes: Seq<u8>) -> Seq<char> {
    Seq::new(
        2 * bytes.len(),
        |i: int|
            if i % 2 == 0 {
                hex_digit(bytes[i / 2] as int / 16)
            } else {
                hex_digit(bytes[i / 2] as int % 16)
            },
    )
}

/// The content hash of a file that holds `data`.
pub open spec fn content_hash_of(data: Seq<u8>) -> Seq<char> {
    hex_lower(sha256(data))
}

/// `s` has the shape of a content hash: 64 lowercase hexadecimal digits.
pub open spec fn is_content_hash(s: Seq<char>) -> bool {
    &&& s.len() == HASH_CHARS
    &&& forall|i: int| 0 <= i < s.len() ==> is_lower_hex(#[trigger] s[i])
}

/// Calls `sha2::Sha256::digest` (the `Digest` trait's one-shot function) and
/// copies the output array into a vector. Claimed: the result is the SHA-256
/// digest of `data`, a function of the bytes alone, and has 32 bytes.
#[verifier::external_body]
fn sha256_bytes(data: &[u8]) -> (digest: Vec<u8>)
    ensures
        digest@ == sha256(data@),
        digest@.len() == DIGEST_BYTES,
{
    <sha2::Sha256 as sha2::Digest>::digest(data).to_vec()
}

/// Calls `hex::encode`. Claimed: the result holds two characters for each
/// byte, the digit of the high four bits and then that of the low four bits,
/// taken from `0123456789abcdef`.
#[verifier::external_body]
fn hex_encode(bytes: &[u8]) -> (text: String)
    ensures
        text@ == hex_lower(bytes@),
{
    hex::encode(bytes)
}

/// Hexadecimal text has twice the length of its bytes and holds lowercase
/// hexadecimal digits only.
pub proof fn lemma_hex_lower_shape(bytes: Seq<u8>)
    ensures
        hex_lower(bytes).len() == 2 * bytes.len(),
        forall|i: int| 0 <= i < hex_lower(bytes).len() ==> is_lower_hex(#[trigger] hex_lower(bytes)[i]),
{
    assert forall|i: int| 0 <= i < hex_lower(bytes).len() implies is_lower_hex(
        #[trigger] hex_lower(bytes)[i],
    ) by {
        let b = bytes[i / 2] as int;
        assert(0 <= b / 16 < 16);
        assert(0 <= b % 16 < 16);
    }
}

/// Distinct byte strings have distinct hexadecimal texts.
pub proof fn lemma_hex_lower_injective(a: Seq<u8>, b: Seq<u8>)
    requires
        hex_lower(a) == hex_lower(b),
    ensures
        a == b,
{
    assert(hex_lower(a).len() == 2 * a.len());
    assert(hex_lower(b).len() == 2 * b.len());
    assert(a.len() == b.len());
    assert forall|k: int| 0 <= k < a.len() implies a[k] == b[k] by {
        let x = a[k] as int;
        let y = b[k] as int;
        assert(hex_lower(a)[2 * k] == hex_digit(x / 16));
        assert(hex_lower(b)[2 * k] == hex_digit(y / 16));
        assert(hex_lower(a)[2 * k + 1] == hex_digit(x % 16));
        assert(hex_lower(b)[2 * k + 1] == hex_digit(y % 16));
        assert(0 <= x / 16 < 16 && 0 <= y / 16 < 16);
        assert(0 <= x % 16 < 16 && 0 <= y % 16 < 16);
        assert(hex_digit(x / 16) as u32 == hex_digit(y / 16) as u32);
        assert(hex_digit(x % 16) as u32 == hex_digit(y % 16) as u32);
        assert(x / 16 == y / 16);
        assert(x % 16 == y % 16);
    }
    assert(a =~= b);
}

/// Identification is a function of the bytes: files that hold the same bytes
/// have the same content hash, and two content hashes are equal exactly when
/// the two digests are.
pub proof fn lemma_identification_is_stable(a: Seq<u8>, b: Seq<u8>)
    ensures
        a == b ==> content_hash_of(a) == content_hash_of(b),
        content_hash_of(a) == content_hash_of(b) <==> sha256(a) == sha256(b),
{
    if content_hash_of(a) == content_hash_of(b) {
        lemma_hex_lower_injective(sha256(a), sha256(b));
    }
}

/// Computes the content hash of a file from its bytes.
pub fn content_hash(data: &[u8]) -> (hash: String)
    ensures
        hash@ == content_hash_of(data@),
        is_content_hash(hash@),
{
    let digest = sha256_bytes(data);
    let hash = hex_encode(digest.as_slice());
    proof {
        lemma_hex_lower_shape(digest@);
    }
    hash
}

} // verus!
