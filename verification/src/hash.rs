//! Selection of the 32-bit hashed name from a digest.

use crate::digest::{blake2b, blake2b_digest};
use vstd::prelude::*;
use vstd::utf8::encode_utf8;

verus! {

/// Number of bytes in the digest that a name is hashed to.
pub const DIGEST_LEN: usize = 32;

/// The four bytes of `bytes` starting at `at`, read as a little-endian
/// number: the first byte is the least significant.
pub open spec fn le_word(bytes: Seq<u8>, at: int) -> int {
    bytes[at] + 0x100 * bytes[at + 1] + 0x1_0000 * bytes[at + 2] + 0x100_0000 * bytes[at + 3]
}

/// Whether the four bytes of `bytes` starting at `at` are all zero.
pub open spec fn word_is_zero(bytes: Seq<u8>, at: int) -> bool {
    bytes[at] == 0 && bytes[at + 1] == 0 && bytes[at + 2] == 0 && bytes[at + 3] == 0
}

/// The hashed name that a digest stands for: its first four bytes, or, where
/// those are all zero, its next four, read little-endian. There is no second
/// fallback: bytes 4 to 7 are taken as they are.
pub open spec fn digest_hname(digest: Seq<u8>) -> int {
    if word_is_zero(digest, 0) {
        le_word(digest, 4)
    } else {
        le_word(digest, 0)
    }
}

/// The hashed name of `name`: `digest_hname` of the BLAKE2b-256 digest of its
/// UTF-8 encoding.
pub open spec fn name_hash(name: Seq<char>) -> int {
    digest_hname(blake2b(encode_utf8(name), DIGEST_LEN))
}

/// Reads four bytes at `at` as a little-endian `u32`, whatever the host's
/// byte order.
fn read_le_u32(bytes: &[u8], at: usize) -> (word: u32)
    requires
        at + 4 <= bytes@.len(),
    ensures
        word == le_word(bytes@, at as int),
{
    let b0: u32 = bytes[at] as u32;
    let b1: u32 = bytes[at + 1] as u32;
    let b2: u32 = bytes[at + 2] as u32;
    let b3: u32 = bytes[at + 3] as u32;
    b0 + 0x100 * b1 + 0x1_0000 * b2 + 0x100_0000 * b3
}

/// Picks the hashed name out of a digest: its first four bytes read
/// little-endian, or bytes 4 to 7 where the first four are all zero. The
/// result is zero only for a digest whose first eight bytes are zero.
pub fn hname_from_digest(digest: &[u8]) -> (hname: u32)
    requires
        digest@.len() == DIGEST_LEN,
    ensures
        hname == digest_hname(digest@),
        hname == 0 <==> word_is_zero(digest@, 0) && word_is_zero(digest@, 4),
{
    proof {
        lemma_zero_avoidance(digest@);
    }
    let leading_zero = digest[0] == 0 && digest[1] == 0 && digest[2] == 0 && digest[3] == 0;
    if leading_zero {
        read_le_u32(digest, 4)
    } else {
        read_le_u32(digest, 0)
    }
}

/// Hashes a name to its 32-bit identifier: the BLAKE2b-256 digest of the
/// name's UTF-8 bytes, narrowed by `hname_from_digest`. Every name has one,
/// the empty name too.
pub fn calculate_blake2b_hash(data_string: &str) -> (hname: u32)
    ensures
        hname == name_hash(data_string@),
{
    let data = data_string.as_bytes();
    let digest = blake2b_digest(data, DIGEST_LEN);
    hname_from_digest(digest.as_slice())
}

/// Hashes the text handed in by a caller; the same value as
/// `calculate_blake2b_hash`.
pub fn calculate_hash_from_input(input: &str) -> (hname: u32)
    ensures
        hname == name_hash(input@),
{
    calculate_blake2b_hash(input)
}

/// A hashed name fits in 32 bits.
pub proof fn lemma_hname_fits_u32(digest: Seq<u8>)
    requires
        digest.len() == DIGEST_LEN,
    ensures
        0 <= digest_hname(digest) <= u32::MAX,
{
}

/// Little-endian reading: the first byte of a word is its least significant
/// one, and each following byte is worth 256 times the one before.
pub proof fn lemma_le_word_bytes(bytes: Seq<u8>, at: int)
    requires
        0 <= at,
        at + 4 <= bytes.len(),
    ensures
        le_word(bytes, at) % 0x100 == bytes[at],
        (le_word(bytes, at) / 0x100) % 0x100 == bytes[at + 1],
        (le_word(bytes, at) / 0x1_0000) % 0x100 == bytes[at + 2],
        le_word(bytes, at) / 0x100_0000 == bytes[at + 3],
{
}

/// A word is zero exactly when its four bytes are.
pub proof fn lemma_le_word_zero(bytes: Seq<u8>, at: int)
    requires
        0 <= at,
        at + 4 <= bytes.len(),
    ensures
        le_word(bytes, at) == 0 <==> word_is_zero(bytes, at),
{
}

/// Zero avoidance: where the first four bytes of a digest are all zero the
/// hashed name is read from bytes 4 to 7, and it is zero only where those are
/// all zero too. So a digest gives the hashed name zero exactly when its first
/// eight bytes are zero.
pub proof fn lemma_zero_avoidance(digest: Seq<u8>)
    requires
        digest.len() == DIGEST_LEN,
    ensures
        word_is_zero(digest, 0) ==> digest_hname(digest) == le_word(digest, 4),
        !word_is_zero(digest, 0) ==> digest_hname(digest) == le_word(digest, 0),
        digest_hname(digest) == 0 <==> word_is_zero(digest, 0) && word_is_zero(digest, 4),
{
    lemma_le_word_zero(digest, 0);
    lemma_le_word_zero(digest, 4);
}

/// Determinism: the hashed name depends on the characters of the name and on
/// nothing else, so two names that agree character by character have the same
/// hashed name.
pub proof fn lemma_name_hash_deterministic(a: Seq<char>, b: Seq<char>)
    requires
        a.len() == b.len(),
        forall|i: int| 0 <= i < a.len() ==> a[i] == b[i],
    ensures
        name_hash(a) == name_hash(b),
{
    assert(a =~= b);
}

} // verus!
