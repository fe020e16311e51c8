//! Plain digests of byte strings.

use vstd::prelude::*;

verus! {

/// The SHA3-512 digest of a byte string: 64 bytes.
pub uninterp spec fn sha3_512_digest(input: Seq<u8>) -> Seq<u8>;

/// The SHA-256 digest of a byte string: 32 bytes.
pub uninterp spec fn sha2_256_digest(input: Seq<u8>) -> Seq<u8>;

/// The first 64 bytes of the BLAKE3 extended output of a byte string.
pub uninterp spec fn blake3_64_digest(input: Seq<u8>) -> Seq<u8>;

/// Calls `sha3::Sha3_512::digest` (the `Digest` trait's one-shot form).
/// Claimed: the 64 bytes are the SHA3-512 digest of the input.
#[verifier::external_body]
fn sha3_512_bytes(x: &[u8]) -> (res: [u8; 64])
    ensures
        res@ == sha3_512_digest(x@),
{
    <sha3::Sha3_512 as sha3::Digest>::digest(x).into()
}

/// Calls `sha2::Sha256::digest` (the `Digest` trait's one-shot form).
/// Claimed: the 32 bytes are the SHA-256 digest of the input.
#[verifier::external_body]
fn sha2_256_bytes(x: &[u8]) -> (res: [u8; 32])
    ensures
        res@ == sha2_256_digest(x@),
{
    <sha2::Sha256 as sha2::Digest>::digest(x).into()
}

/// Calls `blake3::Hasher::new`, `update`, `finalize_xof` and
/// `OutputReader::fill` on a 64-byte buffer.
/// Claimed: the buffer then holds the first 64 bytes of the BLAKE3 extended
/// output of the input.
#[verifier::external_body]
fn blake3_64_bytes(x: &[u8]) -> (res: [u8; 64])
    ensures
        res@ == blake3_64_digest(x@),
{
    let mut hasher = blake3::Hasher::new();
    hasher.update(x);
    let mut output = [0u8; 64];
    hasher.finalize_xof().fill(&mut output);
    output
}

/// SHA3-512 of `x`.
pub fn sha3_512(x: &[u8]) -> (res: [u8; 64])
    ensures
        res@ == sha3_512_digest(x@),
{
    sha3_512_bytes(x)
}

/// SHA-256 of `x`.
pub fn sha2_256(x: &[u8]) -> (res: [u8; 32])
    ensures
        res@ == sha2_256_digest(x@),
{
    sha2_256_bytes(x)
}

/// BLAKE3 of `x`, read out to 64 bytes.
pub fn blake3_64(x: &[u8]) -> (res: [u8; 64])
    ensures
        res@ == blake3_64_digest(x@),
{
    blake3_64_bytes(x)
}

} // verus!
