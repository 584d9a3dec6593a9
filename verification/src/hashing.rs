//! Digests, and the byte strings they are taken of.

use vstd::prelude::*;
use vstd::slice::slice_to_vec;
use vstd::string::StringSliceAdditionalSpecFns;

verus! {

/// The SHA-256 digest of the byte strings of `parts`, taken one after the other.
pub uninterp spec fn sha256_of(parts: Seq<Seq<u8>>) -> Seq<u8>;

/// The Keccak-256 digest of the byte strings of `parts`, taken one after the other.
pub uninterp spec fn keccak256_of(parts: Seq<Seq<u8>>) -> Seq<u8>;

/// Calls `anchor_lang::solana_program::hash::hashv` on the byte strings of `parts`.
/// Trusted: the digest depends on the byte strings alone. It has thirty-two bytes.
#[verifier::external_body]
pub(crate) fn sha256v(parts: &Vec<Vec<u8>>) -> (digest: [u8; 32])
    ensures
        digest@ == sha256_of(parts.deep_view()),
{
    let slices: Vec<&[u8]> = parts.iter().map(|p| p.as_slice()).collect();
    anchor_lang::solana_program::hash::hashv(&slices).to_bytes()
}

/// Calls `anchor_lang::solana_program::keccak::hashv` on the byte strings of `parts`.
/// Trusted: the digest depends on the byte strings alone. It has thirty-two bytes.
#[verifier::external_body]
pub(crate) fn keccak256v(parts: &Vec<Vec<u8>>) -> (digest: [u8; 32])
    ensures
        digest@ == keccak256_of(parts.deep_view()),
{
    let slices: Vec<&[u8]> = parts.iter().map(|p| p.as_slice()).collect();
    anchor_lang::solana_program::keccak::hashv(&slices).to_bytes()
}

/// The bytes of a UTF-8 string as an owned vector.
pub fn str_bytes(s: &str) -> (bytes: Vec<u8>)
    ensures
        bytes@ == s.spec_bytes(),
{
    slice_to_vec(s.as_bytes())
}

/// The bytes of a key as an owned vector.
pub fn key_bytes(key: &[u8; 32]) -> (bytes: Vec<u8>)
    ensures
        bytes@ == key@,
{
    slice_to_vec(key.as_slice())
}

/// The first sixteen bytes of a digest.
pub fn first_half(digest: &[u8; 32]) -> (half: [u8; 16])
    ensures
        half@ == digest@.subrange(0, 16),
{
    let mut half: [u8; 16] = [0u8; 16];
    let mut i: usize = 0;
    while i < 16
        invariant
            i <= 16,
            forall|j: int| 0 <= j < i ==> half[j] == digest[j],
        decreases 16 - i,
    {
        half[i] = digest[i];
        i += 1;
    }
    assert(half@ =~= digest@.subrange(0, 16));
    half
}

} // verus!
