//! Pseudo-random DNA.
//!
//! The bytes are a 128-bit BLAKE2b digest of what the host offers as entropy
//! for the current block, of who is calling, and of the position of the call
//! in the block. Every replica that sees the same three values computes the
//! same bytes.

use vstd::prelude::*;
use crate::kitties::state::AccountId;
use crate::kitties::storage::Pallet;

verus! {

/// The 128-bit BLAKE2b digest of `data`: sixteen bytes.
pub uninterp spec fn blake2_128_digest(data: Seq<u8>) -> Seq<u8>;

/// Calls `sp_io::hashing::blake2_128`, which hashes `data` with unkeyed
/// BLAKE2b at an output length of sixteen bytes. The digest depends on the
/// bytes of `data` and on nothing else; the contract gives it a name and says
/// no more about it.
#[verifier::external_body]
fn blake2_128(data: &[u8]) -> (digest: [u8; 16])
    ensures
        digest@ == blake2_128_digest(data@),
{
    sp_io::hashing::blake2_128(data)
}

/// The four bytes of `x`, least significant first.
pub open spec fn u32_le_bytes(x: u32) -> Seq<u8> {
    seq![
        (x % 0x100) as u8,
        (x / 0x100 % 0x100) as u8,
        (x / 0x1_0000 % 0x100) as u8,
        (x / 0x100_0000 % 0x100) as u8,
    ]
}

/// The eight bytes of `x`, least significant first.
pub open spec fn u64_le_bytes(x: u64) -> Seq<u8> {
    u32_le_bytes((x % 0x1_0000_0000) as u32) + u32_le_bytes((x / 0x1_0000_0000) as u32)
}

/// The position of a call in its block as bytes: a zero byte where the host
/// knows of none, else a one byte and the four bytes of the position.
pub open spec fn extrinsic_index_bytes(extrinsic_index: Option<u32>) -> Seq<u8> {
    match extrinsic_index {
        Some(index) => seq![1u8] + u32_le_bytes(index),
        None => seq![0u8],
    }
}

/// The bytes that are hashed: the seed as it is, then the caller, then the
/// position of the call.
pub open spec fn payload(seed: Seq<u8>, sender: AccountId, extrinsic_index: Option<u32>) -> Seq<
    u8,
> {
    seed + u64_le_bytes(sender) + extrinsic_index_bytes(extrinsic_index)
}

/// The DNA that `random_value` derives from the three values.
pub open spec fn random_dna(seed: Seq<u8>, sender: AccountId, extrinsic_index: Option<u32>) -> Seq<
    u8,
> {
    blake2_128_digest(payload(seed, sender, extrinsic_index))
}

/// Appends the four bytes of `x` to `out`, least significant first.
fn push_u32_le(out: &mut Vec<u8>, x: u32)
    ensures
        final(out)@ == old(out)@ + u32_le_bytes(x),
{
    out.push((x % 0x100) as u8);
    out.push((x / 0x100 % 0x100) as u8);
    out.push((x / 0x1_0000 % 0x100) as u8);
    out.push((x / 0x100_0000 % 0x100) as u8);
    assert(out@ =~= old(out)@ + u32_le_bytes(x));
}

/// Lays out the bytes to hash.
pub fn encode_payload(seed: &[u8], sender: AccountId, extrinsic_index: Option<u32>) -> (bytes: Vec<
    u8,
>)
    ensures
        bytes@ == payload(seed@, sender, extrinsic_index),
{
    let mut bytes: Vec<u8> = Vec::new();
    bytes.extend_from_slice(seed);
    push_u32_le(&mut bytes, (sender % 0x1_0000_0000) as u32);
    push_u32_le(&mut bytes, (sender / 0x1_0000_0000) as u32);
    match extrinsic_index {
        Some(index) => {
            bytes.push(1u8);
            push_u32_le(&mut bytes, index);
        },
        None => {
            bytes.push(0u8);
        },
    }
    assert(bytes@ =~= payload(seed@, sender, extrinsic_index));
    bytes
}

impl Pallet {
    /// Sixteen pseudo-random bytes for a call by `sender`: the digest of the
    /// block's `seed`, the caller and the position of the call in the block.
    pub fn random_value(seed: &[u8], sender: AccountId, extrinsic_index: Option<u32>) -> (dna: [u8; 16])
        ensures
            dna@ == random_dna(seed@, sender, extrinsic_index),
    {
        let bytes = encode_payload(seed, sender, extrinsic_index);
        blake2_128(bytes.as_slice())
    }
}

} // verus!
