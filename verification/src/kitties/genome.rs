//! Genomes: how the 16 bytes of a new asset are drawn and how two parents
//! are blended.

use super::config::AccountId;
use vstd::bytes::spec_u32_to_le_bytes;
use vstd::bytes::spec_u64_to_le_bytes;
use vstd::prelude::*;

verus! {

/// Number of bytes in a genome.
pub const DNA_LEN: usize = 16;

/// An asset: its genome, fixed at creation.
#[derive(Clone, Copy, Debug, PartialEq, Eq)]
pub struct Kitty(pub [u8; 16]);

/// Blend of two bytes under a selector: each bit is taken from `a` where the
/// selector bit is set and from `b` where it is clear.
pub open spec fn mix_byte(selector: u8, a: u8, b: u8) -> u8 {
    (selector & a) | (!selector & b)
}

/// Bit `k` of a byte.
pub open spec fn bit(byte: u8, k: u8) -> bool {
    (byte >> k) & 1 == 1
}

/// Every bit of a blended byte is the bit of `a` at that place where the
/// selector has a one there, and the bit of `b` where it has a zero.
pub proof fn mix_byte_selects_bits(selector: u8, a: u8, b: u8, k: u8)
    requires
        k < 8,
    ensures
        bit(mix_byte(selector, a, b), k) == if bit(selector, k) {
            bit(a, k)
        } else {
            bit(b, k)
        },
{
    assert(((((selector & a) | (!selector & b)) >> k) & 1 == 1) == (if (selector >> k) & 1 == 1 {
        (a >> k) & 1 == 1
    } else {
        (b >> k) & 1 == 1
    })) by (bit_vector)
        requires
            k < 8,
    ;
}

/// A selector of ones copies the first parent, one of zeros the second.
pub proof fn mix_byte_extremes(a: u8, b: u8)
    ensures
        mix_byte(0xff, a, b) == a,
        mix_byte(0x00, a, b) == b,
{
    assert((0xffu8 & a) | (!0xffu8 & b) == a) by (bit_vector);
    assert((0x00u8 & a) | (!0x00u8 & b) == b) by (bit_vector);
}

/// Blend of two genomes under a selector, byte by byte.
pub open spec fn mix_dna(selector: Seq<u8>, dna_1: Seq<u8>, dna_2: Seq<u8>) -> Seq<u8> {
    Seq::new(DNA_LEN as nat, |i: int| mix_byte(selector[i], dna_1[i], dna_2[i]))
}

/// Blends the genomes of two parents: the child takes each bit from the
/// first parent where `selector` has a one and from the second where it has
/// a zero.
pub fn mix_genome(selector: &[u8; 16], dna_1: &[u8; 16], dna_2: &[u8; 16]) -> (child: [u8; 16])
    ensures
        child@ == mix_dna(selector@, dna_1@, dna_2@),
{
    let mut child = [0u8; 16];
    let mut i: usize = 0;
    while i < 16
        invariant
            i <= 16,
            forall|j: int| 0 <= j < i ==> child@[j] == mix_byte(selector@[j], dna_1@[j], dna_2@[j]),
        decreases 16 - i,
    {
        child[i] = (selector[i] & dna_1[i]) | (!selector[i] & dna_2[i]);
        i += 1;
    }
    assert(child@ =~= mix_dna(selector@, dna_1@, dna_2@));
    child
}

/// The 128-bit Blake2 digest of a byte string, as sixteen bytes.
pub uninterp spec fn blake2_128_digest(data: Seq<u8>) -> Seq<u8>;

/// Calls `sp_io::hashing::blake2_128`. The digest is a function of the bytes
/// hashed and of nothing else; which function, this library does not state.
#[verifier::external_body]
fn blake2_128(data: &Vec<u8>) -> (digest: [u8; 16])
    ensures
        digest@ == blake2_128_digest(data@),
{
    sp_io::hashing::blake2_128(data.as_slice())
}

/// SCALE encoding of the position of an extrinsic in its block: one zero
/// byte where there is none, else a one and the four bytes of the index,
/// least significant first.
pub open spec fn scale_index(index: Option<u32>) -> Seq<u8> {
    match index {
        None => seq![0u8],
        Some(i) => seq![1u8] + spec_u32_to_le_bytes(i),
    }
}

/// SCALE encoding of the pair of a sender and an extrinsic index: the eight
/// bytes of the account, least significant first, then the index.
pub open spec fn scale_subject(sender: AccountId, index: Option<u32>) -> Seq<u8> {
    spec_u64_to_le_bytes(sender) + scale_index(index)
}

/// Calls `parity_scale_codec::Encode::encode` on the tuple `(sender, index)`.
/// A tuple is encoded as its fields one after the other, a `u64` and a `u32`
/// as their little-endian bytes, an `Option` with one leading byte.
#[verifier::external_body]
fn encode_subject(sender: AccountId, index: Option<u32>) -> (bytes: Vec<u8>)
    ensures
        bytes@ == scale_subject(sender, index),
{
    parity_scale_codec::Encode::encode(&(sender, index))
}

/// The bytes that are hashed into a fresh genome: the seed of the block,
/// followed by the encoded sender and extrinsic index.
pub open spec fn random_payload(seed: Seq<u8>, sender: AccountId, index: Option<u32>) -> Seq<u8> {
    seed + scale_subject(sender, index)
}

/// The genome drawn for `sender` under a seed and an extrinsic index.
pub open spec fn random_dna(seed: Seq<u8>, sender: AccountId, index: Option<u32>) -> Seq<u8> {
    blake2_128_digest(random_payload(seed, sender, index))
}

/// Assembles the bytes to hash for a fresh genome.
pub fn random_subject(seed: &Vec<u8>, sender: AccountId, index: Option<u32>) -> (payload: Vec<u8>)
    ensures
        payload@ == random_payload(seed@, sender, index),
{
    let encoded = encode_subject(sender, index);
    let mut payload: Vec<u8> = Vec::new();
    let mut i: usize = 0;
    while i < seed.len()
        invariant
            i <= seed.len(),
            payload@ == seed@.subrange(0, i as int),
        decreases seed.len() - i,
    {
        payload.push(seed[i]);
        i += 1;
        assert(payload@ =~= seed@.subrange(0, i as int));
    }
    assert(seed@.subrange(0, seed.len() as int) =~= seed@);
    let mut j: usize = 0;
    while j < encoded.len()
        invariant
            j <= encoded.len(),
            payload@ == seed@ + encoded@.subrange(0, j as int),
        decreases encoded.len() - j,
    {
        payload.push(encoded[j]);
        j += 1;
        assert(payload@ =~= seed@ + encoded@.subrange(0, j as int));
    }
    assert(encoded@.subrange(0, encoded.len() as int) =~= encoded@);
    payload
}

/// Draws a genome: the Blake2 128-bit digest of the block's seed, the
/// sender and the extrinsic index. The same three inputs give the same
/// genome.
pub fn random_value(seed: &Vec<u8>, sender: AccountId, index: Option<u32>) -> (dna: [u8; 16])
    ensures
        dna@ == random_dna(seed@, sender, index),
{
    let payload = random_subject(seed, sender, index);
    blake2_128(&payload)
}

} // verus!
