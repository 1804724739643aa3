//! The hash primitive behind group assignment and seed generation: a
//! Keccak-256 digest over an identity's canonical bytes followed by the
//! little-endian bytes of a 64-bit value. Group assignment reads the first
//! eight digest bytes big-endian; seed generation reads them little-endian.

use vstd::prelude::*;
use sha3::Digest;
use crate::codec::{be_bytes_value, le_bytes_value, le_bytes_of, push_u64_le, u64_from_be_prefix,
    u64_from_le_prefix};
use crate::ids::Identity;

verus! {

/// The Keccak-256 digest of `input`, named but not axiomatised: the digest is
/// a fixed public function of the input bytes alone.
pub uninterp spec fn keccak256_of(input: Seq<u8>) -> Seq<u8>;

/// Relies on `sha3::Keccak256` through the RustCrypto `Digest` interface:
/// the digest depends on the input bytes alone and is 32 bytes long.
#[verifier::external_body]
pub(crate) fn keccak256(input: &Vec<u8>) -> (digest: Vec<u8>)
    ensures
        digest@ == keccak256_of(input@),
        digest@.len() == 32,
{
    let mut hasher = sha3::Keccak256::new();
    hasher.update(input.as_slice());
    hasher.finalize().to_vec()
}

/// The bytes that are hashed: the identity's 32 bytes, then the eight
/// little-endian bytes of `value`.
pub open spec fn hash_input(identity: Seq<u8>, value: u64) -> Seq<u8> {
    identity + le_bytes_of(value as int, 8)
}

/// The raw 64-bit group value of an identity under a seed: the first eight
/// bytes of the digest, read big-endian.
pub open spec fn spec_group_value(identity: Seq<u8>, seed: u64) -> int {
    be_bytes_value(keccak256_of(hash_input(identity, seed)).take(8))
}

/// The seed derived from an identity and a monotonic counter: the first eight
/// bytes of the digest, read little-endian.
pub open spec fn spec_seed_value(identity: Seq<u8>, counter: u64) -> int {
    le_bytes_value(keccak256_of(hash_input(identity, counter)).take(8))
}

/// Builds the digest of `hash_input(id@, value)`.
fn hash_identity_with_u64(id: &Identity, value: u64) -> (digest: Vec<u8>)
    ensures
        digest@ == keccak256_of(hash_input(id@, value)),
        digest@.len() == 32,
{
    let mut input: Vec<u8> = Vec::new();
    let mut i: usize = 0;
    while i < 32
        invariant
            i <= 32,
            input@ == id@.take(i as int),
        decreases 32 - i,
    {
        proof {
            assert(id@.take(i as int).push(id@[i as int]) =~= id@.take(i + 1));
        }
        input.push(id.bytes[i]);
        i = i + 1;
    }
    proof {
        assert(id@.take(32) =~= id@);
    }
    push_u64_le(&mut input, value);
    keccak256(&input)
}

/// Computes the raw (unreduced) group value of `address` under `seed`:
/// Keccak-256 over the address bytes and the seed's little-endian bytes,
/// first eight digest bytes big-endian.
pub fn calculate_group_id(address: &Identity, seed: u64) -> (r: u64)
    ensures
        r == spec_group_value(address@, seed),
{
    let digest = hash_identity_with_u64(address, seed);
    u64_from_be_prefix(&digest)
}

/// Derives a fresh epoch seed from the checking-in validator's identity and a
/// monotonic counter (such as a slot height): Keccak-256 over the identity
/// bytes and the counter's little-endian bytes, first eight digest bytes
/// little-endian.
pub fn generate_seed(address: &Identity, counter: u64) -> (r: u64)
    ensures
        r == spec_seed_value(address@, counter),
{
    let digest = hash_identity_with_u64(address, counter);
    u64_from_le_prefix(&digest)
}

} // verus!
