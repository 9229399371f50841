//! SHA-256 digests, computed by the Soroban host, and the ids that are
//! derived with them.

use vstd::prelude::*;
use crate::principal::{Principal, PrincipalKind};

verus! {

/// The SHA-256 digest of a byte string.
pub uninterp spec fn sha256_digest(data: Seq<u8>) -> Seq<u8>;

/// Largest input handed to the host for hashing in one call.
pub const MAX_HASH_INPUT: usize = 4096;

/// Hashes `data` with `soroban_sdk::crypto::Crypto::sha256`, on a host
/// environment of its own (`Env::default()`), and copies the digest out.
///
/// Trusted: the result is the SHA-256 digest of `data`, a function of the
/// bytes alone. The host charges each call to a budget and aborts when it is
/// used up, so a fresh environment is taken for every call and the input is
/// kept far below what such an environment can pay for.
#[verifier::external_body]
pub(crate) fn sha256(data: &Vec<u8>) -> (digest: [u8; 32])
    requires
        data@.len() <= MAX_HASH_INPUT,
    ensures
        digest@ == sha256_digest(data@),
{
    let env = soroban_sdk::Env::default();
    let bytes = soroban_sdk::Bytes::from_slice(&env, data.as_slice());
    env.crypto().sha256(&bytes).to_array()
}

/// The byte that tells an account's key from a contract's hash.
pub open spec fn kind_tag(kind: PrincipalKind) -> u8 {
    match kind {
        PrincipalKind::Account => 0,
        PrincipalKind::Contract => 1,
    }
}

/// The eight bytes of `value`, most significant first.
pub open spec fn be_bytes(value: u64) -> Seq<u8> {
    seq![
        ((value / 0x100_0000_0000_0000) % 0x100) as u8,
        ((value / 0x1_0000_0000_0000) % 0x100) as u8,
        ((value / 0x100_0000_0000) % 0x100) as u8,
        ((value / 0x1_0000_0000) % 0x100) as u8,
        ((value / 0x100_0000) % 0x100) as u8,
        ((value / 0x1_0000) % 0x100) as u8,
        ((value / 0x100) % 0x100) as u8,
        (value % 0x100) as u8,
    ]
}

/// What is hashed into a will's id: the owner's kind and key, then the time
/// of creation.
pub open spec fn will_id_seed(owner: Principal, created_at: u64) -> Seq<u8> {
    seq![kind_tag(owner.kind)] + owner.key@ + be_bytes(created_at)
}

/// The id of the will that `owner` creates at `created_at`.
pub open spec fn will_id_digest(owner: Principal, created_at: u64) -> Seq<u8> {
    sha256_digest(will_id_seed(owner, created_at))
}

/// The id of the token that is issued for a will.
pub open spec fn token_id_digest(will_id: [u8; 32]) -> Seq<u8> {
    sha256_digest(will_id@)
}

/// Appends the 32 bytes of `key` to `out`.
fn push_bytes32(out: &mut Vec<u8>, key: &[u8; 32])
    ensures
        final(out)@ == old(out)@ + key@,
{
    let mut i: usize = 0;
    while i < 32
        invariant
            i <= 32,
            out@ == old(out)@ + key@.take(i as int),
        decreases 32 - i,
    {
        out.push(key[i]);
        assert(key@.take(i + 1) =~= key@.take(i as int).push(key@[i as int]));
        i = i + 1;
    }
    assert(key@.take(32) =~= key@);
}

/// Derives the id of a will from its owner and the time of its creation.
pub fn derive_will_id(owner: &Principal, created_at: u64) -> (id: [u8; 32])
    ensures
        id@ == will_id_digest(*owner, created_at),
{
    let mut seed: Vec<u8> = Vec::new();
    let tag: u8 = match owner.kind {
        PrincipalKind::Account => 0,
        PrincipalKind::Contract => 1,
    };
    seed.push(tag);
    push_bytes32(&mut seed, &owner.key);
    seed.push(((created_at / 0x100_0000_0000_0000) % 0x100) as u8);
    seed.push(((created_at / 0x1_0000_0000_0000) % 0x100) as u8);
    seed.push(((created_at / 0x100_0000_0000) % 0x100) as u8);
    seed.push(((created_at / 0x1_0000_0000) % 0x100) as u8);
    seed.push(((created_at / 0x100_0000) % 0x100) as u8);
    seed.push(((created_at / 0x1_0000) % 0x100) as u8);
    seed.push(((created_at / 0x100) % 0x100) as u8);
    seed.push((created_at % 0x100) as u8);
    assert(seed@ =~= will_id_seed(*owner, created_at));
    sha256(&seed)
}

/// Derives the id of the token that is issued for a will.
pub fn derive_token_id(will_id: &[u8; 32]) -> (id: [u8; 32])
    ensures
        id@ == token_id_digest(*will_id),
{
    let mut seed: Vec<u8> = Vec::new();
    push_bytes32(&mut seed, will_id);
    assert(seed@ =~= will_id@);
    sha256(&seed)
}

} // verus!
