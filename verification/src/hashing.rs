//! Digests and pseudo-random bytes, computed by the crypto package of
//! `secret-toolkit`.
use vstd::prelude::*;
use vstd::utf8::encode_utf8;
use crate::chain::Env;
use crate::encoding::{be_bytes, push_be_bytes, push_bytes};

verus! {

/// The SHA-256 digest of a byte string, as `secret_toolkit::crypto::sha_256`
/// computes it.
pub uninterp spec fn sha_256_digest(data: Seq<u8>) -> Seq<u8>;

/// Calls `secret_toolkit::crypto::sha_256`. The digest is a function of the
/// input bytes alone and is 32 bytes long; nothing else is claimed of it.
#[verifier::external_body]
pub(crate) fn sha_256(data: &[u8]) -> (digest: Vec<u8>)
    ensures
        digest@ == sha_256_digest(data@),
        digest@.len() == 32,
{
    secret_toolkit::crypto::sha_256(data).to_vec()
}

/// Whether two byte strings are equal.
pub fn bytes_equal(a: &[u8], b: &[u8]) -> (same: bool)
    ensures
        same == (a@ == b@),
{
    if a.len() != b.len() {
        return false;
    }
    let mut i: usize = 0;
    while i < a.len()
        invariant
            i <= a.len(),
            a.len() == b.len(),
            forall|j: int| 0 <= j < i ==> a@[j] == b@[j],
        decreases a.len() - i,
    {
        if a[i] != b[i] {
            return false;
        }
        i += 1;
    }
    assert(a@ =~= b@);
    true
}

/// Hashes `data` and reports whether the digest equals `expected`.
pub fn digest_matches(data: &[u8], expected: &[u8]) -> (ok: bool)
    ensures
        ok == (sha_256_digest(data@) == expected@),
{
    let digest = sha_256(data);
    bytes_equal(digest.as_slice(), expected)
}

/// The first 32 bytes that the generator `secret_toolkit::crypto::Prng`
/// yields when it is made from `seed` and `entropy`.
pub uninterp spec fn prng_output(seed: Seq<u8>, entropy: Seq<u8>) -> Seq<u8>;

/// Makes a generator with `secret_toolkit::crypto::Prng::new` and draws its
/// first block with `Prng::rand_bytes`. The generator is seeded with a digest
/// of `seed` and `entropy`, so the 32 bytes are a function of these two alone.
#[verifier::external_body]
pub(crate) fn prng_rand_bytes(seed: &[u8], entropy: &[u8]) -> (out: Vec<u8>)
    ensures
        out@ == prng_output(seed@, entropy@),
        out@.len() == 32,
{
    secret_toolkit::crypto::Prng::new(seed, entropy).rand_bytes().to_vec()
}

/// What an invocation contributes to a secret: block height and time, the
/// sender, and whatever `extra` the caller adds.
pub open spec fn invocation_entropy(env: Env, extra: Seq<u8>) -> Seq<u8> {
    be_bytes(env.block.height) + be_bytes(env.block.time) + encode_utf8(env.message.sender@)
        + extra
}

/// The secret drawn for an invocation from the contract's seed: the digest of
/// the generator's first block.
pub open spec fn secret_of(env: Env, seed: Seq<u8>, extra: Seq<u8>) -> Seq<u8> {
    sha_256_digest(prng_output(seed, invocation_entropy(env, extra)))
}

/// Draws a 32-byte secret for this invocation from the contract's `seed`.
pub fn draw_secret(env: &Env, seed: &[u8], extra: &[u8]) -> (secret: Vec<u8>)
    ensures
        secret@ == secret_of(*env, seed@, extra@),
        secret@.len() == 32,
{
    let mut entropy: Vec<u8> = Vec::new();
    push_be_bytes(&mut entropy, env.block.height);
    push_be_bytes(&mut entropy, env.block.time);
    push_bytes(&mut entropy, env.message.sender.0.as_str().as_bytes());
    push_bytes(&mut entropy, extra);
    assert(entropy@ =~= invocation_entropy(*env, extra@));
    let block = prng_rand_bytes(seed, entropy.as_slice());
    sha_256(block.as_slice())
}

} // verus!
