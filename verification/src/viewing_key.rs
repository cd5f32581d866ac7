//! Viewing keys: the passwords that guard a participant's private queries.
use vstd::prelude::*;
use vstd::string::StringExecFns;
use vstd::utf8::encode_utf8;
use crate::chain::Env;
use crate::encoding::{hex_text, push_hex};
use crate::hashing::{digest_matches, draw_secret, secret_of, sha_256, sha_256_digest};

verus! {

/// Length in bytes of a hashed viewing key.
pub const VIEWING_KEY_SIZE: usize = 32;

/// A viewing key in the clear, as its owner presents it.
#[derive(Debug, PartialEq, Eq, Clone)]
pub struct ViewingKey(pub String);

/// What every generated viewing key starts with.
pub const VIEWING_KEY_PREFIX: &'static str = "api_key_";

/// The text of the viewing key generated in the invocation `env` from the
/// contract's `seed` and the caller's `entropy`.
pub open spec fn generated_key(env: Env, seed: Seq<u8>, entropy: Seq<u8>) -> Seq<char> {
    VIEWING_KEY_PREFIX@ + hex_text(secret_of(env, seed, entropy))
}

impl ViewingKey {
    /// Generates a viewing key for the sender of this invocation.
    pub fn new(env: &Env, seed: &[u8], entropy: &[u8]) -> (key: ViewingKey)
        ensures
            key.0@ == generated_key(*env, seed@, entropy@),
    {
        let secret = draw_secret(env, seed, entropy);
        let mut text = String::from_str(VIEWING_KEY_PREFIX);
        push_hex(&mut text, secret.as_slice());
        ViewingKey(text)
    }

    /// The bytes of the key as it is spelled.
    pub open spec fn bytes(&self) -> Seq<u8> {
        encode_utf8(self.0@)
    }

    /// The digest under which the key is stored.
    pub fn to_hashed(&self) -> (hashed: Vec<u8>)
        ensures
            hashed@ == sha_256_digest(self.bytes()),
            hashed@.len() == VIEWING_KEY_SIZE,
    {
        sha_256(self.0.as_str().as_bytes())
    }

    /// Whether this key hashes to the stored digest `hashed_pw`.
    pub fn check_viewing_key(&self, hashed_pw: &[u8]) -> (ok: bool)
        ensures
            ok == (sha_256_digest(self.bytes()) == hashed_pw@),
    {
        digest_matches(self.0.as_str().as_bytes(), hashed_pw)
    }
}

} // verus!
