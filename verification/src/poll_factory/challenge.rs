//! The handshake by which a new poll proves to the factory that it is the
//! one the factory just created. The factory draws a secret text, keeps its
//! digest and hands the text to the new poll, which has to present it.
use vstd::prelude::*;
use vstd::utf8::encode_utf8;
use crate::chain::Env;
use crate::encoding::{hex_text, push_hex};
use crate::hashing::{digest_matches, draw_secret, secret_of, sha_256, sha_256_digest};

verus! {

/// The secret text of one handshake.
#[derive(Debug, PartialEq, Eq)]
pub struct Challenge(pub String);

/// The text of the challenge drawn in the invocation `env` from `seed`.
pub open spec fn challenge_text(env: Env, seed: Seq<u8>) -> Seq<char> {
    hex_text(secret_of(env, seed, Seq::empty()))
}

/// The digest that stands for the challenge spelled `text`.
pub open spec fn challenge_digest(text: Seq<char>) -> Seq<u8> {
    sha_256_digest(encode_utf8(text))
}

impl Challenge {
    /// Draws the challenge of this invocation from the factory's `seed`.
    pub fn new(env: &Env, seed: &[u8]) -> (challenge: Challenge)
        ensures
            challenge.0@ == challenge_text(*env, seed@),
    {
        let nothing: Vec<u8> = Vec::new();
        let secret = draw_secret(env, seed, nothing.as_slice());
        assert(nothing@ =~= Seq::<u8>::empty());
        let mut text = String::new();
        push_hex(&mut text, secret.as_slice());
        assert(text@ =~= hex_text(secret@));
        Challenge(text)
    }

    /// The digest the factory keeps of the challenge.
    pub fn to_hashed(&self) -> (hashed: Vec<u8>)
        ensures
            hashed@ == challenge_digest(self.0@),
    {
        sha_256(self.0.as_str().as_bytes())
    }

    /// Whether this text is the challenge whose digest is `hashed`.
    pub fn check_challenge(&self, hashed: &[u8]) -> (ok: bool)
        ensures
            ok == (challenge_digest(self.0@) == hashed@),
    {
        digest_matches(self.0.as_str().as_bytes(), hashed)
    }
}

} // verus!
