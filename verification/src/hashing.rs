//! Salted, memory-hard, irreversible hashing of client secrets.
//!
//! The hash is a PHC-format string that embeds the algorithm identifier, its
//! parameters and the salt, so verification needs no external parameter
//! storage.

use vstd::prelude::*;
use crate::token::{all_token_chars, is_token_char};

verus! {

/// Whether Argon2 password verification accepts `secret` against the
/// PHC-format hash string `phc`. Verification recomputes the hash from the
/// parameters and salt embedded in `phc`, so the outcome is a function of
/// the two arguments alone.
pub uninterp spec fn phc_verifies(secret: Seq<char>, phc: Seq<char>) -> bool;

/// Hash a plaintext secret with a fresh random salt; `None` when the hasher
/// cannot produce output, in which case the caller must abort issuance.
///
/// Relies on argon2's `Argon2::hash_password` with a salt freshly drawn by
/// `SaltString::generate` from the operating-system random source: on
/// success the result is a PHC-format string (which always begins with the
/// `'$'` separator) that `verify_password` accepts for the same secret,
/// since verification recomputes the hash from the parameters and salt the
/// string itself carries.
#[verifier::external_body]
pub(crate) fn hash_secret(secret: &str) -> (r: Option<String>)
    ensures
        (r matches Some(h) ==> phc_verifies(secret@, h@)),
        (r matches Some(h) ==> h@.len() > 0 && h@[0] == '$'),
{
    let salt = argon2::password_hash::SaltString::generate(
        &mut argon2::password_hash::rand_core::OsRng,
    );
    match argon2::password_hash::PasswordHasher::hash_password(
        &argon2::Argon2::default(),
        secret.as_bytes(),
        &salt,
    ) {
        Ok(h) => Some(h.to_string()),
        Err(_) => None,
    }
}

/// A PHC-format hash can never equal the plaintext it was derived from:
/// the hash opens with the `'$'` separator, which lies outside the
/// alphanumeric credential alphabet.
pub proof fn lemma_hash_never_plaintext(secret: Seq<char>, phc: Seq<char>)
    requires
        secret.len() > 0,
        all_token_chars(secret),
        phc.len() > 0,
        phc[0] == '$',
    ensures
        phc != secret,
{
    assert(!is_token_char('$'));
    if phc == secret {
        assert(is_token_char(secret[0]));
    }
}

} // verus!
