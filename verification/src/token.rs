//! Shared generation primitive for credential strings: fixed-length tokens
//! drawn from the 62-symbol ASCII alphanumeric alphabet by a cryptographically
//! secure random source.

use vstd::prelude::*;
use vstd::string::StringExecFns;

verus! {

/// True of the characters a generated credential may contain:
/// the 62-symbol ASCII alphanumeric alphabet.
pub open spec fn is_token_char(c: char) -> bool {
    ('A' <= c && c <= 'Z') || ('a' <= c && c <= 'z') || ('0' <= c && c <= '9')
}

/// Every character of `s` lies in the credential alphabet.
pub open spec fn all_token_chars(s: Seq<char>) -> bool {
    forall|i: int| 0 <= i < s.len() ==> is_token_char(#[trigger] s[i])
}

/// Relies on rand's `Alphanumeric` distribution: sampling it yields one byte
/// drawn uniformly from `A-Z`, `a-z`, `0-9`, from the thread-local
/// cryptographically secure generator.
#[verifier::external_body]
fn random_alphanumeric() -> (r: String)
    ensures
        r@.len() == 1,
        is_token_char(r@[0]),
{
    let mut rng = rand::rng();
    let b: u8 = rand::Rng::sample(&mut rng, rand::distr::Alphanumeric);
    (b as char).to_string()
}

/// Produce a random token of exactly `len` alphanumeric characters.
pub fn generate_token(len: usize) -> (r: String)
    ensures
        r@.len() == len,
        all_token_chars(r@),
{
    let mut out = String::new();
    let mut i: usize = 0;
    while i < len
        invariant
            i <= len,
            out@.len() == i,
            all_token_chars(out@),
        decreases len - i,
    {
        let piece = random_alphanumeric();
        out.append(piece.as_str());
        i = i + 1;
    }
    out
}

} // verus!
