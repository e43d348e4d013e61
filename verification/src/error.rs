//! Typed failures of credential issuance, and the rule that decides success
//! from a durable write's affected-row count.

use vstd::prelude::*;

verus! {

/// Every failure an issuance or registration call can surface.
#[derive(Clone, Copy, Debug, PartialEq, Eq, Structural)]
pub enum StoreError {
    /// The random source or the secret hasher could not produce output.
    GenerationFailure,
    /// The underlying store rejected or failed the write, including
    /// referential-constraint violations such as an unknown client.
    PersistenceFailure,
    /// The write reported an unexpected affected-row count (zero or more
    /// than one): no credential was issued.
    AmbiguousWrite,
}

/// Decide the outcome of an issuance from the affected-row count of its
/// durable write: the credential is returned exactly when one row was
/// written; any other count means no credential was issued.
pub fn finalize_insert(rows_affected: u64, credential: String) -> (r: Result<String, StoreError>)
    ensures
        rows_affected == 1 ==> (r matches Ok(c) && c@ == credential@),
        rows_affected != 1 ==> (r matches Err(e) && e == StoreError::AmbiguousWrite),
{
    if rows_affected == 1 {
        Ok(credential)
    } else {
        Err(StoreError::AmbiguousWrite)
    }
}

} // verus!
