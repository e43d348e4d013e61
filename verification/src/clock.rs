//! The one place the library reads the system clock.

use vstd::prelude::*;

verus! {

/// Relies on chrono's `Local::now` and `DateTime::timestamp`: the current
/// local time as non-leap seconds since the Unix epoch. The value depends on
/// the machine's clock, so nothing is promised of it; issuance logic takes
/// the returned instant as an argument and is verified for every value.
#[verifier::external_body]
pub(crate) fn current_timestamp() -> i64 {
    chrono::Local::now().timestamp()
}

} // verus!
