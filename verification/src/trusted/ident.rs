//! Time-ordered identifiers as the `uuid` crate mints them.

use vstd::prelude::*;

verus! {

/// Calls `uuid::Uuid::now_v7` and hands back the identifier as the number
/// that `Uuid::as_u128` gives, which orders as the identifiers do. The value
/// depends on the clock and on random bits, so nothing is promised of it.
/// `now_v7` panics on a machine whose clock stands before the Unix epoch.
#[verifier::external_body]
pub(crate) fn fresh_v7_bits() -> u128 {
    uuid::Uuid::now_v7().as_u128()
}

} // verus!
