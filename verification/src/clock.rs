//! The system clock.

use vstd::prelude::*;

verus! {

/// Milliseconds since the start of 1970 (UTC), read from
/// `std::time::SystemTime::now()`; zero if the clock stands before that.
///
/// Trusted, not proved.  Nothing is claimed about the value: two calls may
/// give any two numbers.
#[verifier::external_body]
pub(crate) fn epoch_millis() -> (millis: u128) {
    std::time::SystemTime::now().duration_since(std::time::UNIX_EPOCH).unwrap_or_default().as_millis()
}

} // verus!
