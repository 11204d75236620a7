//! The wall clock. Every instant in this crate is a number of whole seconds
//! since the Unix epoch, in UTC.

use vstd::prelude::*;

verus! {

/// Reads the wall clock through `chrono::Utc::now` and hands back its
/// `timestamp()`. Nothing is claimed of the value: two readings may differ
/// in either direction. The call itself fails where the system clock stands
/// before the epoch.
#[verifier::external_body]
pub(crate) fn unix_now() -> (now: i64) {
    chrono::Utc::now().timestamp()
}

} // verus!
