//! The time of day.

use vstd::prelude::*;

verus! {

/// Calls `chrono::Utc::now` and takes the seconds since the Unix epoch.
#[verifier::external_body]
pub(crate) fn unix_now() -> i64 {
    chrono::Utc::now().timestamp()
}

} // verus!
