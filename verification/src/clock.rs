//! The wall clock, behind a trusted wrapper around `chrono`.

use vstd::prelude::*;

verus! {

/// Relies on chrono's `Utc::now`: the current time as whole seconds since the
/// Unix epoch, as the system clock reports it. Nothing is promised of the
/// value; callers must hold for every reading.
#[verifier::external_body]
pub fn now_unix_seconds() -> i64 {
    chrono::Utc::now().timestamp()
}

} // verus!
