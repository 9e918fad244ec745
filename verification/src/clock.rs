//! The one outside collaborator: the system clock, read through chrono.

use vstd::prelude::*;

verus! {

/// Relies on `chrono::Utc::now` for the current instant and on the
/// `chrono::Timelike` accessors `hour`, `minute` and `second`, which
/// chrono documents to return the hour number from 0 to 23 and the
/// minute and second numbers from 0 to 59 (a leap second is carried in
/// the nanosecond field, never here).
#[verifier::external_body]
pub(crate) fn utc_now_hms() -> (r: (u32, u32, u32))
    ensures
        r.0 < 24,
        r.1 < 60,
        r.2 < 60,
{
    let now = chrono::Utc::now();
    (chrono::Timelike::hour(&now), chrono::Timelike::minute(&now), chrono::Timelike::second(&now))
}

} // verus!
