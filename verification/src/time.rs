//! Instants, held as microseconds since the Unix epoch (UTC), the precision
//! in which the database stores them.
use vstd::prelude::*;

verus! {

/// Whether `micros` names an instant that `chrono::DateTime<Utc>` can hold:
/// from the first microsecond of year -262143 to the last of year 262142.
pub open spec fn representable_micros(micros: int) -> bool {
    -8_334_601_315_200_000_000 <= micros <= 8_210_266_876_799_999_999
}

/// `chrono::Utc::now`, read as microseconds since the epoch. Claimed: the
/// instant is one that `DateTime<Utc>` can hold, at or after the epoch
/// (chrono reads the system clock as a duration since the epoch and panics
/// on a clock set before it); which instant depends on the clock and is left
/// unsaid.
#[verifier::external_body]
pub(crate) fn now_micros() -> (t: i64)
    ensures
        representable_micros(t as int),
        0 <= t,
{
    chrono::Utc::now().timestamp_micros()
}

} // verus!
