//! The wall clock, as far as the blog needs it.

use chrono::{NaiveDateTime, Utc};
use vstd::prelude::*;

verus! {

/// `chrono::NaiveDateTime`, a calendar date and time of day with no zone
/// attached. The library keeps every instant as the UTC reading of this type
/// and never looks inside one.
#[verifier::external_type_specification]
#[verifier::external_body]
pub struct ExNaiveDateTime(NaiveDateTime);

/// The current instant, read with `chrono::Utc::now` and kept as its UTC
/// date and time (`DateTime::naive_utc`).
///
/// Nothing is claimed about the value: two calls may differ in either
/// direction. `Utc::now` itself panics when the system clock stands before
/// 1970 or beyond the years chrono can hold; no precondition can exclude that.
#[verifier::external_body]
pub(crate) fn now() -> (instant: NaiveDateTime) {
    Utc::now().naive_utc()
}

} // verus!
