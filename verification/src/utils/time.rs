//! Moments in time as chrono stores them in rows.
use vstd::prelude::*;
use chrono::NaiveDateTime;

verus! {

#[verifier::external_type_specification]
#[verifier::external_body]
pub struct ExNaiveDateTime(NaiveDateTime);

/// `NaiveDateTime` is `Copy`: its clone is the same moment.
pub assume_specification[ <chrono::NaiveDateTime as core::clone::Clone>::clone ](
    t: &chrono::NaiveDateTime,
) -> (r: chrono::NaiveDateTime)
    ensures
        r == *t,
;

/// `Utc::now().naive_utc()`: the current time, which nothing here can predict.
#[verifier::external_body]
pub(crate) fn now_naive_utc() -> (t: NaiveDateTime) {
    chrono::Utc::now().naive_utc()
}

} // verus!
