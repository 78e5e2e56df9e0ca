//! The calendar date of a timestamp, as `chrono` gives it.

use vstd::prelude::*;

verus! {

/// The UTC date, written `YYYY-MM-DD`, of the moment that lies `seconds`
/// seconds after the start of 1970; `None` where the calendar does not
/// reach that far.
pub uninterp spec fn utc_date_text(seconds: int) -> Option<Seq<char>>;

/// `chrono::DateTime::from_timestamp` with no nanoseconds, then
/// `DateTime::format` with `%Y-%m-%d`, printed: the UTC date of the moment,
/// or `None` where `from_timestamp` finds the seconds out of range.
#[verifier::external_body]
pub(crate) fn utc_date(seconds: i64) -> (date: Option<String>)
    ensures
        match date {
            Some(text) => utc_date_text(seconds as int) == Some(text@),
            None => utc_date_text(seconds as int) is None,
        },
{
    match chrono::DateTime::from_timestamp(seconds, 0) {
        Some(moment) => Some(moment.format("%Y-%m-%d").to_string()),
        None => None,
    }
}

/// The date of a clock reading in whole seconds. A reading beyond the
/// largest signed 64-bit number is taken as the negative number with the
/// same bits.
pub open spec fn date_text(timestamp: u64) -> Option<Seq<char>> {
    utc_date_text((timestamp as i64) as int)
}

/// The UTC date of `timestamp`, written `YYYY-MM-DD`.
pub fn date_of(timestamp: u64) -> (date: Option<String>)
    ensures
        match date {
            Some(text) => date_text(timestamp) == Some(text@),
            None => date_text(timestamp) is None,
        },
{
    let seconds: i64 = #[verifier::truncate]
    (timestamp as i64);
    utc_date(seconds)
}

} // verus!
