//! Calendar dates as plain day numbers.
//!
//! The engine reasons about dates purely as day counts in the proleptic
//! Gregorian calendar (day 1 is January 1 of year 1 CE). Only crossing
//! between that representation and the `YYYY-MM-DD` text form needs the
//! calendar itself, and goes through the `chrono` crate.

use vstd::prelude::*;
use chrono::Datelike;

verus! {

/// Day numbers the engine accepts: wide enough for any calendar date the
/// surrounding application can produce, narrow enough that day arithmetic
/// never overflows an `i64`.
pub open spec fn valid_day(d: int) -> bool {
    -100_000_000 <= d <= 100_000_000
}

/// The `YYYY-MM-DD` rendering of a day number. Determined by the day number
/// alone.
pub uninterp spec fn spec_format_ymd(day_number: int) -> Seq<char>;

/// The day number a `YYYY-MM-DD` string denotes, or nothing when the string
/// is not a well-formed calendar date. Determined by the string alone.
pub uninterp spec fn spec_parse_ymd(s: Seq<char>) -> Option<int>;

/// Every day number a rendered date is owed for: 90 million days on either
/// side of day one, about a quarter million years. chrono's calendar spans
/// years -262143 to 262142 (its `MIN_YEAR` and `MAX_YEAR`), which is more
/// than 95 million days each way, so every day number in this range has a
/// date.
pub open spec fn renderable_day(d: int) -> bool {
    -90_000_000 <= d <= 90_000_000
}

/// Relies on chrono's `NaiveDate::from_num_days_from_ce_opt` and `format`:
/// renders a day number as its `YYYY-MM-DD` date, or nothing when the day
/// number falls outside chrono's supported calendar range. The rendering
/// depends on the day number alone, and every day number within
/// `renderable_day` lies inside that documented range, so there it always
/// renders.
#[verifier::external_body]
pub(crate) fn format_day_number(day_number: i64) -> (r: Option<String>)
    requires
        valid_day(day_number as int),
    ensures
        r matches Some(s) ==> s@ == spec_format_ymd(day_number as int),
        renderable_day(day_number as int) ==> r is Some,
{
    let date = chrono::NaiveDate::from_num_days_from_ce_opt(day_number as i32)?;
    Some(date.format("%Y-%m-%d").to_string())
}

/// Relies on chrono's `NaiveDate::parse_from_str` with the `%Y-%m-%d`
/// format and `Datelike::num_days_from_ce`: parses a `YYYY-MM-DD` string to
/// its day number, or nothing when the string is not a valid calendar date.
/// The result depends on the string alone, and chrono's documented calendar
/// range (about a quarter million years around year 1) keeps every parsed
/// day number well inside the engine's day bounds.
#[verifier::external_body]
pub(crate) fn parse_ymd(s: &str) -> (r: Option<i64>)
    ensures
        r matches Some(d) ==> spec_parse_ymd(s@) == Some(d as int) && valid_day(d as int),
        r is None ==> spec_parse_ymd(s@) is None,
{
    let date = chrono::NaiveDate::parse_from_str(s, "%Y-%m-%d").ok()?;
    Some(date.num_days_from_ce() as i64)
}

} // verus!
