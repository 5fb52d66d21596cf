//! The two calls that depend on the outside world: the local clock and the
//! locale-aware free-text date parser.

use vstd::prelude::*;
use crate::dates::{Date, checked_date};

verus! {

/// Relies on chrono's `Local::now` and `Datelike`: the month and day numbers
/// of a `NaiveDate` are documented to lie in 1..=12 and 1..=31. Which day
/// comes back depends on the clock, so nothing more is assumed.
#[verifier::external_body]
fn now_ymd() -> (r: (i64, i64, i64))
    ensures
        1 <= r.1 <= 12 && 1 <= r.2 <= 31,
{
    let d = chrono::Local::now().date_naive();
    (
        chrono::Datelike::year(&d) as i64,
        chrono::Datelike::month(&d) as i64,
        chrono::Datelike::day(&d) as i64,
    )
}

/// Relies on interim's `parse_date_string` with chrono's clock: free English
/// date text, read relative to now under the US dialect. The outcome depends
/// on the clock, so only the documented ranges of the returned chrono date
/// are assumed; text that does not parse comes back as nothing.
#[verifier::external_body]
fn parse_date_ymd(s: &str) -> (r: Option<(i64, i64, i64)>)
    ensures
        r matches Some(v) ==> 1 <= v.1 <= 12 && 1 <= v.2 <= 31,
{
    match interim::parse_date_string(s, chrono::Local::now(), interim::Dialect::Us) {
        Ok(dt) => {
            let d = dt.date_naive();
            Some(
                (
                    chrono::Datelike::year(&d) as i64,
                    chrono::Datelike::month(&d) as i64,
                    chrono::Datelike::day(&d) as i64,
                ),
            )
        },
        Err(_) => None,
    }
}

/// Today according to the local clock, revalidated as a calendar day; a clock
/// outside the supported year range yields nothing.
pub fn today() -> (r: Option<Date>)
    ensures
        r is Some ==> r->0.valid(),
{
    let (y, m, d) = now_ymd();
    checked_date(y, m, d)
}

/// What the locale-aware date parser makes of free text, revalidated as a
/// calendar day; unparseable text, and a parse outside the supported year
/// range, yield nothing.
pub fn parse_date_text(s: &str) -> (r: Option<Date>)
    ensures
        r is Some ==> r->0.valid(),
{
    match parse_date_ymd(s) {
        None => None,
        Some(v) => checked_date(v.0, v.1, v.2),
    }
}

} // verus!
