//! Calendar dates. The library holds a date as its plain year, month and
//! day; reading one out of `MM/DD/YY` document text is delegated to the
//! chrono crate, which also validates it.

use vstd::prelude::*;

verus! {

/// A calendar date as plain values.
#[derive(Debug, Copy, Clone, PartialEq, Eq, Structural)]
pub struct Date {
    pub year: isize,
    pub month: isize,
    pub day: isize,
}

impl Default for Date {
    /// The sentinel date an aggregate holds before the graduation-date
    /// section is read.
    fn default() -> (r: Self)
        ensures
            r == (Date { year: 2020, month: 1, day: 1 }),
    {
        Date { year: 2020, month: 1, day: 1 }
    }
}

/// The (year, month, day) that month/day/year text denotes, if it denotes a
/// valid calendar date. The text alone decides the result.
pub uninterp spec fn parsed_mdy(s: Seq<char>) -> Option<(int, int, int)>;

/// Relies on `chrono::NaiveDate::parse_from_str` with the `"%D"` format
/// (month/day/year, two-digit year) to read and validate a date, and on
/// `chrono::Datelike::year`/`month`/`day` to take the parsed date apart.
/// The result is a function of the text alone; out-of-range or inconsistent
/// dates are rejected by chrono itself.
#[verifier::external_body]
pub(crate) fn parse_mdy_date(s: &str) -> (r: Option<Date>)
    ensures
        r is Some <==> parsed_mdy(s@) is Some,
        r matches Some(d) ==> parsed_mdy(s@) == Some(
            (d.year as int, d.month as int, d.day as int),
        ),
{
    match chrono::NaiveDate::parse_from_str(s, "%D") {
        Ok(d) => Some(
            Date {
                year: chrono::Datelike::year(&d) as isize,
                month: chrono::Datelike::month(&d) as isize,
                day: chrono::Datelike::day(&d) as isize,
            },
        ),
        Err(_) => None,
    }
}

} // verus!
