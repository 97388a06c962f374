//! The payment-date reader.  Turning `YYYY/MM/DD` text into a calendar
//! year and ordinal day of year is left to the `chrono` crate; the
//! pipeline works on the resulting pair.

use vstd::prelude::*;

verus! {

/// The year and ordinal day of year that `chrono` parses out of `s` with
/// the format `%Y/%m/%d`, or `None` when `s` is not a valid date in that
/// format.
pub uninterp spec fn parsed_date_of(s: Seq<char>) -> Option<(i64, u64)>;

/// Relies on `chrono::NaiveDate::parse_from_str` with the format
/// `"%Y/%m/%d"`, and on `Datelike::year` and `Datelike::ordinal`: the
/// parse is a function of the text alone, and `ordinal` is documented as
/// the day of year starting from 1, ranging from 1 to 366.
#[verifier::external_body]
pub fn parse_date_ymd(s: &str) -> (r: Option<(i64, u64)>)
    ensures
        r == parsed_date_of(s@),
        r matches Some(p) ==> 1 <= p.1 <= 366,
{
    match chrono::NaiveDate::parse_from_str(s, "%Y/%m/%d") {
        Ok(d) => Some((chrono::Datelike::year(&d) as i64, chrono::Datelike::ordinal(&d) as u64)),
        Err(_) => None,
    }
}

} // verus!
