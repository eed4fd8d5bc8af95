//! Calendar dates, which the `chrono` crate computes.

use vstd::prelude::*;
use crate::text::text_of;

verus! {

/// The text of the calendar date that lies `offset` days after the date
/// `year`-`month`-`day`, as `chrono` computes and writes it; `None` where the
/// start is no date or the result lies outside the dates `chrono` can hold.
pub uninterp spec fn date_text_after(year: int, month: int, day: int, offset: int) -> Option<
    Seq<char>,
>;

/// `NaiveDate::checked_add_signed` of `chrono`, from the date `year`-`month`-`day`
/// by `offset` days, with the result written as `NaiveDate`'s `Display` writes it
/// (year, month and day, joined by hyphens). The contract only gives that
/// result its name: nothing is claimed of which date or text comes out.
#[verifier::external_body]
pub(crate) fn date_after(year: i32, month: u32, day: u32, offset: i64) -> (r: Option<String>)
    ensures
        text_of(r) == date_text_after(year as int, month as int, day as int, offset as int),
{
    let start = chrono::NaiveDate::from_ymd_opt(year, month, day)?;
    let span = chrono::TimeDelta::try_days(offset)?;
    let date = start.checked_add_signed(span)?;
    Some(date.to_string())
}

} // verus!
