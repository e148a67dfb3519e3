//! The calls into `chrono`.
//!
//! Verus does not read `chrono`: what this file says of its functions is
//! taken on trust, and each function here says which call it stands for.

use crate::calendar::{CalendarDate, ClockTime, Hms, Instant, Moment, Ymd};
use chrono::{Datelike, Timelike};
use vstd::prelude::*;

verus! {

/// The moment that lies `hours` hours before the given one, as `chrono`
/// computes it, or `None` where `chrono` has no such moment.
pub uninterp spec fn moment_hours_before(moment: Instant, hours: int) -> Option<Instant>;

/// The date that `chrono` reads out of a text, or `None` where it reads none.
pub uninterp spec fn parsed_date(text: Seq<char>) -> Option<Ymd>;

/// The time of day that `chrono` reads out of a text, or `None` where it
/// reads none.
pub uninterp spec fn parsed_time(text: Seq<char>) -> Option<Hms>;

/// Reads the local clock, with `chrono::Local::now` and
/// `chrono::DateTime::naive_local`.
///
/// Trusted: the reading is a day that exists and a time of day. Nothing is
/// said of which; the fraction of a second is dropped. `chrono` panics where
/// the system clock stands before 1970 or beyond the years of its calendar.
#[verifier::external_body]
pub(crate) fn local_now() -> (now: Moment)
    ensures
        now@.is_moment(),
{
    let t = chrono::Local::now().naive_local();
    Moment {
        date: CalendarDate { year: t.year(), month: t.month(), day: t.day() },
        time: ClockTime { hour: t.hour(), minute: t.minute(), second: t.second() },
    }
}

/// Goes back `hours` hours from a moment, with
/// `chrono::NaiveDateTime::checked_sub_signed` and `chrono::TimeDelta::try_hours`.
///
/// Trusted: the result is the one that `moment_hours_before` names, `None`
/// where `chrono` cannot hold the span or the earlier moment, and a moment
/// that it gives is a day that exists and a time of day.
#[verifier::external_body]
pub(crate) fn hours_before(moment: &Moment, hours: i64) -> (earlier: Option<Moment>)
    ensures
        match earlier {
            Some(m) => m@.is_moment() && moment_hours_before(moment@, hours as int) == Some(m@),
            None => moment_hours_before(moment@, hours as int) is None,
        },
{
    let d = &moment.date;
    let t = &moment.time;
    let date = chrono::NaiveDate::from_ymd_opt(d.year, d.month, d.day)?;
    let time = chrono::NaiveTime::from_hms_opt(t.hour, t.minute, t.second)?;
    let span = chrono::TimeDelta::try_hours(hours)?;
    let r = chrono::NaiveDateTime::new(date, time).checked_sub_signed(span)?;
    Some(
        Moment {
            date: CalendarDate { year: r.year(), month: r.month(), day: r.day() },
            time: ClockTime { hour: r.hour(), minute: r.minute(), second: r.second() },
        },
    )
}

/// Writes a date, with the `Display` of `chrono::NaiveDate`.
///
/// Trusted: the text is year, month and day with `-` between them, month and
/// day in two digits, the year in four digits from 0000 to 9999 and with a
/// sign in front of at least four digits otherwise.
#[verifier::external_body]
pub(crate) fn date_text(date: &CalendarDate) -> (text: String)
    ensures
        text@ == date@.iso_text(),
{
    match chrono::NaiveDate::from_ymd_opt(date.year, date.month, date.day) {
        Some(d) => d.to_string(),
        None => String::new(),
    }
}

/// Writes a time of day, with the `Display` of `chrono::NaiveTime`.
///
/// Trusted: the text is hour, minute and second in two digits each, with
/// `:` between them.
#[verifier::external_body]
pub(crate) fn time_text(time: &ClockTime) -> (text: String)
    ensures
        text@ == time@.iso_text(),
{
    match chrono::NaiveTime::from_hms_opt(time.hour, time.minute, time.second) {
        Some(t) => t.to_string(),
        None => String::new(),
    }
}

/// Reads a date out of a text, with the `FromStr` of `chrono::NaiveDate`.
///
/// Trusted: the result is the one that `parsed_date` names; a date that it
/// gives is a day that exists; and the text that `date_text` writes for a
/// date is read back as that date.
#[verifier::external_body]
pub(crate) fn parse_date(text: &str) -> (date: Option<CalendarDate>)
    ensures
        match date {
            Some(d) => d@.is_date() && parsed_date(text@) == Some(d@),
            None => parsed_date(text@) is None,
        },
        forall|d: Ymd| d.is_date() && text@ == #[trigger] d.iso_text() ==> date is Some && date.unwrap()@ == d,
{
    match text.parse::<chrono::NaiveDate>() {
        Ok(d) => Some(CalendarDate { year: d.year(), month: d.month(), day: d.day() }),
        Err(_) => None,
    }
}

/// Reads a time of day out of a text, with the `FromStr` of
/// `chrono::NaiveTime`.
///
/// Trusted: the result is the one that `parsed_time` names, the fraction of
/// a second dropped; and the text that `time_text` writes for a time is read
/// back as that time.
#[verifier::external_body]
pub(crate) fn parse_time(text: &str) -> (time: Option<ClockTime>)
    ensures
        match time {
            Some(t) => t@.is_time() && parsed_time(text@) == Some(t@),
            None => parsed_time(text@) is None,
        },
        forall|t: Hms| t.is_time() && text@ == #[trigger] t.iso_text() ==> time is Some && time.unwrap()@ == t,
{
    match text.parse::<chrono::NaiveTime>() {
        Ok(t) => Some(ClockTime { hour: t.hour(), minute: t.minute(), second: t.second() }),
        Err(_) => None,
    }
}

} // verus!
