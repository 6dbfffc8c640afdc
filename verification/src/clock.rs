//! Local calendar time of stored timestamps, through `chrono`. Sessions are
//! stored as RFC 3339 text; statistics group them by the local month,
//! weekday and hour.

use vstd::prelude::*;
use chrono::{DateTime, Datelike, Local, Timelike};
use crate::text::{dec_digits, push_char, push_padded, str_eq, zero_pad};

verus! {

/// The instant of an RFC 3339 timestamp as `chrono` reads it (seconds since
/// the epoch and the nanoseconds within the second); none for other text.
/// Only whether there is one is stated anywhere.
pub uninterp spec fn rfc3339_instant(ts: Seq<char>) -> Option<(int, int)>;

/// The local calendar fields of an instant.
#[derive(Debug, Clone, Copy, PartialEq, Eq, Structural)]
pub struct LocalCalendar {
    pub year: i32,
    /// 1 to 12.
    pub month: u32,
    /// 0 for Monday to 6 for Sunday.
    pub weekday: u32,
    /// 0 to 23.
    pub hour: u32,
}

/// The proleptic Gregorian date (year, month 1–12, day) of a day counted
/// from 1970-01-01.
pub open spec fn civil_from_days(days: int) -> (int, int, int) {
    let z = days + 719468;
    let era = z / 146097;
    let doe = z - era * 146097;
    let yoe = (doe - doe / 1460 + doe / 36524 - doe / 146096) / 365;
    let doy = doe - (365 * yoe + yoe / 4 - yoe / 100);
    let mp = (5 * doy + 2) / 153;
    let day = doy - (153 * mp + 2) / 5 + 1;
    let month = if mp < 10 { mp + 3 } else { mp - 9 };
    (yoe + era * 400 + if month <= 2 { 1int } else { 0int }, month, day)
}

/// The calendar fields of a wall-clock time given in seconds from
/// 1970-01-01 00:00: year, month, weekday (0 for Monday) and hour.
pub open spec fn fields_at(t: int) -> (int, int, int, int) {
    let days = t / 86400;
    let date = civil_from_days(days);
    (date.0, date.1, (days + 3) % 7, (t % 86400) / 3600)
}

/// Whether `c` holds the fields of the instant `instant` (seconds since the
/// epoch) seen at the UTC offset `offset`, an offset of less than a day.
pub open spec fn reads_at_offset(c: LocalCalendar, instant: int, offset: int) -> bool {
    let f = fields_at(instant + offset);
    &&& -86400 < offset < 86400
    &&& c.year as int == f.0 && c.month as int == f.1 && c.weekday as int == f.2 && c.hour as int == f.3
}

/// Whether `c` is the local reading of the RFC 3339 timestamp `ts` at some
/// offset from UTC of less than a day (the machine's time zone decides which).
pub open spec fn local_reading(ts: Seq<char>, c: LocalCalendar) -> bool {
    match rfc3339_instant(ts) {
        Some(i) => exists|offset: int| #[trigger] reads_at_offset(c, i.0, offset),
        None => false,
    }
}

/// The `%Y-%m` text of the instant `instant` seen at the UTC offset `offset`.
pub open spec fn month_text_at(instant: int, offset: int) -> Seq<char> {
    calendar_month_text(fields_at(instant + offset).0, fields_at(instant + offset).1)
}

/// `DateTime::parse_from_rfc3339` followed by `with_timezone(&Local)`: the
/// timestamp in the machine's time zone, read as calendar fields; none exactly
/// when the text is not RFC 3339. The local time is the instant plus the
/// zone's offset, a `FixedOffset`, which is less than a day either way; which
/// offset applies depends on the machine and is not stated.
#[verifier::external_body]
fn to_local(ts: &str) -> (r: Option<LocalCalendar>)
    ensures
        r is Some <==> rfc3339_instant(ts@) is Some,
        r matches Some(c) ==> 1 <= c.month <= 12 && c.weekday <= 6 && c.hour <= 23 && local_reading(ts@, c),
{
    match DateTime::parse_from_rfc3339(ts) {
        Ok(dt) => {
            let l = dt.with_timezone(&Local);
            Some(LocalCalendar { year: l.year(), month: l.month(), weekday: l.weekday().num_days_from_monday(), hour: l.hour() })
        },
        Err(_) => None,
    }
}

/// `%Y` as `chrono` writes it: four digits for years 0 to 9999, otherwise
/// the sign and at least four digits.
pub open spec fn year_text(year: int) -> Seq<char> {
    if 0 <= year <= 9999 {
        zero_pad(dec_digits(year as nat), 4)
    } else if year < 0 {
        seq!['-'] + zero_pad(dec_digits((-year) as nat), 4)
    } else {
        seq!['+'] + zero_pad(dec_digits(year as nat), 4)
    }
}

/// `%Y-%m`.
pub open spec fn calendar_month_text(year: int, month: int) -> Seq<char> {
    year_text(year) + seq!['-'] + zero_pad(dec_digits(month as nat), 2)
}

/// Renders a year and a month as `%Y-%m`.
pub fn format_year_month(year: i32, month: u32) -> (s: String)
    ensures
        s@ == calendar_month_text(year as int, month as int),
{
    let mut out = String::new();
    if year < 0 {
        push_char(&mut out, '-');
        let mag: u64 = (-(year as i64)) as u64;
        push_padded(&mut out, mag, 4);
    } else if year > 9999 {
        push_char(&mut out, '+');
        push_padded(&mut out, year as u64, 4);
    } else {
        push_padded(&mut out, year as u64, 4);
    }
    push_char(&mut out, '-');
    push_padded(&mut out, month as u64, 2);
    proof {
        assert(out@ =~= calendar_month_text(year as int, month as int));
    }
    out
}

/// Whether local calendar fields fall in the month written `year_month`.
pub open spec fn calendar_in_month(cal: Option<LocalCalendar>, year_month: Seq<char>) -> bool {
    match cal {
        Some(c) => calendar_month_text(c.year as int, c.month as int) == year_month,
        None => false,
    }
}

/// Whether local calendar fields fall in the month written `year_month` ("2026-07").
pub fn calendar_matches(cal: Option<LocalCalendar>, year_month: &str) -> (b: bool)
    ensures
        b == calendar_in_month(cal, year_month@),
{
    match cal {
        Some(c) => {
            let text = format_year_month(c.year, c.month);
            str_eq(text.as_str(), year_month)
        },
        None => false,
    }
}

/// The local calendar fields of an RFC 3339 timestamp, if it is one.
pub fn local_time_of(ts: &str) -> (r: Option<LocalCalendar>)
    ensures
        r is Some <==> rfc3339_instant(ts@) is Some,
        r matches Some(c) ==> 1 <= c.month <= 12 && c.weekday <= 6 && c.hour <= 23 && local_reading(ts@, c),
{
    to_local(ts)
}

/// Whether the timestamp `ts`, in local time, falls in the month `year_month`
/// ("2026-07"): the instant plus the machine's UTC offset (less than a day)
/// lies in that month. Text that is not RFC 3339 falls in no month.
pub fn in_month(ts: &str, year_month: &str) -> (b: bool)
    ensures
        rfc3339_instant(ts@) is None ==> !b,
        rfc3339_instant(ts@) matches Some(i) ==> exists|offset: int| -86400 < offset < 86400
            && b == (#[trigger] month_text_at(i.0, offset) == year_month@),
{
    let cal = local_time_of(ts);
    let b = calendar_matches(cal, year_month);
    proof {
        if rfc3339_instant(ts@) is Some {
            let i = rfc3339_instant(ts@)->0;
            let c = cal->0;
            let offset = choose|offset: int| #[trigger] reads_at_offset(c, i.0, offset);
            assert(reads_at_offset(c, i.0, offset));
            assert(b == (month_text_at(i.0, offset) == year_month@));
        }
    }
    b
}

} // verus!
