//! Statistics over recorded work sessions that need no floating point:
//! the monthly totals and the weekday-by-hour focus table.

use vstd::prelude::*;
use crate::clock::{calendar_in_month, calendar_matches, local_reading, local_time_of, rfc3339_instant, LocalCalendar};

verus! {

/// The name under which time of todos without tags is counted.
pub const UNTAGGED: &'static str = "Untagged";
/// The colour of that group in the charts.
pub const UNTAGGED_COLOR: &'static str = "#8b8b9a";

/// Focus time per tag, for the chart (untagged time is named "Untagged").
#[derive(Debug, Clone, PartialEq, Eq)]
pub struct TagFocus {
    pub name: String,
    pub color: String,
    pub secs: i64,
}

/// Focus seconds in one hour of one weekday (0 = Monday .. 6 = Sunday).
#[derive(Debug, Clone, Copy, PartialEq, Eq, Structural)]
pub struct HourFocus {
    pub weekday: i64,
    pub hour: i64,
    pub secs: i64,
}

/// A recorded chunk of work (a `pomodoro_session` row with a duration).
#[derive(Debug, Clone)]
pub struct SessionRow {
    pub todo_id: i64,
    pub started_at: String,
    pub duration_secs: i64,
    pub completed: bool,
    pub interruptions: i64,
}

/// One work chunk placed in the weekly table.
#[derive(Debug, Clone, Copy, PartialEq, Eq, Structural)]
pub struct HourStamp {
    pub weekday: i64,
    pub hour: i64,
    pub secs: i64,
}

pub open spec fn key_lt(a: (int, int), b: (int, int)) -> bool {
    a.0 < b.0 || (a.0 == b.0 && a.1 < b.1)
}

pub open spec fn cell_key(h: HourFocus) -> (int, int) {
    (h.weekday as int, h.hour as int)
}

pub open spec fn stamp_key(s: HourStamp) -> (int, int) {
    (s.weekday as int, s.hour as int)
}

/// The seconds of the stamps in cell `k`.
pub open spec fn cell_total(stamps: Seq<HourStamp>, k: (int, int)) -> int
    decreases stamps.len(),
{
    if stamps.len() == 0 {
        0
    } else {
        cell_total(stamps.drop_last(), k) + if stamp_key(stamps.last()) == k { stamps.last().secs as int } else { 0 }
    }
}

/// The seconds of all stamps.
pub open spec fn has_cell(stamps: Seq<HourStamp>, k: (int, int)) -> bool {
    exists|i: int| 0 <= i < stamps.len() && stamp_key(#[trigger] stamps[i]) == k
}

/// The table of `stamps`: one entry per occupied cell, in weekday-then-hour
/// order, holding the cell's total.
pub open spec fn is_table_of(table: Seq<HourFocus>, stamps: Seq<HourStamp>) -> bool {
    &&& forall|i: int, j: int| 0 <= i < j < table.len() ==> key_lt(cell_key(table[i]), cell_key(table[j]))
    &&& forall|i: int| 0 <= i < table.len() ==> has_cell(stamps, cell_key(#[trigger] table[i]))
        && table[i].secs == cell_total(stamps, cell_key(table[i]))
    &&& forall|k: (int, int)| #[trigger] has_cell(stamps, k) ==> exists|i: int| 0 <= i < table.len() && cell_key(table[i]) == k
}

/// Whether every running cell total, taken stamp by stamp, fits in an `i64`.
pub open spec fn stamps_fit(stamps: Seq<HourStamp>) -> bool
    decreases stamps.len(),
{
    stamps.len() == 0 || (stamps_fit(stamps.drop_last())
        && i64::MIN <= cell_total(stamps, stamp_key(stamps.last())) <= i64::MAX)
}

proof fn lemma_stamps_fit_prefix(stamps: Seq<HourStamp>, n: int)
    requires
        stamps_fit(stamps),
        0 <= n <= stamps.len(),
    ensures
        stamps_fit(stamps.take(n)),
    decreases stamps.len() - n,
{
    if n < stamps.len() {
        lemma_stamps_fit_prefix(stamps, n + 1);
        assert(stamps.take(n + 1).drop_last() == stamps.take(n));
    } else {
        assert(stamps.take(n) == stamps);
    }
}

/// Sums the stamps per (weekday, hour) cell, in weekday-then-hour order;
/// `None` where a cell's running sum leaves the range of an `i64`.
pub fn hour_table(stamps: &Vec<HourStamp>) -> (table: Option<Vec<HourFocus>>)
    ensures
        table is Some <==> stamps_fit(stamps@),
        table matches Some(t) ==> is_table_of(t@, stamps@),
{
    let mut table: Vec<HourFocus> = Vec::new();
    let mut n: usize = 0;
    while n < stamps.len()
        invariant
            n <= stamps@.len(),
            stamps_fit(stamps@.take(n as int)),
            is_table_of(table@, stamps@.take(n as int)),
        decreases stamps@.len() - n,
    {
        let s = stamps[n];
        let ghost before = table@;
        let ghost prev = stamps@.take(n as int);
        let ghost next = stamps@.take(n + 1);
        proof {
            assert(next.drop_last() == prev);
            assert(next.last() == s);
            assert forall|k: (int, int)| #[trigger] has_cell(next, k) <==> (has_cell(prev, k) || k == stamp_key(s)) by {
                if has_cell(next, k) {
                    let i = choose|i: int| 0 <= i < next.len() && stamp_key(#[trigger] next[i]) == k;
                    if i < prev.len() {
                        assert(prev[i] == next[i]);
                    }
                }
                if has_cell(prev, k) {
                    let i = choose|i: int| 0 <= i < prev.len() && stamp_key(#[trigger] prev[i]) == k;
                    assert(next[i] == prev[i]);
                }
                if k == stamp_key(s) {
                    assert(next[n as int] == s);
                }
            }
        }
        // first position whose cell is not before the stamp's
        let mut p: usize = 0;
        while p < table.len()
            && (table[p].weekday < s.weekday || (table[p].weekday == s.weekday && table[p].hour < s.hour))
            invariant
                p <= table@.len(),
                table@ == before,
                forall|j: int| 0 <= j < p ==> key_lt(cell_key(table@[j]), stamp_key(s)),
            decreases table@.len() - p,
        {
            p = p + 1;
        }
        proof {
            assert forall|j: int| p <= j < table@.len() implies !key_lt(cell_key(#[trigger] table@[j]), stamp_key(s)) by {
                if j > p {
                    assert(key_lt(cell_key(table@[p as int]), cell_key(table@[j])));
                }
            }
        }
        if p < table.len() && table[p].weekday == s.weekday && table[p].hour == s.hour {
            let old_cell = table[p];
            proof {
                assert(old_cell.secs == cell_total(prev, stamp_key(s)));
                assert(cell_total(next, stamp_key(s)) == cell_total(prev, stamp_key(s)) + s.secs);
            }
            let sum = match old_cell.secs.checked_add(s.secs) {
                Some(v) => v,
                None => {
                    proof {
                        if stamps_fit(stamps@) {
                            lemma_stamps_fit_prefix(stamps@, n + 1);
                        }
                    }
                    return None;
                },
            };
            let cell = HourFocus { weekday: old_cell.weekday, hour: old_cell.hour, secs: sum };
            table.set(p, cell);
            proof {
                assert forall|i: int| 0 <= i < table@.len() implies has_cell(next, cell_key(#[trigger] table@[i]))
                    && table@[i].secs == cell_total(next, cell_key(table@[i])) by {
                    if i != p {
                        assert(table@[i] == before[i]);
                        assert(cell_key(before[i]) != stamp_key(s)) by {
                            if i < p { assert(key_lt(cell_key(before[i]), stamp_key(s))); }
                            else { assert(key_lt(cell_key(before[p as int]), cell_key(before[i]))); }
                        }
                    }
                }
                assert forall|k: (int, int)| #[trigger] has_cell(next, k) implies exists|i: int| 0 <= i < table@.len() && cell_key(table@[i]) == k by {
                    if k == stamp_key(s) {
                        assert(cell_key(table@[p as int]) == k);
                    } else {
                        assert(has_cell(prev, k));
                        let i = choose|i: int| 0 <= i < before.len() && cell_key(before[i]) == k;
                        assert(cell_key(table@[i]) == k);
                    }
                }
                assert forall|i: int, j: int| 0 <= i < j < table@.len() implies key_lt(cell_key(table@[i]), cell_key(table@[j])) by {
                    assert(cell_key(table@[i]) == cell_key(before[i]));
                    assert(cell_key(table@[j]) == cell_key(before[j]));
                }
            }
        } else {
            let cell = HourFocus { weekday: s.weekday, hour: s.hour, secs: s.secs };
            proof {
                assert(!has_cell(prev, stamp_key(s))) by {
                    if has_cell(prev, stamp_key(s)) {
                        let i = choose|i: int| 0 <= i < before.len() && cell_key(before[i]) == stamp_key(s);
                        if i < p {
                            assert(key_lt(cell_key(before[i]), stamp_key(s)));
                        } else if i > p {
                            assert(key_lt(cell_key(before[p as int]), cell_key(before[i])));
                            assert(!key_lt(cell_key(before[p as int]), stamp_key(s)));
                        }
                    }
                }
                lemma_cell_total_absent(prev, stamp_key(s));
            }
            table.insert(p, cell);
            proof {
                assert forall|i: int| 0 <= i < table@.len() implies has_cell(next, cell_key(#[trigger] table@[i]))
                    && table@[i].secs == cell_total(next, cell_key(table@[i])) by {
                    if i < p {
                        assert(table@[i] == before[i]);
                        assert(key_lt(cell_key(before[i]), stamp_key(s)));
                    } else if i > p {
                        assert(table@[i] == before[i - 1]);
                        assert(cell_key(before[i - 1]) != stamp_key(s)) by {
                            assert(!key_lt(cell_key(before[i - 1]), stamp_key(s)));
                            if cell_key(before[i - 1]) == stamp_key(s) {
                                assert(has_cell(prev, stamp_key(s)));
                            }
                        }
                    }
                }
                assert forall|k: (int, int)| #[trigger] has_cell(next, k) implies exists|i: int| 0 <= i < table@.len() && cell_key(table@[i]) == k by {
                    if k == stamp_key(s) {
                        assert(cell_key(table@[p as int]) == k);
                    } else {
                        assert(has_cell(prev, k));
                        let i = choose|i: int| 0 <= i < before.len() && cell_key(before[i]) == k;
                        if i < p {
                            assert(cell_key(table@[i]) == k);
                        } else {
                            assert(cell_key(table@[i + 1]) == k);
                        }
                    }
                }
                assert forall|i: int, j: int| 0 <= i < j < table@.len() implies key_lt(cell_key(table@[i]), cell_key(table@[j])) by {
                    if j < p {
                        assert(table@[i] == before[i] && table@[j] == before[j]);
                    } else if j == p {
                        assert(table@[i] == before[i]);
                    } else if i == p {
                        assert(table@[j] == before[j - 1]);
                        assert(!key_lt(cell_key(before[j - 1]), stamp_key(s)));
                        assert(cell_key(before[j - 1]) != stamp_key(s)) by {
                            if cell_key(before[j - 1]) == stamp_key(s) {
                                assert(has_cell(prev, stamp_key(s)));
                            }
                        }
                    } else if i < p {
                        assert(table@[i] == before[i] && table@[j] == before[j - 1]);
                        if i < j - 1 {
                            assert(key_lt(cell_key(before[i]), cell_key(before[j - 1])));
                        } else {
                            assert(key_lt(cell_key(before[i]), stamp_key(s)));
                            assert(!key_lt(cell_key(before[j - 1]), stamp_key(s)));
                        }
                    } else {
                        assert(table@[i] == before[i - 1] && table@[j] == before[j - 1]);
                    }
                }
            }
        }
        n = n + 1;
    }
    assert(stamps@.take(n as int) == stamps@);
    Some(table)
}

proof fn lemma_cell_total_absent(stamps: Seq<HourStamp>, k: (int, int))
    requires
        !has_cell(stamps, k),
    ensures
        cell_total(stamps, k) == 0,
    decreases stamps.len(),
{
    if stamps.len() > 0 {
        assert(!has_cell(stamps.drop_last(), k)) by {
            if has_cell(stamps.drop_last(), k) {
                let i = choose|i: int| 0 <= i < stamps.drop_last().len() && stamp_key(#[trigger] stamps.drop_last()[i]) == k;
                assert(stamps[i] == stamps.drop_last()[i]);
            }
        }
        lemma_cell_total_absent(stamps.drop_last(), k);
        assert(stamp_key(stamps[stamps.len() - 1]) != k);
    }
}


/// The stamp of a row in the table, if its local time falls in the month.
pub open spec fn stamp_of(row: SessionRow, cal: Option<LocalCalendar>, year_month: Seq<char>) -> Seq<HourStamp> {
    if calendar_in_month(cal, year_month) {
        seq![HourStamp { weekday: cal->0.weekday as i64, hour: cal->0.hour as i64, secs: row.duration_secs }]
    } else {
        seq![]
    }
}

/// The stamps of the rows in the month, given each row's local calendar fields.
pub open spec fn month_stamps(rows: Seq<SessionRow>, cals: Seq<Option<LocalCalendar>>, year_month: Seq<char>) -> Seq<HourStamp>
    decreases rows.len(),
{
    if rows.len() == 0 || cals.len() != rows.len() {
        seq![]
    } else {
        month_stamps(rows.drop_last(), cals.drop_last(), year_month) + stamp_of(rows.last(), cals.last(), year_month)
    }
}

/// What the local reading of a start time is: none exactly for text that is
/// not RFC 3339, otherwise fields in range that show the instant at a UTC
/// offset of less than a day.
pub open spec fn reading_ok(ts: Seq<char>, cal: Option<LocalCalendar>) -> bool {
    match cal {
        Some(c) => rfc3339_instant(ts) is Some && 1 <= c.month <= 12 && c.weekday <= 6 && c.hour <= 23
            && local_reading(ts, c),
        None => rfc3339_instant(ts) is None,
    }
}

/// The local calendar reading of each row's start.
pub open spec fn readings_of(rows: Seq<SessionRow>, cals: Seq<Option<LocalCalendar>>) -> bool {
    &&& cals.len() == rows.len()
    &&& forall|i: int| 0 <= i < rows.len() ==> reading_ok((#[trigger] rows[i]).started_at@, cals[i])
}

/// Every stamp lies in a weekday 0 to 6 and an hour 0 to 23.
pub open spec fn stamps_in_range(stamps: Seq<HourStamp>) -> bool {
    forall|i: int| 0 <= i < stamps.len() ==> 0 <= (#[trigger] stamps[i]).weekday <= 6 && 0 <= stamps[i].hour <= 23
}

proof fn lemma_month_stamps_in_range(rows: Seq<SessionRow>, cals: Seq<Option<LocalCalendar>>, ym: Seq<char>)
    requires
        readings_of(rows, cals),
    ensures
        stamps_in_range(month_stamps(rows, cals, ym)),
    decreases rows.len(),
{
    if rows.len() > 0 {
        let (r0, c0) = (rows.drop_last(), cals.drop_last());
        assert(readings_of(r0, c0)) by {
            assert forall|i: int| 0 <= i < r0.len() implies reading_ok((#[trigger] r0[i]).started_at@, c0[i]) by {
                assert(r0[i] == rows[i] && c0[i] == cals[i]);
                assert(reading_ok(rows[i].started_at@, cals[i]));
            }
        }
        lemma_month_stamps_in_range(r0, c0, ym);
        assert(reading_ok(rows[rows.len() - 1].started_at@, cals[rows.len() - 1]));
        let a = month_stamps(r0, c0, ym);
        let b = stamp_of(rows.last(), cals.last(), ym);
        assert forall|i: int| 0 <= i < (a + b).len() implies 0 <= (#[trigger] (a + b)[i]).weekday <= 6
            && 0 <= (a + b)[i].hour <= 23 by {
            if i < a.len() {
                assert((a + b)[i] == a[i]);
            } else {
                assert((a + b)[i] == b[i - a.len()]);
            }
        }
    }
}

/// Whether every cell of a heat-map table lies in a weekday 0 to 6 and an hour 0 to 23.
pub open spec fn cells_in_range(table: Seq<HourFocus>) -> bool {
    forall|i: int| 0 <= i < table.len() ==> 0 <= (#[trigger] table[i]).weekday <= 6 && 0 <= table[i].hour <= 23
}

proof fn lemma_table_in_range(table: Seq<HourFocus>, stamps: Seq<HourStamp>)
    requires
        is_table_of(table, stamps),
        stamps_in_range(stamps),
    ensures
        cells_in_range(table),
{
    assert forall|i: int| 0 <= i < table.len() implies 0 <= (#[trigger] table[i]).weekday <= 6 && 0 <= table[i].hour <= 23 by {
        assert(has_cell(stamps, cell_key(table[i])));
        let j = choose|j: int| 0 <= j < stamps.len() && stamp_key(#[trigger] stamps[j]) == cell_key(table[i]);
        assert(0 <= stamps[j].weekday <= 6 && 0 <= stamps[j].hour <= 23);
    }
}

/// The local calendar fields of each row's start, read in the machine's
/// time zone; none exactly for text that is not RFC 3339.
pub fn calendars_of(rows: &Vec<SessionRow>) -> (cals: Vec<Option<LocalCalendar>>)
    ensures
        readings_of(rows@, cals@),
{
    let mut cals: Vec<Option<LocalCalendar>> = Vec::new();
    let mut i: usize = 0;
    while i < rows.len()
        invariant
            i <= rows@.len(),
            cals@.len() == i,
            forall|k: int| 0 <= k < i ==> reading_ok((#[trigger] rows@[k]).started_at@, cals@[k]),
        decreases rows@.len() - i,
    {
        let cal = local_time_of(rows[i].started_at.as_str());
        cals.push(cal);
        i = i + 1;
    }
    cals
}

/// The stamps of the rows whose calendar reading falls in the month.
pub fn stamps_in_month(rows: &Vec<SessionRow>, cals: &Vec<Option<LocalCalendar>>, year_month: &str) -> (stamps: Vec<HourStamp>)
    requires
        cals@.len() == rows@.len(),
    ensures
        stamps@ == month_stamps(rows@, cals@, year_month@),
{
    let mut stamps: Vec<HourStamp> = Vec::new();
    let mut i: usize = 0;
    while i < rows.len()
        invariant
            i <= rows@.len(),
            cals@.len() == rows@.len(),
            stamps@ == month_stamps(rows@.take(i as int), cals@.take(i as int), year_month@),
        decreases rows@.len() - i,
    {
        proof {
            assert(rows@.take(i + 1).drop_last() == rows@.take(i as int));
            assert(rows@.take(i + 1).last() == rows@[i as int]);
            assert(cals@.take(i + 1).drop_last() == cals@.take(i as int));
            assert(cals@.take(i + 1).last() == cals@[i as int]);
        }
        let cal = cals[i];
        if calendar_matches(cal, year_month) {
            let c = cal.unwrap();
            stamps.push(HourStamp { weekday: c.weekday as i64, hour: c.hour as i64, secs: rows[i].duration_secs });
        }
        i = i + 1;
    }
    proof {
        assert(rows@.take(i as int) == rows@);
        assert(cals@.take(i as int) == cals@);
    }
    stamps
}

/// The weekday-by-hour table of the rows whose local time falls in the
/// month `year_month`. Each row's local time comes from the machine's time
/// zone; rows that are not RFC 3339 are left out. `None` where a cell's
/// running sum leaves the range of an `i64`.
pub fn focus_hours_of_rows(rows: &Vec<SessionRow>, year_month: &str) -> (table: Option<Vec<HourFocus>>)
    ensures
        exists|cals: Seq<Option<LocalCalendar>>| #[trigger] readings_of(rows@, cals)
            && (table is Some <==> stamps_fit(month_stamps(rows@, cals, year_month@)))
            && (table matches Some(t) ==> is_table_of(t@, month_stamps(rows@, cals, year_month@))),
        table matches Some(t) ==> cells_in_range(t@),
{
    let cals = calendars_of(rows);
    let stamps = stamps_in_month(rows, &cals, year_month);
    let table = hour_table(&stamps);
    assert(readings_of(rows@, cals@));
    proof {
        lemma_month_stamps_in_range(rows@, cals@, year_month@);
        if table is Some {
            lemma_table_in_range(table->0@, stamps@);
        }
    }
    table
}

/// Totals of a month: focus seconds of all chunks, and the number of
/// completed sessions with their interruptions.
#[derive(Debug, Clone, Copy, PartialEq, Eq, Structural)]
pub struct MonthlyTotals {
    pub total_focus_secs: i64,
    pub completed_sessions: i64,
    pub interruptions: i64,
}

/// The totals of the rows whose calendar reading falls in the month.
pub open spec fn tally(rows: Seq<SessionRow>, cals: Seq<Option<LocalCalendar>>, year_month: Seq<char>) -> (int, int, int)
    decreases rows.len(),
{
    if rows.len() == 0 || cals.len() != rows.len() {
        (0, 0, 0)
    } else {
        let t = tally(rows.drop_last(), cals.drop_last(), year_month);
        let r = rows.last();
        if calendar_in_month(cals.last(), year_month) {
            if r.completed {
                (t.0 + r.duration_secs, t.1 + 1, t.2 + r.interruptions)
            } else {
                (t.0 + r.duration_secs, t.1, t.2)
            }
        } else {
            t
        }
    }
}

/// Whether each of the three totals fits in an `i64`.
pub open spec fn totals_fit(t: (int, int, int)) -> bool {
    &&& i64::MIN <= t.0 <= i64::MAX
    &&& i64::MIN <= t.1 <= i64::MAX
    &&& i64::MIN <= t.2 <= i64::MAX
}

/// Whether every running total, taken row by row, fits in an `i64`.
pub open spec fn tally_fits(rows: Seq<SessionRow>, cals: Seq<Option<LocalCalendar>>, year_month: Seq<char>) -> bool
    decreases rows.len(),
{
    if rows.len() == 0 || cals.len() != rows.len() {
        true
    } else {
        tally_fits(rows.drop_last(), cals.drop_last(), year_month) && totals_fit(tally(rows, cals, year_month))
    }
}

proof fn lemma_tally_fits_prefix(rows: Seq<SessionRow>, cals: Seq<Option<LocalCalendar>>, ym: Seq<char>, n: int)
    requires
        tally_fits(rows, cals, ym),
        cals.len() == rows.len(),
        0 <= n <= rows.len(),
    ensures
        tally_fits(rows.take(n), cals.take(n), ym),
    decreases rows.len() - n,
{
    if n < rows.len() {
        lemma_tally_fits_prefix(rows, cals, ym, n + 1);
        assert(rows.take(n + 1).drop_last() == rows.take(n));
        assert(cals.take(n + 1).drop_last() == cals.take(n));
    } else {
        assert(rows.take(n) == rows);
        assert(cals.take(n) == cals);
    }
}

/// The totals of the rows whose calendar reading falls in the month; `None`
/// where a running total leaves the range of an `i64`.
pub fn tally_rows(rows: &Vec<SessionRow>, cals: &Vec<Option<LocalCalendar>>, year_month: &str) -> (t: Option<MonthlyTotals>)
    requires
        cals@.len() == rows@.len(),
    ensures
        t is Some <==> tally_fits(rows@, cals@, year_month@),
        t matches Some(v) ==> tally(rows@, cals@, year_month@)
            == (v.total_focus_secs as int, v.completed_sessions as int, v.interruptions as int),
{
    let mut total: i64 = 0;
    let mut completed: i64 = 0;
    let mut interruptions: i64 = 0;
    let mut i: usize = 0;
    while i < rows.len()
        invariant
            i <= rows@.len(),
            cals@.len() == rows@.len(),
            tally_fits(rows@.take(i as int), cals@.take(i as int), year_month@),
            tally(rows@.take(i as int), cals@.take(i as int), year_month@) == (total as int, completed as int, interruptions as int),
        decreases rows@.len() - i,
    {
        let ghost next = rows@.take(i + 1);
        let ghost ncals = cals@.take(i + 1);
        proof {
            assert(next.drop_last() == rows@.take(i as int));
            assert(next.last() == rows@[i as int]);
            assert(ncals.drop_last() == cals@.take(i as int));
            assert(ncals.last() == cals@[i as int]);
        }
        if calendar_matches(cals[i], year_month) {
            let t = total.checked_add(rows[i].duration_secs);
            let c = if rows[i].completed { completed.checked_add(1) } else { Some(completed) };
            let n = if rows[i].completed { interruptions.checked_add(rows[i].interruptions) } else { Some(interruptions) };
            match (t, c, n) {
                (Some(t), Some(c), Some(n)) => {
                    total = t;
                    completed = c;
                    interruptions = n;
                },
                _ => {
                    proof {
                        assert(!totals_fit(tally(next, ncals, year_month@)));
                        if tally_fits(rows@, cals@, year_month@) {
                            lemma_tally_fits_prefix(rows@, cals@, year_month@, i + 1);
                        }
                    }
                    return None;
                },
            }
        }
        i = i + 1;
    }
    proof {
        assert(rows@.take(i as int) == rows@);
        assert(cals@.take(i as int) == cals@);
    }
    Some(MonthlyTotals { total_focus_secs: total, completed_sessions: completed, interruptions })
}

/// The totals of the rows whose local time falls in the month `year_month`;
/// `None` where a running total leaves the range of an `i64`.
pub fn monthly_totals(rows: &Vec<SessionRow>, year_month: &str) -> (t: Option<MonthlyTotals>)
    ensures
        exists|cals: Seq<Option<LocalCalendar>>| #[trigger] readings_of(rows@, cals)
            && (t is Some <==> tally_fits(rows@, cals, year_month@))
            && (t matches Some(v) ==> tally(rows@, cals, year_month@)
                == (v.total_focus_secs as int, v.completed_sessions as int, v.interruptions as int)),
{
    let cals = calendars_of(rows);
    let t = tally_rows(rows, &cals, year_month);
    assert(readings_of(rows@, cals@));
    t
}

} // verus!
