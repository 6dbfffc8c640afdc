//! The decisions behind the screens: reordering todos by dragging, the
//! labels of the timer, the focus heat map, the forms' input checks.

use vstd::prelude::*;
use crate::model::{Tag, Todo};
use crate::stats::HourFocus;
use crate::timer::{phase_label, phase_name, TimerPhase};
use crate::text::{chars_of, parse_i64_range, push_signed_padded, push_str, signed_decimal, string_of_range, trim_bounds, trimmed};

verus! {

/// The first position of a todo with this id.
pub open spec fn position_of(s: Seq<Todo>, id: i64) -> Option<int>
    decreases s.len(),
{
    if s.len() == 0 {
        None
    } else {
        match position_of(s.drop_last(), id) {
            Some(i) => Some(i),
            None => if s.last().id == id { Some(s.len() - 1) } else { None },
        }
    }
}

proof fn lemma_position_of(s: Seq<Todo>, id: i64)
    ensures
        position_of(s, id) matches Some(i) ==> 0 <= i < s.len() && s[i].id == id
            && forall|j: int| 0 <= j < i ==> s[j].id != id,
        position_of(s, id) is None ==> forall|j: int| 0 <= j < s.len() ==> s[j].id != id,
    decreases s.len(),
{
    if s.len() > 0 {
        lemma_position_of(s.drop_last(), id);
        assert forall|j: int| 0 <= j < s.len() - 1 implies s[j] == s.drop_last()[j] by {}
    }
}

fn find_position(items: &Vec<Todo>, id: i64) -> (r: Option<usize>)
    ensures
        r matches Some(i) ==> position_of(items@, id) == Some(i as int),
        r is None ==> position_of(items@, id) is None,
{
    proof {
        lemma_position_of(items@, id);
    }
    let mut i: usize = 0;
    while i < items.len()
        invariant
            i <= items@.len(),
            forall|j: int| 0 <= j < i ==> items@[j].id != id,
            position_of(items@, id) matches Some(p) ==> 0 <= p < items@.len() && items@[p].id == id
                && forall|j: int| 0 <= j < p ==> items@[j].id != id,
            position_of(items@, id) is None ==> forall|j: int| 0 <= j < items@.len() ==> items@[j].id != id,
        decreases items@.len() - i,
    {
        if items[i].id == id {
            return Some(i);
        }
        i = i + 1;
    }
    None
}

/// The list while a row is dragged over another: the dragged row moves
/// right after the hovered one when dragged down, right before it when
/// dragged up. Dragging over itself, or ids not in the list, change nothing.
pub open spec fn moved_over(s: Seq<Todo>, dragged: i64, hovered: i64) -> Seq<Todo> {
    match (position_of(s, dragged), position_of(s, hovered)) {
        (Some(from), Some(over)) => if dragged == hovered { s } else { s.remove(from).insert(over, s[from]) },
        _ => s,
    }
}

/// Live reordering while dragging `dragged_id` over `hover_over_id`.
pub fn reorder_on_hover(items: &mut Vec<Todo>, dragged_id: i64, hover_over_id: i64)
    ensures
        final(items)@ == moved_over(old(items)@, dragged_id, hover_over_id),
{
    if dragged_id == hover_over_id {
        return;
    }
    let from = match find_position(items, dragged_id) {
        Some(i) => i,
        None => { return; },
    };
    let hovered = match find_position(items, hover_over_id) {
        Some(i) => i,
        None => { return; },
    };
    proof {
        lemma_position_of(old(items)@, dragged_id);
        lemma_position_of(old(items)@, hover_over_id);
    }
    let moved = items.remove(from);
    // Inserted at the hovered row's old index, which, once the dragged row is
    // out, lies just after the hovered row when dragging down and just before
    // it when dragging up.
    items.insert(hovered, moved);
}

/// Dragging a row over another only moves the dragged row: the list keeps
/// the same todos, the dragged one takes the hovered row's place, and the
/// hovered row ends up right before it (dragging down) or right after it
/// (dragging up).
pub proof fn lemma_reorder_moves_one_row(s: Seq<Todo>, dragged: i64, hovered: i64)
    ensures
        moved_over(s, dragged, hovered).len() == s.len(),
        moved_over(s, dragged, hovered).to_multiset() == s.to_multiset(),
        position_of(s, dragged) is Some && position_of(s, hovered) is Some && dragged != hovered ==> {
            let from = position_of(s, dragged)->0;
            let over = position_of(s, hovered)->0;
            let r = moved_over(s, dragged, hovered);
            &&& r[over] == s[from]
            &&& from < over ==> r[over - 1] == s[over]
            &&& from > over ==> r[over + 1] == s[over]
        },
{
    broadcast use vstd::seq_lib::to_multiset_remove, vstd::seq_lib::to_multiset_insert,
        vstd::multiset::group_multiset_axioms;
    lemma_position_of(s, dragged);
    lemma_position_of(s, hovered);
    if position_of(s, dragged) is Some && position_of(s, hovered) is Some && dragged != hovered {
        let from = position_of(s, dragged)->0;
        let over = position_of(s, hovered)->0;
        let removed = s.remove(from);
        assert(s.to_multiset().count(s[from]) > 0) by {
            broadcast use vstd::seq_lib::to_multiset_contains;
            assert(s.contains(s[from]));
        }
        assert(removed.insert(over, s[from]).to_multiset() =~= s.to_multiset());
    }
}

/// The label shown for the timer: the active todo's title during work,
/// otherwise the phase's name.
pub open spec fn timer_caption(phase: TimerPhase, active_title: Option<Seq<char>>) -> Seq<char> {
    match (phase, active_title) {
        (TimerPhase::Work, Some(t)) => t,
        _ => phase_name(phase),
    }
}

/// The title of the first active todo, if any.
pub fn active_title(todos: &Vec<Todo>) -> (r: Option<String>)
    ensures
        r matches Some(t) ==> exists|i: int| 0 <= i < todos@.len() && todos@[i].is_active && todos@[i].title@ == t@
            && forall|j: int| 0 <= j < i ==> !todos@[j].is_active,
        r is None ==> forall|i: int| 0 <= i < todos@.len() ==> !todos@[i].is_active,
{
    let mut i: usize = 0;
    while i < todos.len()
        invariant
            i <= todos@.len(),
            forall|j: int| 0 <= j < i ==> !todos@[j].is_active,
        decreases todos@.len() - i,
    {
        if todos[i].is_active {
            return Some(todos[i].title.clone());
        }
        i = i + 1;
    }
    None
}

pub fn timer_label(phase: TimerPhase, active_title: Option<String>) -> (s: String)
    ensures
        s@ == timer_caption(phase, match active_title { Some(t) => Some(t@), None => None }),
{
    match (phase, active_title) {
        (TimerPhase::Work, Some(t)) => t,
        (p, _) => String::from_str(phase_label(p)),
    }
}

/// ` / <target>` after the pomodoro count of a todo with an estimate.
pub fn target_label(target_count: Option<i64>) -> (s: String)
    ensures
        target_count matches Some(t) ==> s@ == " / "@ + signed_decimal(t as int),
        target_count is None ==> s@ == Seq::<char>::empty(),
{
    match target_count {
        Some(t) => {
            let mut s = String::from_str(" / ");
            push_signed_padded(&mut s, t, 0);
            s
        },
        None => String::new(),
    }
}

/// A title typed into a form, trimmed; none when only white space is left.
pub fn submitted_title(input: &str) -> (r: Option<String>)
    ensures
        r matches Some(t) ==> t@ == trimmed(input@) && t@.len() > 0,
        r is None ==> trimmed(input@).len() == 0,
{
    let cs = chars_of(input);
    let (from, to) = trim_bounds(&cs, 0, cs.len());
    proof {
        assert(cs@.subrange(0, cs@.len() as int) == cs@);
    }
    if from == to {
        None
    } else {
        Some(string_of_range(&cs, from, to))
    }
}

/// The pomodoro estimate typed into the todo form: none when blank,
/// otherwise the whole text read as an integer (none if it is not one).
pub open spec fn estimate_of(input: Seq<char>) -> Option<int> {
    if trimmed(input).len() == 0 { None } else { crate::text::parse_i64_spec(input) }
}

pub fn submitted_estimate(input: &str) -> (r: Option<i64>)
    ensures
        r matches Some(n) ==> estimate_of(input@) == Some(n as int),
        r is None ==> estimate_of(input@) is None,
{
    let cs = chars_of(input);
    let (from, to) = trim_bounds(&cs, 0, cs.len());
    proof {
        assert(cs@.subrange(0, cs@.len() as int) == cs@);
    }
    if from == to {
        return None;
    }
    match parse_i64_range(&cs, 0, cs.len()) {
        Some(n) => Some(n),
        None => None,
    }
}


/// The largest cell of the heat map, 0 for an empty one.
pub fn peak_secs(cells: &Vec<HourFocus>) -> (m: i64)
    ensures
        forall|i: int| 0 <= i < cells@.len() ==> cells@[i].secs <= m,
        cells@.len() == 0 ==> m == 0,
        cells@.len() > 0 ==> exists|i: int| 0 <= i < cells@.len() && cells@[i].secs == m,
{
    if cells.len() == 0 {
        return 0;
    }
    let mut m = cells[0].secs;
    let mut i: usize = 1;
    while i < cells.len()
        invariant
            1 <= i <= cells@.len(),
            forall|k: int| 0 <= k < i ==> cells@[k].secs <= m,
            exists|k: int| 0 <= k < i && cells@[k].secs == m,
        decreases cells@.len() - i,
    {
        if cells[i].secs > m {
            m = cells[i].secs;
        }
        i = i + 1;
    }
    m
}

/// The seconds of one heat-map cell (0 where nothing was recorded).
pub fn cell_secs(cells: &Vec<HourFocus>, weekday: i64, hour: i64) -> (s: i64)
    ensures
        (forall|i: int| 0 <= i < cells@.len() ==> !(cells@[i].weekday == weekday && cells@[i].hour == hour)) ==> s == 0,
        (exists|i: int| 0 <= i < cells@.len() && cells@[i].weekday == weekday && cells@[i].hour == hour) ==>
            exists|i: int| 0 <= i < cells@.len() && cells@[i].weekday == weekday && cells@[i].hour == hour
                && cells@[i].secs == s
                && forall|j: int| 0 <= j < i ==> !(cells@[j].weekday == weekday && cells@[j].hour == hour),
{
    let mut i: usize = 0;
    while i < cells.len()
        invariant
            i <= cells@.len(),
            forall|j: int| 0 <= j < i ==> !(cells@[j].weekday == weekday && cells@[j].hour == hour),
        decreases cells@.len() - i,
    {
        if cells[i].weekday == weekday && cells[i].hour == hour {
            return cells[i].secs;
        }
        i = i + 1;
    }
    0
}

/// Whether an hour lies in a part of the day; a part may run past midnight
/// (`from > to`, like 18 to 4).
pub open spec fn in_part(hour: int, from: int, to: int) -> bool {
    if from <= to { from <= hour <= to } else { hour >= from || hour <= to }
}

/// The seconds of the cells in a part of the day.
pub open spec fn part_total(cells: Seq<HourFocus>, from: int, to: int) -> int
    decreases cells.len(),
{
    if cells.len() == 0 {
        0
    } else {
        part_total(cells.drop_last(), from, to) + if in_part(cells.last().hour as int, from, to) {
            cells.last().secs as int
        } else {
            0
        }
    }
}

/// Whether every running sum of the part, taken cell by cell, fits in an `i64`.
pub open spec fn part_fits(cells: Seq<HourFocus>, from: int, to: int) -> bool
    decreases cells.len(),
{
    cells.len() == 0 || (part_fits(cells.drop_last(), from, to) && i64::MIN <= part_total(cells, from, to) <= i64::MAX)
}

proof fn lemma_part_fits_prefix(cells: Seq<HourFocus>, n: int, from: int, to: int)
    requires
        part_fits(cells, from, to),
        0 <= n <= cells.len(),
    ensures
        part_fits(cells.take(n), from, to),
    decreases cells.len() - n,
{
    if n < cells.len() {
        lemma_part_fits_prefix(cells, n + 1, from, to);
        assert(cells.take(n + 1).drop_last() == cells.take(n));
    } else {
        assert(cells.take(n) == cells);
    }
}

/// The focus seconds in a part of the day (morning 5 to 11, afternoon 12
/// to 17, evening 18 to 4); `None` where a running sum leaves the range of
/// an `i64`.
pub fn part_secs(cells: &Vec<HourFocus>, from: i64, to: i64) -> (s: Option<i64>)
    ensures
        s is Some <==> part_fits(cells@, from as int, to as int),
        s matches Some(v) ==> v == part_total(cells@, from as int, to as int),
{
    let mut sum: i64 = 0;
    let mut i: usize = 0;
    while i < cells.len()
        invariant
            i <= cells@.len(),
            part_fits(cells@.take(i as int), from as int, to as int),
            sum == part_total(cells@.take(i as int), from as int, to as int),
        decreases cells@.len() - i,
    {
        proof {
            assert(cells@.take(i + 1).drop_last() == cells@.take(i as int));
            assert(cells@.take(i + 1).last() == cells@[i as int]);
        }
        let h = cells[i].hour;
        let inside = if from <= to { from <= h && h <= to } else { h >= from || h <= to };
        if inside {
            match sum.checked_add(cells[i].secs) {
                Some(v) => { sum = v; }
                None => {
                    proof {
                        if part_fits(cells@, from as int, to as int) {
                            lemma_part_fits_prefix(cells@, i + 1, from as int, to as int);
                        }
                    }
                    return None;
                }
            }
        }
        i = i + 1;
    }
    proof {
        assert(cells@.take(i as int) == cells@);
    }
    Some(sum)
}

/// The connection settings an MCP client needs, as its configuration text.
pub open spec fn mcp_config_text(port: Seq<char>, token: Seq<char>) -> Seq<char> {
    "{\n  \"mcpServers\": {\n    \"cycl\": {\n      \"url\": \"http://127.0.0.1:"@ + port
        + "/mcp\",\n      \"headers\": { \"Authorization\": \"Bearer "@ + token
        + "\" }\n    }\n  }\n}"@
}

pub fn mcp_config(port: u16, token: &str) -> (s: String)
    ensures
        s@ == mcp_config_text(crate::text::dec_digits(port as nat), token@),
{
    let mut s = String::from_str("{\n  \"mcpServers\": {\n    \"cycl\": {\n      \"url\": \"http://127.0.0.1:");
    crate::text::push_decimal(&mut s, port as u64);
    push_str(&mut s, "/mcp\",\n      \"headers\": { \"Authorization\": \"Bearer ");
    push_str(&mut s, token);
    push_str(&mut s, "\" }\n    }\n  }\n}");
    s
}


/// How many days back the focus-by-tag chart looks for a period name:
/// a month is 30 days, a year 365, anything else a week.
pub fn period_days(period: &str) -> (d: i64)
    ensures
        period@ == "month"@ ==> d == 30,
        period@ == "year"@ ==> d == 365,
        period@ != "month"@ && period@ != "year"@ ==> d == 7,
{
    proof {
        reveal_strlit("month");
        reveal_strlit("year");
        assert("month"@.len() == 5 && "year"@.len() == 4);
    }
    if crate::text::str_eq(period, "month") {
        30
    } else if crate::text::str_eq(period, "year") {
        365
    } else {
        7
    }
}

/// The notification text when a work session ends: the todo's title in
/// quotes and its pomodoro count.
pub fn completion_message(title: &str, pomodoro_count: i64) -> (s: String)
    ensures
        s@ == "\""@ + title@ + "\" finished a session 🍅×"@ + signed_decimal(pomodoro_count as int),
{
    let mut s = String::from_str("\"");
    push_str(&mut s, title);
    push_str(&mut s, "\" finished a session 🍅×");
    push_signed_padded(&mut s, pomodoro_count, 0);
    s
}


/// The todos of one timing, in their order.
pub open spec fn in_category(s: Seq<Todo>, category: Seq<char>) -> Seq<Todo> {
    s.filter(|t: Todo| t.category@ == category)
}

/// Keeps the todos whose timing is `category`.
pub fn filter_by_category(todos: Vec<Todo>, category: &str) -> (r: Vec<Todo>)
    ensures
        r@ == in_category(todos@, category@),
{
    let ghost all = todos@;
    let mut rest = todos;
    let n = rest.len();
    let mut out: Vec<Todo> = Vec::new();
    let mut k: usize = 0;
    while rest.len() > 0
        invariant
            all.len() == n,
            k + rest@.len() == all.len(),
            rest@ == all.skip(k as int),
            out@ == in_category(all.take(k as int), category@),
        decreases rest@.len(),
    {
        let t = rest.remove(0);
        proof {
            assert(all.take(k + 1).drop_last() == all.take(k as int));
            assert(all.take(k + 1).last() == t);
            assert(rest@ == all.skip(k + 1));
            reveal(Seq::filter);
        }
        if crate::text::str_eq(t.category.as_str(), category) {
            out.push(t);
        }
        k = k + 1;
    }
    proof {
        assert(all.take(k as int) == all);
    }
    out
}

/// The id of the first tag with this name.
pub fn find_tag_id(tags: &Vec<Tag>, name: &str) -> (r: Option<i64>)
    ensures
        r matches Some(id) ==> exists|i: int| 0 <= i < tags@.len() && tags@[i].name@ == name@ && tags@[i].id == id
            && forall|j: int| 0 <= j < i ==> tags@[j].name@ != name@,
        r is None ==> forall|i: int| 0 <= i < tags@.len() ==> tags@[i].name@ != name@,
{
    let mut i: usize = 0;
    while i < tags.len()
        invariant
            i <= tags@.len(),
            forall|j: int| 0 <= j < i ==> tags@[j].name@ != name@,
        decreases tags@.len() - i,
    {
        if crate::text::str_eq(tags[i].name.as_str(), name) {
            return Some(tags[i].id);
        }
        i = i + 1;
    }
    None
}

/// Moving `now` back by `back` months stays within `i32`.
pub open spec fn back_fits(now: Seq<char>, back: int) -> bool {
    crate::month::shift_fits(now, -back)
}

/// The months of the tag chart: `count` months ending with `now`, oldest first.
pub fn recent_months(now: &str, count: i32) -> (r: Vec<String>)
    requires
        forall|back: int| 0 <= back < count ==> #[trigger] back_fits(now@, back),
    ensures
        r@.len() == if count > 0 { count as int } else { 0 },
        forall|k: int| 0 <= k < r@.len() ==> (#[trigger] r@[k])@
            == crate::month::year_month_text(crate::month::shifted_total(now@, k - (count - 1))),
{
    let mut out: Vec<String> = Vec::new();
    if count <= 0 {
        return out;
    }
    let mut back: i32 = count - 1;
    while back >= 0
        invariant
            0 <= count - 1 - back <= count,
            -1 <= back < count,
            out@.len() == count - 1 - back,
            forall|back2: int| 0 <= back2 < count ==> #[trigger] back_fits(now@, back2),
            forall|k: int| 0 <= k < out@.len() ==> (#[trigger] out@[k])@
                == crate::month::year_month_text(crate::month::shifted_total(now@, k - (count - 1))),
        decreases back + 1,
    {
        assert(back_fits(now@, back as int));
        let m = crate::month::shift(now, -back);
        out.push(m);
        back = back - 1;
    }
    out
}

/// The names in order of first appearance, each once.
pub open spec fn first_appearances(names: Seq<Seq<char>>) -> Seq<Seq<char>>
    decreases names.len(),
{
    if names.len() == 0 {
        seq![]
    } else {
        let before = first_appearances(names.drop_last());
        if before.contains(names.last()) { before } else { before.push(names.last()) }
    }
}

/// The legend of the tag chart: each tag name once, in the order it first
/// appears over the months.
pub fn legend_names(names: &Vec<String>) -> (r: Vec<String>)
    ensures
        r@.map_values(|s: String| s@) == first_appearances(names@.map_values(|s: String| s@)),
{
    let ghost all = names@.map_values(|s: String| s@);
    let mut out: Vec<String> = Vec::new();
    let mut i: usize = 0;
    while i < names.len()
        invariant
            i <= names@.len(),
            all == names@.map_values(|s: String| s@),
            out@.map_values(|s: String| s@) == first_appearances(all.take(i as int)),
        decreases names@.len() - i,
    {
        let ghost before = out@.map_values(|s: String| s@);
        let mut j: usize = 0;
        let mut seen = false;
        while j < out.len()
            invariant
                j <= out@.len(),
                i < names@.len(),
                before == out@.map_values(|s: String| s@),
                seen <==> exists|k: int| 0 <= k < j && before[k] == names@[i as int]@,
            decreases out@.len() - j,
        {
            proof {
                assert(before[j as int] == out@[j as int]@);
            }
            if crate::text::str_eq(out[j].as_str(), names[i].as_str()) {
                seen = true;
            }
            j = j + 1;
        }
        proof {
            assert(all.take(i + 1).drop_last() == all.take(i as int));
            assert(all.take(i + 1).last() == names@[i as int]@);
            if seen {
                let k = choose|k: int| 0 <= k < j && before[k] == names@[i as int]@;
                assert(before.contains(names@[i as int]@));
            } else {
                assert(!before.contains(names@[i as int]@));
            }
        }
        if !seen {
            let copy = String::from_str(names[i].as_str());
            out.push(copy);
            proof {
                assert(out@.map_values(|s: String| s@) == before.push(names@[i as int]@));
            }
        }
        i = i + 1;
    }
    proof {
        assert(all.take(i as int) == all);
    }
    out
}

/// The running sums of `secs` all fit in an `i64`.
pub open spec fn sum_fits(secs: Seq<i64>) -> bool
    decreases secs.len(),
{
    secs.len() == 0 || (sum_fits(secs.drop_last()) && i64::MIN <= seq_sum(secs) <= i64::MAX)
}

pub open spec fn seq_sum(secs: Seq<i64>) -> int
    decreases secs.len(),
{
    if secs.len() == 0 { 0 } else { seq_sum(secs.drop_last()) + secs.last() }
}

proof fn lemma_sum_fits_prefix(secs: Seq<i64>, n: int)
    requires
        sum_fits(secs),
        0 <= n <= secs.len(),
    ensures
        sum_fits(secs.take(n)),
    decreases secs.len() - n,
{
    if n < secs.len() {
        lemma_sum_fits_prefix(secs, n + 1);
        assert(secs.take(n + 1).drop_last() == secs.take(n));
    } else {
        assert(secs.take(n) == secs);
    }
}

/// A month's total on the tag chart: the sum of its tags' seconds; `None`
/// where a running sum leaves the range of an `i64`.
pub fn total_secs(secs: &Vec<i64>) -> (r: Option<i64>)
    ensures
        r is Some <==> sum_fits(secs@),
        r matches Some(v) ==> v == seq_sum(secs@),
{
    let mut sum: i64 = 0;
    let mut i: usize = 0;
    while i < secs.len()
        invariant
            i <= secs@.len(),
            sum_fits(secs@.take(i as int)),
            sum == seq_sum(secs@.take(i as int)),
        decreases secs@.len() - i,
    {
        proof {
            assert(secs@.take(i + 1).drop_last() == secs@.take(i as int));
            assert(secs@.take(i + 1).last() == secs@[i as int]);
        }
        match sum.checked_add(secs[i]) {
            Some(v) => { sum = v; },
            None => {
                proof {
                    if sum_fits(secs@) {
                        lemma_sum_fits_prefix(secs@, i + 1);
                    }
                }
                return None;
            },
        }
        i = i + 1;
    }
    proof {
        assert(secs@.take(i as int) == secs@);
    }
    Some(sum)
}

/// Whether `ceil(4 * secs / peak) <= level`, for `peak != 0`.
pub open spec fn within_level(secs: int, peak: int, level: int) -> bool {
    if peak > 0 { 4 * secs <= level * peak } else { 4 * secs >= level * peak }
}

/// The shade of a heat-map cell: 0 for an empty cell or an empty map,
/// otherwise `ceil(4 * secs / peak)` held within 1 to 4.
pub open spec fn heat_level_of(secs: int, peak: int) -> int {
    if secs == 0 || peak == 0 {
        0
    } else if within_level(secs, peak, 1) {
        1
    } else if within_level(secs, peak, 2) {
        2
    } else if within_level(secs, peak, 3) {
        3
    } else {
        4
    }
}

/// The shade (0 to 4) of a heat-map cell with `secs` seconds when the
/// busiest cell has `peak`.
pub fn heat_level(secs: i64, peak: i64) -> (l: i64)
    ensures
        l == heat_level_of(secs as int, peak as int),
{
    if secs == 0 || peak == 0 {
        return 0;
    }
    if within(secs, peak, 1) {
        1
    } else if within(secs, peak, 2) {
        2
    } else if within(secs, peak, 3) {
        3
    } else {
        4
    }
}

fn within(secs: i64, peak: i64, level: i64) -> (b: bool)
    requires
        1 <= level <= 3,
    ensures
        b == within_level(secs as int, peak as int, level as int),
{
    let s4: i128 = 4 * (secs as i128);
    let p: i128 = peak as i128;
    let l: i128 = level as i128;
    assert(-0x2_0000_0000_0000_0000 <= l * p <= 0x2_0000_0000_0000_0000) by (nonlinear_arith)
        requires
            1 <= l <= 3,
            -0x8000_0000_0000_0000 <= p <= 0x7fff_ffff_ffff_ffff;
    let lp = l * p;
    if p > 0 { s4 <= lp } else { s4 >= lp }
}

/// The bars of the estimate chart: the last `limit` (estimate, actual) pairs,
/// newest first.
pub open spec fn newest_first(pairs: Seq<(i64, i64)>, limit: int) -> Seq<(i64, i64)> {
    let n = if limit < pairs.len() { limit } else { pairs.len() as int };
    Seq::new(n as nat, |k: int| pairs[pairs.len() - 1 - k])
}

/// The last `limit` (estimate, actual) pairs, newest first.
pub fn recent_estimates(pairs: &Vec<(i64, i64)>, limit: usize) -> (r: Vec<(i64, i64)>)
    ensures
        r@ == newest_first(pairs@, limit as int),
{
    let mut out: Vec<(i64, i64)> = Vec::new();
    let n = pairs.len();
    let mut k: usize = 0;
    while k < limit && k < n
        invariant
            n == pairs@.len(),
            k <= n,
            k <= limit,
            out@.len() == k,
            forall|j: int| 0 <= j < k ==> out@[j] == pairs@[n - 1 - j],
        decreases n - k,
    {
        out.push(pairs[n - 1 - k]);
        k = k + 1;
    }
    assert(k as int == if (limit as int) < n { limit as int } else { n as int });
    assert(out@ =~= newest_first(pairs@, limit as int));
    out
}

/// The scale of the estimate bars: the largest estimate or actual count among
/// the pairs, and at least 1.
pub fn bar_scale(pairs: &Vec<(i64, i64)>) -> (m: i64)
    ensures
        m >= 1,
        forall|k: int| 0 <= k < pairs@.len() ==> pairs@[k].0 <= m && pairs@[k].1 <= m,
        m == 1 || exists|k: int| 0 <= k < pairs@.len() && (pairs@[k].0 == m || pairs@[k].1 == m),
{
    let mut m: i64 = 1;
    let mut k: usize = 0;
    while k < pairs.len()
        invariant
            k <= pairs@.len(),
            m >= 1,
            forall|j: int| 0 <= j < k ==> pairs@[j].0 <= m && pairs@[j].1 <= m,
            m == 1 || exists|j: int| 0 <= j < k && (pairs@[j].0 == m || pairs@[j].1 == m),
        decreases pairs@.len() - k,
    {
        let (e, a) = pairs[k];
        if e > m {
            m = e;
        }
        if a > m {
            m = a;
        }
        k = k + 1;
    }
    m
}

/// Whether some tag among `tags` has this id.
pub open spec fn has_tag_id(tags: Seq<Tag>, id: i64) -> bool {
    exists|i: int| 0 <= i < tags.len() && tags[i].id == id
}

fn contains_tag_id(tags: &Vec<Tag>, id: i64) -> (b: bool)
    ensures
        b == has_tag_id(tags@, id),
{
    let mut i: usize = 0;
    while i < tags.len()
        invariant
            i <= tags@.len(),
            forall|j: int| 0 <= j < i ==> tags@[j].id != id,
        decreases tags@.len() - i,
    {
        if tags[i].id == id {
            return true;
        }
        i = i + 1;
    }
    false
}

/// The tags offered for a todo: those not on it yet, in order.
pub open spec fn not_assigned(all: Seq<Tag>, assigned: Seq<Tag>) -> Seq<Tag> {
    all.filter(|t: Tag| !has_tag_id(assigned, t.id))
}

/// The tags that can still be put on a todo carrying `assigned`.
pub fn available_tags(all: Vec<Tag>, assigned: &Vec<Tag>) -> (r: Vec<Tag>)
    ensures
        r@ == not_assigned(all@, assigned@),
{
    let ghost everything = all@;
    let n = all.len();
    let mut rest = all;
    let mut out: Vec<Tag> = Vec::new();
    let mut k: usize = 0;
    while rest.len() > 0
        invariant
            everything.len() == n,
            k + rest@.len() == n,
            rest@ == everything.skip(k as int),
            out@ == not_assigned(everything.take(k as int), assigned@),
        decreases rest@.len(),
    {
        let t = rest.remove(0);
        proof {
            assert(everything.take(k + 1).drop_last() == everything.take(k as int));
            assert(everything.take(k + 1).last() == t);
            assert(rest@ == everything.skip(k + 1));
            reveal(Seq::filter);
        }
        if !contains_tag_id(assigned, t.id) {
            out.push(t);
        }
        k = k + 1;
    }
    proof {
        assert(everything.take(k as int) == everything);
    }
    out
}

/// The todos, in order, whose tags (`tag_sets[i]` for `todos[i]`) include
/// the tag `tag_id`.
pub open spec fn with_tag_id(todos: Seq<Todo>, tag_sets: Seq<Vec<Tag>>, tag_id: i64) -> Seq<Todo>
    decreases todos.len(),
{
    if todos.len() == 0 || tag_sets.len() != todos.len() {
        seq![]
    } else {
        with_tag_id(todos.drop_last(), tag_sets.drop_last(), tag_id)
            + if has_tag_id(tag_sets.last()@, tag_id) { seq![todos.last()] } else { seq![] }
    }
}

/// The todo list's tag filter: the todos carrying the tag `tag_id`, given
/// each todo's tags.
pub fn filter_by_tag_id(todos: Vec<Todo>, tag_sets: &Vec<Vec<Tag>>, tag_id: i64) -> (r: Vec<Todo>)
    requires
        tag_sets@.len() == todos@.len(),
    ensures
        r@ == with_tag_id(todos@, tag_sets@, tag_id),
{
    let ghost all = todos@;
    let n = todos.len();
    let mut rest = todos;
    let mut kept: Vec<Todo> = Vec::new();
    let mut k: usize = 0;
    while rest.len() > 0
        invariant
            all.len() == n,
            tag_sets@.len() == n,
            k + rest@.len() == n,
            rest@ == all.skip(k as int),
            kept@ == with_tag_id(all.take(k as int), tag_sets@.take(k as int), tag_id),
        decreases rest@.len(),
    {
        let t = rest.remove(0);
        proof {
            assert(all.take(k + 1).drop_last() == all.take(k as int));
            assert(all.take(k + 1).last() == t);
            assert(tag_sets@.take(k + 1).drop_last() == tag_sets@.take(k as int));
            assert(tag_sets@.take(k + 1).last() == tag_sets@[k as int]);
            assert(rest@ == all.skip(k + 1));
        }
        if contains_tag_id(&tag_sets[k], tag_id) {
            kept.push(t);
        }
        k = k + 1;
    }
    proof {
        assert(all.take(k as int) == all);
        assert(tag_sets@.take(k as int) == tag_sets@);
    }
    kept
}

/// Dragging to reorder is offered only while no filter is on.
pub fn reorder_enabled(tag_filter: Option<i64>, category_filter: Option<&str>) -> (b: bool)
    ensures
        b == (tag_filter is None && category_filter is None),
{
    tag_filter.is_none() && category_filter.is_none()
}

/// The timing of a todo made from the list: the timing being filtered on,
/// otherwise the default one.
pub fn new_todo_category(category_filter: Option<&str>) -> (c: String)
    ensures
        category_filter matches Some(f) ==> c@ == f@,
        category_filter is None ==> c@ == crate::category::DEFAULT_CATEGORY@,
{
    match category_filter {
        Some(f) => String::from_str(f),
        None => String::from_str(crate::category::DEFAULT_CATEGORY),
    }
}

/// Rust's `/` on integers: the quotient rounded toward zero.
pub open spec fn trunc_div(a: int, b: int) -> int {
    if (a >= 0) == (b > 0) { (if a >= 0 { a } else { -a }) / (if b > 0 { b } else { -b }) }
    else { -((if a >= 0 { a } else { -a }) / (if b > 0 { b } else { -b })) }
}

/// A tag's share of the focus chart in whole percent: `secs * 100 / total`
/// rounded toward zero.
pub fn focus_percent(secs: i64, total: i64) -> (p: i64)
    requires
        total != 0,
        i64::MIN <= secs * 100 <= i64::MAX,
    ensures
        p == trunc_div(secs * 100, total as int),
{
    let a: i128 = secs as i128 * 100;
    let b: i128 = total as i128;
    let ua: i128 = if a >= 0 { a } else { -a };
    let ub: i128 = if b > 0 { b } else { -b };
    let q: i128 = ua / ub;
    assert(q <= ua) by (nonlinear_arith)
        requires
            ua >= 0,
            ub >= 1,
            q == ua / ub;
    let r: i128 = if (a >= 0) == (b > 0) { q } else { -q };
    assert(i64::MIN <= r <= i64::MAX);
    r as i64
}

} // verus!
