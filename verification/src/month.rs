//! Year-months written `YYYY-MM`: parsing, shifting by whole months, labels.

use vstd::prelude::*;
use crate::text::{
    all_digits, digits_value, lemma_dec_digits_len, lemma_dec_digits_len_le, lemma_dec_digits_value, lemma_zero_pad_value, pow10,
    chars_of, dec_digits, find_char, find_from, lemma_find_from, parse_i32_range, parse_i32_spec,
    push_char, push_padded, push_signed_padded, push_str, signed_decimal, signed_padded, zero_pad,
};

verus! {

/// The text before the first `-` (all of it if there is none).
pub open spec fn first_field(cs: Seq<char>) -> Seq<char> {
    match find_from(cs, 0, '-') {
        Some(i) => cs.take(i),
        None => cs,
    }
}

/// The text between the first and the second `-` (or the end); none without a `-`.
pub open spec fn second_field(cs: Seq<char>) -> Option<Seq<char>> {
    match find_from(cs, 0, '-') {
        Some(i) => match find_from(cs, i + 1, '-') {
            Some(j) => Some(cs.subrange(i + 1, j)),
            None => Some(cs.subrange(i + 1, cs.len() as int)),
        },
        None => None,
    }
}

/// A field read as an `i32`, or `default` when it is missing or malformed.
pub open spec fn field_or(f: Option<Seq<char>>, default: int) -> int {
    match f {
        Some(cs) => match parse_i32_spec(cs) {
            Some(v) => v,
            None => default,
        },
        None => default,
    }
}

/// The year and month of `YYYY-MM`; a malformed year reads as 1970 and a
/// malformed month as 1 (the month is not range-checked).
pub open spec fn year_month_of(cs: Seq<char>) -> (int, int) {
    (field_or(Some(first_field(cs)), 1970), field_or(second_field(cs), 1))
}

/// Reads `YYYY-MM`.
pub fn parse(year_month: &str) -> (r: (i32, i32))
    ensures
        r.0 == year_month_of(year_month@).0,
        r.1 == year_month_of(year_month@).1,
{
    let cs = chars_of(year_month);
    let len = cs.len();
    proof {
        lemma_find_from(cs@, 0, '-');
    }
    match find_char(&cs, 0, '-') {
        Some(i) => {
            let year = match parse_i32_range(&cs, 0, i) {
                Some(y) => y,
                None => 1970,
            };
            proof {
                assert(cs@.subrange(0, i as int) == cs@.take(i as int));
                lemma_find_from(cs@, i + 1, '-');
            }
            let end = match find_char(&cs, i + 1, '-') {
                Some(j) => j,
                None => len,
            };
            let month = match parse_i32_range(&cs, i + 1, end) {
                Some(m) => m,
                None => 1,
            };
            (year, month)
        },
        None => {
            let year = match parse_i32_range(&cs, 0, len) {
                Some(y) => y,
                None => 1970,
            };
            proof {
                assert(cs@.subrange(0, len as int) == cs@);
            }
            (year, 1)
        },
    }
}

/// The month count `year * 12 + (month - 1) + months` that `shift` computes.
pub open spec fn shifted_total(cs: Seq<char>, months: int) -> int {
    year_month_of(cs).0 * 12 + (year_month_of(cs).1 - 1) + months
}

/// Every step of that sum stays within `i32`.
pub open spec fn shift_fits(cs: Seq<char>, months: int) -> bool {
    let (y, m) = year_month_of(cs);
    &&& i32::MIN <= y * 12 <= i32::MAX
    &&& i32::MIN <= m - 1
    &&& i32::MIN <= y * 12 + (m - 1) <= i32::MAX
    &&& i32::MIN <= shifted_total(cs, months) <= i32::MAX
}

/// The `YYYY-MM` text of a month count (`year * 12 + month - 1`).
pub open spec fn year_month_text(total: int) -> Seq<char> {
    signed_padded(total / 12, 4) + seq!['-'] + zero_pad(dec_digits((total % 12 + 1) as nat), 2)
}

/// Moves `YYYY-MM` by `months` months (backwards when negative).
pub fn shift(year_month: &str, months: i32) -> (s: String)
    requires
        shift_fits(year_month@, months as int),
    ensures
        s@ == year_month_text(shifted_total(year_month@, months as int)),
{
    let (year, month) = parse(year_month);
    let total: i32 = year * 12 + (month - 1) + months;
    let t = total as i64;
    let q: i64;
    let r: i64;
    if t >= 0 {
        q = t / 12;
        r = t % 12;
    } else {
        let n: i64 = -t;
        q = -((n + 11) / 12);
        r = t - 12 * q;
    }
    assert(q == (total as int) / 12 && r == (total as int) % 12);
    let mut out = String::new();
    push_signed_padded(&mut out, q, 4);
    push_char(&mut out, '-');
    push_padded(&mut out, (r + 1) as u64, 2);
    out
}

/// The English abbreviation of month `i + 1`, for `0 <= i < 12`.
pub open spec fn month_abbrev(i: int) -> Seq<char> {
    if i == 0 { "Jan"@ }
    else if i == 1 { "Feb"@ }
    else if i == 2 { "Mar"@ }
    else if i == 3 { "Apr"@ }
    else if i == 4 { "May"@ }
    else if i == 5 { "Jun"@ }
    else if i == 6 { "Jul"@ }
    else if i == 7 { "Aug"@ }
    else if i == 8 { "Sep"@ }
    else if i == 9 { "Oct"@ }
    else if i == 10 { "Nov"@ }
    else { "Dec"@ }
}

/// `month - 1` clamped into `0..=11`.
pub open spec fn month_index(month: int) -> int {
    if month - 1 < 0 { 0 } else if month - 1 > 11 { 11 } else { month - 1 }
}

fn month_name(month: i32) -> (s: &'static str)
    ensures
        s@ == month_abbrev(month_index(month as int)),
{
    let i: i64 = month as i64 - 1;
    if i <= 0 { "Jan" }
    else if i == 1 { "Feb" }
    else if i == 2 { "Mar" }
    else if i == 3 { "Apr" }
    else if i == 4 { "May" }
    else if i == 5 { "Jun" }
    else if i == 6 { "Jul" }
    else if i == 7 { "Aug" }
    else if i == 8 { "Sep" }
    else if i == 9 { "Oct" }
    else if i == 10 { "Nov" }
    else { "Dec" }
}

/// `"2026-07"` reads `"Jul 2026"`.
pub fn label(year_month: &str) -> (s: String)
    ensures
        s@ == month_abbrev(month_index(year_month_of(year_month@).1)) + seq![' ']
            + signed_decimal(year_month_of(year_month@).0),
{
    let (year, month) = parse(year_month);
    let mut out = String::new();
    push_str(&mut out, month_name(month));
    push_char(&mut out, ' ');
    push_signed_padded(&mut out, year as i64, 0);
    out
}

/// `"2026-01"` reads `"Jan"`.
pub fn short_label(year_month: &str) -> (s: String)
    ensures
        s@ == month_abbrev(month_index(year_month_of(year_month@).1)),
{
    let (_, month) = parse(year_month);
    let mut out = String::new();
    push_str(&mut out, month_name(month));
    out
}


proof fn lemma_find_first(cs: Seq<char>, start: int, k: int, c: char)
    requires
        0 <= start <= k < cs.len(),
        cs[k] == c,
        forall|j: int| start <= j < k ==> cs[j] != c,
    ensures
        find_from(cs, start, c) == Some(k),
{
    lemma_find_from(cs, start, c);
}

proof fn lemma_padded_digits(n: nat, width: nat)
    requires
        1 <= width,
        n < pow10(width),
    ensures
        zero_pad(dec_digits(n), width).len() == width,
        all_digits(zero_pad(dec_digits(n), width)),
        digits_value(zero_pad(dec_digits(n), width)) == n,
        !zero_pad(dec_digits(n), width).contains('-'),
        !zero_pad(dec_digits(n), width).contains('+'),
{
    lemma_dec_digits_len_le(n, width);
    lemma_dec_digits_value(n);
    lemma_zero_pad_value(dec_digits(n), width);
}

proof fn lemma_parse_padded(p: Seq<char>, n: nat)
    requires
        p.len() >= 1,
        all_digits(p),
        digits_value(p) == n,
        n <= i32::MAX,
        !p.contains('-'),
        !p.contains('+'),
    ensures
        parse_i32_spec(p) == Some(n as int),
{
    assert(p.contains(p[0]));
    assert(!crate::text::sign_negative(p));
    assert(crate::text::unsigned_part(p) == p);
}

/// Reading back the text of a month count in years 0 to 9999 gives its year and month.
pub proof fn lemma_year_month_round_trip(total: int)
    requires
        0 <= total < 120000,
    ensures
        year_month_of(year_month_text(total)) == (total / 12, total % 12 + 1),
{
    reveal_with_fuel(pow10, 5);
    let y = total / 12;
    let mo = total % 12 + 1;
    let ys = zero_pad(dec_digits(y as nat), 4);
    let ms = zero_pad(dec_digits(mo as nat), 2);
    lemma_padded_digits(y as nat, 4);
    lemma_padded_digits(mo as nat, 2);
    let text = year_month_text(total);
    assert(signed_padded(y, 4) == ys);
    assert(text == ys + seq!['-'] + ms);
    assert forall|j: int| 0 <= j < 4 implies text[j] != '-' by {
        assert(text[j] == ys[j]);
        assert(ys.contains(ys[j]));
    }
    lemma_find_first(text, 0, 4, '-');
    assert forall|j: int| 5 <= j < 7 implies text[j] != '-' by {
        assert(text[j] == ms[j - 5]);
        assert(ms.contains(ms[j - 5]));
    }
    lemma_find_from(text, 5, '-');
    assert(find_from(text, 5, '-') is None) by {
        if find_from(text, 5, '-') is Some {
            let k = find_from(text, 5, '-')->0;
            assert(text[k] == '-');
        }
    }
    assert(first_field(text) == ys);
    assert(second_field(text) == Some(ms)) by {
        assert(text.subrange(5, 7) == ms);
    }
    lemma_parse_padded(ys, y as nat);
    lemma_parse_padded(ms, mo as nat);
}

/// Shifting a month by `a` and the result by `b` is shifting it by `a + b`,
/// as long as the intermediate month lies in the years 0 to 9999 (the text
/// of a negative year starts with `-`, which reads back as a missing year).
/// A year 0 to 9999 and a month 1 to 12 written `YYYY-MM` read back as that
/// year and month.
pub proof fn lemma_parse_written_month(year: int, month: int)
    requires
        0 <= year <= 9999,
        1 <= month <= 12,
    ensures
        year_month_of(zero_pad(dec_digits(year as nat), 4) + seq!['-'] + zero_pad(dec_digits(month as nat), 2))
            == (year, month),
{
    let total = year * 12 + month - 1;
    assert(total / 12 == year && total % 12 + 1 == month);
    lemma_year_month_round_trip(total);
    assert(year_month_text(total) == zero_pad(dec_digits(year as nat), 4) + seq!['-'] + zero_pad(dec_digits(month as nat), 2));
}

pub proof fn lemma_shift_composes(ym: Seq<char>, a: int, b: int)
    requires
        shift_fits(ym, a),
        0 <= shifted_total(ym, a) < 120000,
        i32::MIN <= shifted_total(ym, a) + b <= i32::MAX,
    ensures
        shift_fits(year_month_text(shifted_total(ym, a)), b),
        year_month_text(shifted_total(year_month_text(shifted_total(ym, a)), b))
            == year_month_text(shifted_total(ym, a + b)),
{
    let t = shifted_total(ym, a);
    lemma_year_month_round_trip(t);
    assert(shifted_total(year_month_text(t), b) == t + b);
}

/// Shifting the text of a month in the years 0 to 9999 by no months leaves it as it is.
pub proof fn lemma_shift_by_zero(total: int)
    requires
        0 <= total < 120000,
    ensures
        shift_fits(year_month_text(total), 0),
        year_month_text(shifted_total(year_month_text(total), 0)) == year_month_text(total),
{
    lemma_year_month_round_trip(total);
}

} // verus!
