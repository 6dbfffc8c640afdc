//! Character-level helpers shared by the formatting and parsing code.

use vstd::prelude::*;
use vstd::string::*;

verus! {

/// The ASCII digit for a value below ten.
pub open spec fn digit_char(d: nat) -> char {
    if d == 0 { '0' }
    else if d == 1 { '1' }
    else if d == 2 { '2' }
    else if d == 3 { '3' }
    else if d == 4 { '4' }
    else if d == 5 { '5' }
    else if d == 6 { '6' }
    else if d == 7 { '7' }
    else if d == 8 { '8' }
    else { '9' }
}

/// The value of an ASCII digit, or `None` for any other character.
pub open spec fn digit_value(c: char) -> Option<nat> {
    if '0' <= c && c <= '9' { Some((c as nat - '0' as nat) as nat) } else { None }
}

/// The decimal digits of `n`, most significant first, without leading zeros.
pub open spec fn dec_digits(n: nat) -> Seq<char>
    decreases n,
{
    if n < 10 {
        seq![digit_char(n)]
    } else {
        dec_digits(n / 10).push(digit_char(n % 10))
    }
}

/// `s` left-padded with `'0'` up to `width` characters.
pub open spec fn zero_pad(s: Seq<char>, width: nat) -> Seq<char> {
    if s.len() >= width {
        s
    } else {
        Seq::new((width - s.len()) as nat, |i: int| '0') + s
    }
}

/// How Rust's `{:0w}` renders an integer: a minus sign for negative values,
/// counted in the width, then the zero-padded digits of the magnitude.
pub open spec fn signed_padded(v: int, width: nat) -> Seq<char> {
    if v < 0 {
        seq!['-'] + zero_pad(dec_digits((-v) as nat), if width >= 1 { (width - 1) as nat } else { 0 })
    } else {
        zero_pad(dec_digits(v as nat), width)
    }
}

/// How Rust's `{}` renders an integer.
pub open spec fn signed_decimal(v: int) -> Seq<char> {
    signed_padded(v, 0)
}

pub proof fn lemma_dec_digits_len(n: nat)
    ensures
        dec_digits(n).len() >= 1,
        n < 10 ==> dec_digits(n).len() == 1,
        10 <= n < 100 ==> dec_digits(n).len() == 2,
    decreases n,
{
    if n >= 10 {
        lemma_dec_digits_len(n / 10);
    }
}

/// Appends one character (`String::push`).
#[verifier::external_body]
pub(crate) fn push_char(out: &mut String, c: char)
    ensures
        final(out)@ == old(out)@.push(c),
{
    out.push(c);
}

/// Whether two string slices hold the same characters.
pub(crate) fn str_eq(a: &str, b: &str) -> (r: bool)
    ensures
        r == (a@ == b@),
{
    chars_eq(&chars_of(a), b)
}

/// Appends a string slice.
pub fn push_str(out: &mut String, s: &str)
    ensures
        final(out)@ == old(out)@ + s@,
{
    out.append(s);
}

/// The characters of `s`, in order.
pub fn chars_of(s: &str) -> (r: Vec<char>)
    ensures
        r@ == s@,
{
    let mut out: Vec<char> = Vec::new();
    for c in it: s.chars()
        invariant
            out@ == it.seq().take(it.index() as int),
            it.seq() == s@,
    {
        out.push(c);
        proof {
            assert(it.seq().take(it.index() + 1) == it.seq().take(it.index() as int).push(c));
        }
    }
    out
}

/// The ASCII digit for `d < 10`.
pub fn digit(d: u64) -> (c: char)
    requires
        d < 10,
    ensures
        c == digit_char(d as nat),
{
    if d == 0 { '0' }
    else if d == 1 { '1' }
    else if d == 2 { '2' }
    else if d == 3 { '3' }
    else if d == 4 { '4' }
    else if d == 5 { '5' }
    else if d == 6 { '6' }
    else if d == 7 { '7' }
    else if d == 8 { '8' }
    else { '9' }
}

/// Appends the decimal digits of `n`.
pub fn push_decimal(out: &mut String, n: u64)
    ensures
        final(out)@ == old(out)@ + dec_digits(n as nat),
    decreases n,
{
    if n >= 10 {
        push_decimal(out, n / 10);
    }
    push_char(out, digit(n % 10));
    proof {
        if n >= 10 {
            assert(dec_digits(n as nat) == dec_digits((n / 10) as nat).push(digit_char((n % 10) as nat)));
        }
    }
}

/// Appends the decimal digits of `n`, left-padded with zeros to `width`.
pub fn push_padded(out: &mut String, n: u64, width: u64)
    ensures
        final(out)@ == old(out)@ + zero_pad(dec_digits(n as nat), width as nat),
{
    let len = decimal_len(n);
    let ghost start = out@;
    let mut i: u64 = len;
    while i < width
        invariant
            len == dec_digits(n as nat).len(),
            len <= i,
            i <= width || len == i,
            out@ == start + Seq::new((i - len) as nat, |k: int| '0'),
        decreases width - i,
    {
        push_char(out, '0');
        proof {
            assert(Seq::new((i - len) as nat, |k: int| '0').push('0')
                =~= Seq::new((i + 1 - len) as nat, |k: int| '0'));
        }
        i = i + 1;
    }
    push_decimal(out, n);
    proof {
        if len >= width {
            assert(Seq::new((i - len) as nat, |k: int| '0') =~= Seq::<char>::empty());
            assert(out@ =~= start + zero_pad(dec_digits(n as nat), width as nat));
        } else {
            assert(out@ =~= start + zero_pad(dec_digits(n as nat), width as nat));
        }
    }
}

/// The number of decimal digits of `n`.
pub fn decimal_len(n: u64) -> (len: u64)
    ensures
        len == dec_digits(n as nat).len(),
        1 <= len <= 20,
    decreases n,
{
    if n < 10 {
        1
    } else {
        let l = decimal_len(n / 10);
        proof {
            lemma_dec_digits_len_bound(n as nat);
        }
        l + 1
    }
}

proof fn lemma_dec_digits_len_bound(n: nat)
    requires
        n <= u64::MAX,
    ensures
        dec_digits(n).len() <= 20,
{
    reveal_with_fuel(pow10, 21);
    assert(pow10(20) == 100000000000000000000nat);
    lemma_dec_digits_len_le(n, 20);
}

pub proof fn lemma_dec_digits_len_le(n: nat, k: nat)
    requires
        k >= 1,
        n < pow10(k),
    ensures
        dec_digits(n).len() <= k,
    decreases n,
{
    if n >= 10 {
        assert(k >= 2) by {
            if k == 1 { reveal_with_fuel(pow10, 2); }
        }
        assert(n / 10 < pow10((k - 1) as nat)) by {
            assert(pow10(k) == 10 * pow10((k - 1) as nat));
        }
        lemma_dec_digits_len_le(n / 10, (k - 1) as nat);
    }
}

pub open spec fn pow10(k: nat) -> nat
    decreases k,
{
    if k == 0 { 1 } else { 10 * pow10((k - 1) as nat) }
}

/// Appends `v` as Rust's `{:0w}` renders it.
pub fn push_signed_padded(out: &mut String, v: i64, width: u64)
    ensures
        final(out)@ == old(out)@ + signed_padded(v as int, width as nat),
{
    if v < 0 {
        push_char(out, '-');
        let mag: u64 = if v == i64::MIN { 9223372036854775808u64 } else { (-v) as u64 };
        let w: u64 = if width >= 1 { width - 1 } else { 0 };
        push_padded(out, mag, w);
        proof {
            assert(out@ =~= old(out)@ + signed_padded(v as int, width as nat));
        }
    } else {
        push_padded(out, v as u64, width);
    }
}


/// The position of the first `c` in `cs` at or after `start`.
pub open spec fn find_from(cs: Seq<char>, start: int, c: char) -> Option<int>
    decreases cs.len() - start,
{
    if start < 0 || start >= cs.len() {
        None
    } else if cs[start] == c {
        Some(start)
    } else {
        find_from(cs, start + 1, c)
    }
}

pub proof fn lemma_find_from(cs: Seq<char>, start: int, c: char)
    requires
        0 <= start <= cs.len(),
    ensures
        find_from(cs, start, c) matches Some(i) ==> start <= i < cs.len() && cs[i] == c
            && forall|j: int| start <= j < i ==> cs[j] != c,
        find_from(cs, start, c) is None ==> forall|j: int| start <= j < cs.len() ==> cs[j] != c,
    decreases cs.len() - start,
{
    if start < cs.len() && cs[start] != c {
        lemma_find_from(cs, start + 1, c);
    }
}

/// The position of the first `c` in `cs` at or after `start`.
pub fn find_char(cs: &Vec<char>, start: usize, c: char) -> (r: Option<usize>)
    requires
        start <= cs@.len(),
    ensures
        r matches Some(i) ==> find_from(cs@, start as int, c) == Some(i as int),
        r is None ==> find_from(cs@, start as int, c) is None,
{
    let mut i = start;
    while i < cs.len()
        invariant
            start <= i <= cs@.len(),
            find_from(cs@, start as int, c) == find_from(cs@, i as int, c),
        decreases cs@.len() - i,
    {
        if cs[i] == c {
            return Some(i);
        }
        i = i + 1;
    }
    None
}

/// The characters `cs[from..to]` as a string.
pub fn string_of_range(cs: &Vec<char>, from: usize, to: usize) -> (r: String)
    requires
        from <= to <= cs@.len(),
    ensures
        r@ == cs@.subrange(from as int, to as int),
{
    let mut out = String::new();
    let mut i = from;
    while i < to
        invariant
            from <= i <= to <= cs@.len(),
            out@ == cs@.subrange(from as int, i as int),
        decreases to - i,
    {
        push_char(&mut out, cs[i]);
        proof {
            assert(cs@.subrange(from as int, i + 1) == cs@.subrange(from as int, i as int).push(cs@[i as int]));
        }
        i = i + 1;
    }
    out
}

/// The value of a run of ASCII digits (zero for an empty run).
pub open spec fn digits_value(cs: Seq<char>) -> nat
    decreases cs.len(),
{
    if cs.len() == 0 {
        0
    } else {
        digits_value(cs.drop_last()) * 10 + match digit_value(cs.last()) {
            Some(d) => d,
            None => 0,
        }
    }
}

pub open spec fn all_digits(cs: Seq<char>) -> bool {
    forall|i: int| 0 <= i < cs.len() ==> #[trigger] digit_value(cs[i]) is Some
}

pub open spec fn sign_negative(cs: Seq<char>) -> bool {
    cs.len() > 0 && cs[0] == '-'
}

/// `cs` without a leading sign.
pub open spec fn unsigned_part(cs: Seq<char>) -> Seq<char> {
    if cs.len() > 0 && (cs[0] == '+' || cs[0] == '-') { cs.drop_first() } else { cs }
}

/// What `str::parse` for an integer type with range `lo..=hi` makes of
/// `cs`: an optional `+` or `-`, then at least one ASCII digit and nothing
/// else, with a value in the range.
pub open spec fn parse_int_spec(cs: Seq<char>, lo: int, hi: int) -> Option<int> {
    let negative = sign_negative(cs);
    let body = unsigned_part(cs);
    if body.len() == 0 || !all_digits(body) {
        None
    } else {
        let v: int = if negative { -(digits_value(body) as int) } else { digits_value(body) as int };
        if lo <= v <= hi { Some(v) } else { None }
    }
}

/// `str::parse::<i32>`.
pub open spec fn parse_i32_spec(cs: Seq<char>) -> Option<int> {
    parse_int_spec(cs, i32::MIN as int, i32::MAX as int)
}

/// `str::parse::<i64>`.
pub open spec fn parse_i64_spec(cs: Seq<char>) -> Option<int> {
    parse_int_spec(cs, i64::MIN as int, i64::MAX as int)
}

proof fn lemma_digits_value_mono(cs: Seq<char>, i: int, j: int)
    requires
        0 <= i <= j <= cs.len(),
    ensures
        digits_value(cs.take(i)) <= digits_value(cs.take(j)),
    decreases j - i,
{
    if i < j {
        lemma_digits_value_mono(cs, i, j - 1);
        assert(cs.take(j).drop_last() == cs.take(j - 1));
    }
}

/// `str::parse::<i64>` on `cs[from..to]`.
pub fn parse_i64_range(cs: &Vec<char>, from: usize, to: usize) -> (r: Option<i64>)
    requires
        from <= to <= cs@.len(),
    ensures
        r matches Some(v) ==> parse_i64_spec(cs@.subrange(from as int, to as int)) == Some(v as int),
        r is None ==> parse_i64_spec(cs@.subrange(from as int, to as int)) is None,
{
    let ghost field = cs@.subrange(from as int, to as int);
    let mut start = from;
    let mut negative = false;
    if from < to && (cs[from] == '+' || cs[from] == '-') {
        negative = cs[from] == '-';
        start = from + 1;
    }
    let ghost body = cs@.subrange(start as int, to as int);
    assert(negative == sign_negative(field));
    proof {
        if from < to && (cs@[from as int] == '+' || cs@[from as int] == '-') {
            assert(body == field.drop_first());
        } else {
            assert(body == field);
        }
        assert(body == unsigned_part(field));
    }
    if start == to {
        return None;
    }
    let mut acc: i128 = 0;
    let mut i = start;
    while i < to
        invariant
            from <= start < to <= cs@.len(),
            start <= i <= to,
            field == cs@.subrange(from as int, to as int),
            body == unsigned_part(field),
            negative == sign_negative(field),
            body == cs@.subrange(start as int, to as int),
            all_digits(body.take(i - start)),
            acc == digits_value(body.take(i - start)),
            acc <= 9223372036854775808,
        decreases to - i,
    {
        let c = cs[i];
        proof {
            assert(body[i - start] == c);
        }
        if c < '0' || c > '9' {
            assert(digit_value(body[i - start]) is None);
            assert(!all_digits(body));
            return None;
        }
        let d: i128 = if c == '0' { 0 } else if c == '1' { 1 } else if c == '2' { 2 } else if c == '3' { 3 }
            else if c == '4' { 4 } else if c == '5' { 5 } else if c == '6' { 6 } else if c == '7' { 7 }
            else if c == '8' { 8 } else { 9 };
        proof {
            assert(digit_value(c) == Some(d as nat));
            assert(body.take(i - start + 1).drop_last() == body.take(i - start));
            assert(body.take(i - start + 1).last() == c);
        }
        let next = acc * 10 + d;
        proof {
            assert(all_digits(body.take(i - start + 1))) by {
                assert forall|k: int| 0 <= k < body.take(i - start + 1).len() implies
                    #[trigger] digit_value(body.take(i - start + 1)[k]) is Some by {
                    if k < i - start {
                        assert(body.take(i - start + 1)[k] == body.take(i - start)[k]);
                    }
                }
            }
        }
        if next > 9223372036854775808 {
            proof {
                lemma_digits_value_mono(body, i - start + 1, body.len() as int);
                assert(body.take(body.len() as int) == body);
            }
            return None;
        }
        acc = next;
        i = i + 1;
    }
    proof {
        assert(body.take(i - start) == body);
    }
    if negative {
        Some((-acc) as i64)
    } else if acc > 9223372036854775807 {
        None
    } else {
        Some(acc as i64)
    }
}


/// Unicode `White_Space`, what `char::is_whitespace` tests.
pub open spec fn is_white(c: char) -> bool {
    ||| ('\u{9}' <= c && c <= '\u{d}')
    ||| c == ' '
    ||| c == '\u{85}'
    ||| c == '\u{a0}'
    ||| c == '\u{1680}'
    ||| ('\u{2000}' <= c && c <= '\u{200a}')
    ||| c == '\u{2028}'
    ||| c == '\u{2029}'
    ||| c == '\u{202f}'
    ||| c == '\u{205f}'
    ||| c == '\u{3000}'
}

pub fn is_white_char(c: char) -> (b: bool)
    ensures
        b == is_white(c),
{
    ('\u{9}' <= c && c <= '\u{d}') || c == ' ' || c == '\u{85}' || c == '\u{a0}' || c == '\u{1680}'
        || ('\u{2000}' <= c && c <= '\u{200a}') || c == '\u{2028}' || c == '\u{2029}'
        || c == '\u{202f}' || c == '\u{205f}' || c == '\u{3000}'
}

/// The number of leading white-space characters of `cs`.
pub open spec fn lead_white(cs: Seq<char>) -> nat
    decreases cs.len(),
{
    if cs.len() > 0 && is_white(cs[0]) { 1 + lead_white(cs.drop_first()) } else { 0 }
}

/// The number of trailing white-space characters of `cs`.
pub open spec fn trail_white(cs: Seq<char>) -> nat
    decreases cs.len(),
{
    if cs.len() > 0 && is_white(cs.last()) { 1 + trail_white(cs.drop_last()) } else { 0 }
}

/// `str::trim`: `cs` without leading and trailing white space.
pub open spec fn trimmed(cs: Seq<char>) -> Seq<char> {
    let front = cs.skip(lead_white(cs) as int);
    front.take(front.len() - trail_white(front))
}

proof fn lemma_lead_white_step(cs: Seq<char>, i: int)
    requires
        0 <= i <= cs.len(),
        forall|k: int| 0 <= k < i ==> is_white(#[trigger] cs[k]),
    ensures
        lead_white(cs) == i + lead_white(cs.skip(i)),
    decreases i,
{
    if i > 0 {
        assert(is_white(cs[0]));
        assert(cs.skip(1) == cs.drop_first());
        assert forall|k: int| 0 <= k < i - 1 implies is_white(#[trigger] cs.skip(1)[k]) by {
            assert(cs.skip(1)[k] == cs[k + 1]);
        }
        lemma_lead_white_step(cs.skip(1), i - 1);
        assert(cs.skip(1).skip(i - 1) == cs.skip(i));
    } else {
        assert(cs.skip(0) =~= cs);
    }
}

proof fn lemma_trail_white_step(cs: Seq<char>, j: int)
    requires
        0 <= j <= cs.len(),
        forall|k: int| j <= k < cs.len() ==> is_white(#[trigger] cs[k]),
    ensures
        trail_white(cs) == (cs.len() - j) + trail_white(cs.take(j)),
    decreases cs.len() - j,
{
    if j < cs.len() {
        assert(is_white(cs[cs.len() - 1]));
        assert forall|k: int| j <= k < cs.drop_last().len() implies is_white(#[trigger] cs.drop_last()[k]) by {
            assert(cs.drop_last()[k] == cs[k]);
        }
        lemma_trail_white_step(cs.drop_last(), j);
        assert(cs.drop_last().take(j) == cs.take(j));
    } else {
        assert(cs.take(j) =~= cs);
    }
}

/// The bounds `[from, to)` of `cs[start..end]` trimmed of white space.
pub fn trim_bounds(cs: &Vec<char>, start: usize, end: usize) -> (r: (usize, usize))
    requires
        start <= end <= cs@.len(),
    ensures
        start <= r.0 <= r.1 <= end,
        cs@.subrange(r.0 as int, r.1 as int) == trimmed(cs@.subrange(start as int, end as int)),
{
    let ghost field = cs@.subrange(start as int, end as int);
    let mut i = start;
    while i < end && is_white_char(cs[i])
        invariant
            start <= i <= end <= cs@.len(),
            field == cs@.subrange(start as int, end as int),
            forall|k: int| 0 <= k < i - start ==> is_white(#[trigger] field[k]),
        decreases end - i,
    {
        i = i + 1;
    }
    proof {
        lemma_lead_white_step(field, i - start);
        assert(field.skip(i - start) == cs@.subrange(i as int, end as int));
        if i < end {
            assert(field.skip(i - start)[0] == cs@[i as int]);
        }
        assert(lead_white(field.skip(i - start)) == 0);
    }
    let ghost front = cs@.subrange(i as int, end as int);
    let mut j = end;
    while j > i && is_white_char(cs[j - 1])
        invariant
            start <= i <= j <= end <= cs@.len(),
            front == cs@.subrange(i as int, end as int),
            forall|k: int| j - i <= k < front.len() ==> is_white(#[trigger] front[k]),
        decreases j - i,
    {
        j = j - 1;
    }
    proof {
        lemma_trail_white_step(front, j - i);
        assert(front.take(j - i) == cs@.subrange(i as int, j as int));
        if j > i {
            assert(front.take(j - i).last() == cs@[j - 1]);
        }
        assert(trail_white(front.take(j - i)) == 0);
    }
    (i, j)
}

/// Whether `cs[start..start + pat.len()]` is `pat`.
pub open spec fn occurs_at(cs: Seq<char>, pat: Seq<char>, i: int) -> bool {
    0 <= i && i + pat.len() <= cs.len() && cs.subrange(i, i + pat.len()) == pat
}

/// The first position of `pat` in `cs` at or after `start`.
pub open spec fn find_seq_from(cs: Seq<char>, pat: Seq<char>, start: int) -> Option<int>
    decreases cs.len() + 1 - start,
{
    if start < 0 || start + pat.len() > cs.len() {
        None
    } else if occurs_at(cs, pat, start) {
        Some(start)
    } else {
        find_seq_from(cs, pat, start + 1)
    }
}

/// Whether `pat` occurs in `cs` at `i`.
pub fn matches_at(cs: &Vec<char>, pat: &Vec<char>, i: usize) -> (b: bool)
    ensures
        b == occurs_at(cs@, pat@, i as int),
{
    if i > cs.len() || pat.len() > cs.len() - i {
        return false;
    }
    let n = cs.len();
    let mut k: usize = 0;
    while k < pat.len()
        invariant
            n == cs@.len(),
            i + pat@.len() <= cs@.len(),
            i <= cs@.len(),
            k <= pat@.len(),
            forall|m: int| 0 <= m < k ==> cs@[i + m] == pat@[m],
        decreases pat@.len() - k,
    {
        assert(i + k < cs@.len());
        if cs[i + k] != pat[k] {
            assert(cs@.subrange(i as int, i + pat@.len())[k as int] != pat@[k as int]);
            return false;
        }
        k = k + 1;
    }
    assert(cs@.subrange(i as int, i + pat@.len()) =~= pat@);
    true
}

/// The first position of `pat` in `cs` at or after `start`.
pub fn find_seq(cs: &Vec<char>, pat: &Vec<char>, start: usize) -> (r: Option<usize>)
    ensures
        r matches Some(i) ==> find_seq_from(cs@, pat@, start as int) == Some(i as int),
        r is None ==> find_seq_from(cs@, pat@, start as int) is None,
{
    if start > cs.len() {
        return None;
    }
    let mut i = start;
    while i < cs.len() && pat.len() <= cs.len() - i
        invariant
            start <= i <= cs@.len(),
            find_seq_from(cs@, pat@, start as int) == find_seq_from(cs@, pat@, i as int),
        decreases cs@.len() + 1 - i,
    {
        if matches_at(cs, pat, i) {
            return Some(i);
        }
        i = i + 1;
    }
    if matches_at(cs, pat, i) {
        Some(i)
    } else {
        assert(find_seq_from(cs@, pat@, i as int + 1) is None);
        None
    }
}


/// `cs[from..to]` as its own vector.
pub fn sub_chars(cs: &Vec<char>, from: usize, to: usize) -> (r: Vec<char>)
    requires
        from <= to <= cs@.len(),
    ensures
        r@ == cs@.subrange(from as int, to as int),
{
    let mut out: Vec<char> = Vec::new();
    let mut i = from;
    while i < to
        invariant
            from <= i <= to <= cs@.len(),
            out@ == cs@.subrange(from as int, i as int),
        decreases to - i,
    {
        out.push(cs[i]);
        proof {
            assert(cs@.subrange(from as int, i + 1) == cs@.subrange(from as int, i as int).push(cs@[i as int]));
        }
        i = i + 1;
    }
    out
}

/// The text before the first `c` (all of it if there is none): the first
/// piece of `str::split(c)`.
pub open spec fn before_char(cs: Seq<char>, c: char) -> Seq<char> {
    match find_from(cs, 0, c) {
        Some(i) => cs.take(i),
        None => cs,
    }
}

/// The first piece of `str::split(c)`.
pub fn before_char_of(cs: &Vec<char>, c: char) -> (r: Vec<char>)
    ensures
        r@ == before_char(cs@, c),
{
    match find_char(cs, 0, c) {
        Some(i) => {
            proof {
                lemma_find_from(cs@, 0, c);
            }
            let r = sub_chars(cs, 0, i);
            assert(r@ == cs@.take(i as int));
            r
        },
        None => {
            let r = sub_chars(cs, 0, cs.len());
            assert(r@ == cs@);
            r
        },
    }
}

/// The characters of a string literal or slice, compared with a vector's.
pub fn chars_eq(a: &Vec<char>, b: &str) -> (r: bool)
    ensures
        r == (a@ == b@),
{
    let bs = chars_of(b);
    if a.len() != bs.len() {
        return false;
    }
    let mut i: usize = 0;
    while i < a.len()
        invariant
            a@.len() == bs@.len(),
            i <= a@.len(),
            bs@ == b@,
            forall|k: int| 0 <= k < i ==> a@[k] == bs@[k],
        decreases a@.len() - i,
    {
        if a[i] != bs[i] {
            return false;
        }
        i = i + 1;
    }
    assert(a@ =~= bs@);
    true
}


pub proof fn lemma_digit_char_value(d: nat)
    requires
        d < 10,
    ensures
        digit_value(digit_char(d)) == Some(d),
{
}

/// Reading back the digits of `n` gives `n`.
pub proof fn lemma_dec_digits_value(n: nat)
    ensures
        all_digits(dec_digits(n)),
        digits_value(dec_digits(n)) == n,
        !dec_digits(n).contains('-'),
        !dec_digits(n).contains('+'),
    decreases n,
{
    if n < 10 {
        lemma_digit_char_value(n);
        let s = dec_digits(n);
        assert(s.drop_last() =~= Seq::<char>::empty());
        assert(digits_value(s.drop_last()) == 0);
        assert(s[0] == digit_char(n));
    } else {
        lemma_dec_digits_value(n / 10);
        lemma_digit_char_value(n % 10);
        let s = dec_digits(n);
        assert(s.drop_last() == dec_digits(n / 10));
        assert(s.last() == digit_char(n % 10));
        assert forall|i: int| 0 <= i < s.len() implies #[trigger] digit_value(s[i]) is Some by {
            if i < s.len() - 1 {
                assert(s[i] == dec_digits(n / 10)[i]);
            }
        }
        assert forall|i: int| 0 <= i < s.len() implies s[i] != '-' && s[i] != '+' by {
            if i < s.len() - 1 {
                assert(s[i] == dec_digits(n / 10)[i]);
                assert(dec_digits(n / 10).contains(dec_digits(n / 10)[i]));
            }
        }
    }
}

/// Leading zeros do not change the value of a run of digits.
pub proof fn lemma_zero_pad_value(s: Seq<char>, width: nat)
    requires
        all_digits(s),
    ensures
        all_digits(zero_pad(s, width)),
        digits_value(zero_pad(s, width)) == digits_value(s),
        forall|c: char| zero_pad(s, width).contains(c) ==> c == '0' || s.contains(c),
    decreases s.len(),
{
    let p = zero_pad(s, width);
    if s.len() < width {
        let z = Seq::new((width - s.len()) as nat, |i: int| '0');
        assert(p == z + s);
        lemma_zeros_then(z, s);
        assert forall|c: char| p.contains(c) implies c == '0' || s.contains(c) by {
            let i = choose|i: int| 0 <= i < p.len() && p[i] == c;
            if i >= z.len() {
                assert(p[i] == s[i - z.len()]);
            }
        }
    }
}

proof fn lemma_zeros_then(z: Seq<char>, s: Seq<char>)
    requires
        forall|i: int| 0 <= i < z.len() ==> z[i] == '0',
        all_digits(s),
    ensures
        all_digits(z + s),
        digits_value(z + s) == digits_value(s),
    decreases s.len(),
{
    let t = z + s;
    assert forall|i: int| 0 <= i < t.len() implies #[trigger] digit_value(t[i]) is Some by {
        if i < z.len() {
            assert(t[i] == z[i]);
        } else {
            assert(t[i] == s[i - z.len()]);
        }
    }
    if s.len() == 0 {
        assert(t == z);
        lemma_zeros_value(z);
    } else {
        assert(all_digits(s.drop_last())) by {
            assert forall|i: int| 0 <= i < s.drop_last().len() implies #[trigger] digit_value(s.drop_last()[i]) is Some by {
                assert(s.drop_last()[i] == s[i]);
            }
        }
        lemma_zeros_then(z, s.drop_last());
        assert(t.drop_last() == z + s.drop_last());
        assert(t.last() == s.last());
    }
}

proof fn lemma_zeros_value(z: Seq<char>)
    requires
        forall|i: int| 0 <= i < z.len() ==> z[i] == '0',
    ensures
        digits_value(z) == 0,
    decreases z.len(),
{
    if z.len() > 0 {
        assert forall|i: int| 0 <= i < z.drop_last().len() implies z.drop_last()[i] == '0' by {
            assert(z.drop_last()[i] == z[i]);
        }
        lemma_zeros_value(z.drop_last());
        assert(z.last() == '0');
    }
}

/// `str::parse::<i32>` on `cs[from..to]`.
pub fn parse_i32_range(cs: &Vec<char>, from: usize, to: usize) -> (r: Option<i32>)
    requires
        from <= to <= cs@.len(),
    ensures
        r matches Some(v) ==> parse_i32_spec(cs@.subrange(from as int, to as int)) == Some(v as int),
        r is None ==> parse_i32_spec(cs@.subrange(from as int, to as int)) is None,
{
    match parse_i64_range(cs, from, to) {
        Some(v) => {
            if v < -2147483648 || v > 2147483647 {
                None
            } else {
                Some(v as i32)
            }
        },
        None => None,
    }
}

} // verus!
