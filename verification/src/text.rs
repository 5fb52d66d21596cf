//! Text handling: comma splitting, trimming, case folding, decimal and
//! calendar-date writing and reading.

use vstd::prelude::*;
use crate::dates::{Date, spec_days_in_month, checked_date};

verus! {

/// Whitespace as the single-line input editor can produce it.
pub open spec fn spec_is_space(c: char) -> bool {
    c == ' ' || c == '\t' || c == '\n' || c == '\r'
}

pub fn is_space(c: char) -> (r: bool)
    ensures
        r == spec_is_space(c),
{
    c == ' ' || c == '\t' || c == '\n' || c == '\r'
}

pub open spec fn spec_is_digit(c: char) -> bool {
    '0' <= c && c <= '9'
}

pub fn is_digit(c: char) -> (r: bool)
    ensures
        r == spec_is_digit(c),
{
    '0' <= c && c <= '9'
}

pub open spec fn spec_digit_val(c: char) -> int {
    c as int - 48
}

pub fn digit_val(c: char) -> (r: u32)
    requires
        spec_is_digit(c),
    ensures
        r as int == spec_digit_val(c),
        r <= 9,
{
    c as u32 - 48
}

/// ASCII capital letters fold to their small forms; everything else is kept.
pub open spec fn spec_lower_char(c: char) -> char {
    if 'A' <= c && c <= 'Z' {
        ((c as u8) + 32) as char
    } else {
        c
    }
}

pub fn lower_char(c: char) -> (r: char)
    ensures
        r == spec_lower_char(c),
{
    if 'A' <= c && c <= 'Z' {
        ((c as u8) + 32) as char
    } else {
        c
    }
}

pub open spec fn spec_lower(s: Seq<char>) -> Seq<char> {
    s.map_values(|c: char| spec_lower_char(c))
}

/// Case-insensitive comparison against an expected word.
pub fn eq_ignore_case(s: &str, t: &str) -> (r: bool)
    ensures
        r == (spec_lower(s@) == spec_lower(t@)),
{
    let n = s.unicode_len();
    let m = t.unicode_len();
    if n != m {
        proof {
            assert(spec_lower(s@).len() == s@.len());
            assert(spec_lower(t@).len() == t@.len());
        }
        return false;
    }
    let mut i: usize = 0;
    while i < n
        invariant
            n == s@.len() == t@.len(),
            0 <= i <= n,
            forall|j: int| 0 <= j < i ==> spec_lower_char(s@[j]) == spec_lower_char(t@[j]),
        decreases n - i,
    {
        if lower_char(s.get_char(i)) != lower_char(t.get_char(i)) {
            proof {
                assert(spec_lower(s@)[i as int] != spec_lower(t@)[i as int]);
            }
            return false;
        }
        i = i + 1;
    }
    proof {
        assert(spec_lower(s@) =~= spec_lower(t@));
    }
    true
}

/// The text split on commas, one sequence per token; an input without commas
/// is the single token it consists of.
pub open spec fn spec_split_commas(s: Seq<char>) -> Seq<Seq<char>>
    decreases s.len(),
{
    if s.len() == 0 {
        seq![Seq::<char>::empty()]
    } else if s[0] == ',' {
        seq![Seq::<char>::empty()] + spec_split_commas(s.drop_first())
    } else {
        let rest = spec_split_commas(s.drop_first());
        seq![seq![s[0]] + rest[0]] + rest.drop_first()
    }
}

pub proof fn lemma_split_commas_len(s: Seq<char>)
    ensures
        spec_split_commas(s).len() >= 1,
    decreases s.len(),
{
    if s.len() > 0 {
        lemma_split_commas_len(s.drop_first());
    }
}

/// When the first `k` characters hold no comma, the first token is exactly
/// that prefix, and the remaining tokens split the rest.
proof fn lemma_split_commas_head(s: Seq<char>, k: int)
    requires
        0 <= k <= s.len(),
        forall|j: int| 0 <= j < k ==> s[j] != ',',
        k == s.len() || s[k] == ',',
    ensures
        k == s.len() ==> spec_split_commas(s) =~~= seq![s],
        k < s.len() ==> spec_split_commas(s) =~~= seq![s.subrange(0, k)] + spec_split_commas(
            s.subrange(k + 1, s.len() as int),
        ),
    decreases s.len(),
{
    lemma_split_commas_len(s);
    if s.len() == 0 {
        assert(spec_split_commas(s) =~~= seq![s]);
    } else if k == 0 {
        assert(s.drop_first() =~= s.subrange(1, s.len() as int));
    } else {
        lemma_split_commas_head(s.drop_first(), k - 1);
        let rest = spec_split_commas(s.drop_first());
        lemma_split_commas_len(s.drop_first());
        if k == s.len() {
            assert(s.drop_first() =~= s.subrange(1, s.len() as int));
            assert(rest =~~= seq![s.drop_first()]);
            assert(seq![s[0]] + rest[0] =~= s);
            assert(spec_split_commas(s) =~~= seq![s]);
        } else {
            assert(s.drop_first().subrange(0, k - 1) =~= s.subrange(1, k));
            assert(s.drop_first().subrange(k, s.len() - 1) =~= s.subrange(k + 1, s.len() as int));
            assert(seq![s[0]] + rest[0] =~= s.subrange(0, k));
            assert(spec_split_commas(s) =~~= seq![s.subrange(0, k)] + spec_split_commas(
                s.subrange(k + 1, s.len() as int),
            ));
        }
    }
}

/// No token produced by the split holds a comma.
pub proof fn lemma_split_commas_no_comma(s: Seq<char>)
    ensures
        forall|i: int|
            0 <= i < spec_split_commas(s).len() ==> !spec_split_commas(s)[i].contains(','),
    decreases s.len(),
{
    if s.len() > 0 {
        lemma_split_commas_no_comma(s.drop_first());
        let rest = spec_split_commas(s.drop_first());
        lemma_split_commas_len(s.drop_first());
        if s[0] != ',' {
            assert forall|i: int|
                0 <= i < spec_split_commas(s).len() implies !spec_split_commas(s)[i].contains(
                ',',
            ) by {
                if i == 0 {
                    assert(!rest[0].contains(','));
                    assert forall|j: int|
                        0 <= j < (seq![s[0]] + rest[0]).len() implies (seq![s[0]] + rest[0])[j]
                        != ',' by {
                        if j > 0 {
                            assert(rest[0][j - 1] != ',');
                        }
                    }
                } else {
                    assert(spec_split_commas(s)[i] == rest[i]);
                }
            }
        }
    }
}

/// Splits the text on commas, keeping every token, even empty ones.
pub fn split_commas(s: &str) -> (r: Vec<String>)
    ensures
        r.deep_view() == spec_split_commas(s@),
{
    let len = s.unicode_len();
    let r = split_from(s, 0, len);
    proof {
        assert(s@.subrange(0, s@.len() as int) =~= s@);
    }
    r
}

fn split_from(s: &str, from: usize, len: usize) -> (r: Vec<String>)
    requires
        0 <= from <= len,
        len == s@.len(),
    ensures
        r.deep_view() == spec_split_commas(s@.subrange(from as int, len as int)),
    decreases len - from,
{
    let ghost tail = s@.subrange(from as int, len as int);
    let mut j: usize = from;
    while j < len && s.get_char(j) != ','
        invariant
            from <= j <= len == s@.len(),
            forall|i: int| from <= i < j ==> s@[i] != ',',
        decreases len - j,
    {
        j = j + 1;
    }
    proof {
        assert(forall|i: int| 0 <= i < j - from ==> tail[i] != ',');
        lemma_split_commas_head(tail, j - from);
    }
    let tok = s.substring_char(from, j).to_owned();
    if j == len {
        let mut r: Vec<String> = Vec::new();
        r.push(tok);
        proof {
            assert(tok@ =~= tail);
            assert(r.deep_view() =~~= spec_split_commas(tail));
        }
        r
    } else {
        let mut rest = split_from(s, j + 1, len);
        let ghost restv = rest.deep_view();
        rest.insert(0, tok);
        proof {
            assert(s@.subrange(j + 1, len as int) =~= tail.subrange(
                j - from + 1,
                tail.len() as int,
            ));
            assert(tok@ =~= tail.subrange(0, j - from));
            assert(rest.deep_view() =~~= spec_split_commas(tail));
        }
        rest
    }
}

pub open spec fn spec_leading_spaces(s: Seq<char>) -> int
    decreases s.len(),
{
    if s.len() > 0 && spec_is_space(s[0]) {
        1 + spec_leading_spaces(s.drop_first())
    } else {
        0
    }
}

pub open spec fn spec_trailing_spaces(s: Seq<char>) -> int
    decreases s.len(),
{
    if s.len() > 0 && spec_is_space(s.last()) {
        1 + spec_trailing_spaces(s.drop_last())
    } else {
        0
    }
}

/// The text with the spaces at both ends removed.
pub open spec fn spec_trim(s: Seq<char>) -> Seq<char> {
    if spec_leading_spaces(s) == s.len() {
        Seq::<char>::empty()
    } else {
        s.subrange(spec_leading_spaces(s), s.len() - spec_trailing_spaces(s))
    }
}

proof fn lemma_leading_spaces_at(s: Seq<char>, a: int)
    requires
        0 <= a <= s.len(),
        forall|j: int| 0 <= j < a ==> spec_is_space(s[j]),
        a == s.len() || !spec_is_space(s[a]),
    ensures
        spec_leading_spaces(s) == a,
    decreases a,
{
    if a == 0 {
    } else {
        assert(spec_is_space(s[0]));
        lemma_leading_spaces_at(s.drop_first(), a - 1);
    }
}

proof fn lemma_trailing_spaces_at(s: Seq<char>, b: int)
    requires
        0 <= b <= s.len(),
        forall|j: int| b <= j < s.len() ==> spec_is_space(s[j]),
        b == 0 || !spec_is_space(s[b - 1]),
    ensures
        spec_trailing_spaces(s) == s.len() - b,
    decreases s.len() - b,
{
    if b == s.len() {
    } else {
        assert(spec_is_space(s.last()));
        lemma_trailing_spaces_at(s.drop_last(), b);
    }
}

/// Removes the spaces at both ends of the text.
pub fn trim(s: &str) -> (r: String)
    ensures
        r@ == spec_trim(s@),
{
    let len = s.unicode_len();
    let mut a: usize = 0;
    while a < len && is_space(s.get_char(a))
        invariant
            0 <= a <= len == s@.len(),
            forall|j: int| 0 <= j < a ==> spec_is_space(s@[j]),
        decreases len - a,
    {
        a = a + 1;
    }
    proof {
        lemma_leading_spaces_at(s@, a as int);
    }
    if a == len {
        let r = String::new();
        proof {
            assert(r@ =~= spec_trim(s@));
        }
        return r;
    }
    let mut b: usize = len;
    while b > a + 1 && is_space(s.get_char(b - 1))
        invariant
            a < b <= len == s@.len(),
            forall|j: int| b <= j < len ==> spec_is_space(s@[j]),
        decreases b,
    {
        b = b - 1;
    }
    proof {
        if spec_is_space(s@[b - 1]) {
            assert(b == a + 1);
            assert(false);
        }
        lemma_trailing_spaces_at(s@, b as int);
    }
    s.substring_char(a, b).to_owned()
}

/// The ten characters `YYYY-MM-DD` for a date.
pub open spec fn spec_digit_char(v: int) -> char {
    if v == 0 {
        '0'
    } else if v == 1 {
        '1'
    } else if v == 2 {
        '2'
    } else if v == 3 {
        '3'
    } else if v == 4 {
        '4'
    } else if v == 5 {
        '5'
    } else if v == 6 {
        '6'
    } else if v == 7 {
        '7'
    } else if v == 8 {
        '8'
    } else {
        '9'
    }
}

pub open spec fn spec_iso_of(d: Date) -> Seq<char> {
    seq![
        spec_digit_char(d.year as int / 1000),
        spec_digit_char((d.year as int / 100) % 10),
        spec_digit_char((d.year as int / 10) % 10),
        spec_digit_char(d.year as int % 10),
        '-',
        spec_digit_char(d.month as int / 10),
        spec_digit_char(d.month as int % 10),
        '-',
        spec_digit_char(d.day as int / 10),
        spec_digit_char(d.day as int % 10),
    ]
}

fn digit_str(v: u32) -> (r: &'static str)
    requires
        v <= 9,
    ensures
        r@ =~= seq![spec_digit_char(v as int)],
{
    proof {
        reveal_strlit("0");
        reveal_strlit("1");
        reveal_strlit("2");
        reveal_strlit("3");
        reveal_strlit("4");
        reveal_strlit("5");
        reveal_strlit("6");
        reveal_strlit("7");
        reveal_strlit("8");
        reveal_strlit("9");
    }
    if v == 0 {
        "0"
    } else if v == 1 {
        "1"
    } else if v == 2 {
        "2"
    } else if v == 3 {
        "3"
    } else if v == 4 {
        "4"
    } else if v == 5 {
        "5"
    } else if v == 6 {
        "6"
    } else if v == 7 {
        "7"
    } else if v == 8 {
        "8"
    } else {
        "9"
    }
}

/// Writes a date as `YYYY-MM-DD`.
pub fn format_iso_date(d: Date) -> (r: String)
    requires
        d.valid(),
    ensures
        r@ == spec_iso_of(d),
{
    let y = d.year as u32;
    let m = d.month as u32;
    let dd = d.day as u32;
    let mut r = String::new();
    r.append(digit_str(y / 1000));
    r.append(digit_str((y / 100) % 10));
    r.append(digit_str((y / 10) % 10));
    r.append(digit_str(y % 10));
    proof {
        reveal_strlit("-");
    }
    r.append("-");
    r.append(digit_str(m / 10));
    r.append(digit_str(m % 10));
    r.append("-");
    r.append(digit_str(dd / 10));
    r.append(digit_str(dd % 10));
    proof {
        assert(r@ =~= spec_iso_of(d));
    }
    r
}

/// The date a strict `YYYY-MM-DD` text names, if any: four year digits, two
/// month digits, two day digits, and the result an actual calendar day.
pub open spec fn spec_parse_iso(s: Seq<char>) -> Option<Date> {
    if s.len() == 10 && s[4] == '-' && s[7] == '-' && spec_is_digit(s[0]) && spec_is_digit(s[1])
        && spec_is_digit(s[2]) && spec_is_digit(s[3]) && spec_is_digit(s[5]) && spec_is_digit(s[6])
        && spec_is_digit(s[8]) && spec_is_digit(s[9]) {
        let y = 1000 * spec_digit_val(s[0]) + 100 * spec_digit_val(s[1]) + 10 * spec_digit_val(
            s[2],
        ) + spec_digit_val(s[3]);
        let m = 10 * spec_digit_val(s[5]) + spec_digit_val(s[6]);
        let d = 10 * spec_digit_val(s[8]) + spec_digit_val(s[9]);
        if 1 <= y && 1 <= m <= 12 && 1 <= d <= spec_days_in_month(y, m) {
            Some(Date { year: y as i32, month: m as u8, day: d as u8 })
        } else {
            None
        }
    } else {
        None
    }
}

/// Reads a strict `YYYY-MM-DD` text.
pub fn parse_iso_date(s: &str) -> (r: Option<Date>)
    ensures
        r == spec_parse_iso(s@),
        r is Some ==> r->0.valid(),
{
    let len = s.unicode_len();
    if len != 10 {
        return None;
    }
    if s.get_char(4) != '-' || s.get_char(7) != '-' {
        return None;
    }
    let c0 = s.get_char(0);
    let c1 = s.get_char(1);
    let c2 = s.get_char(2);
    let c3 = s.get_char(3);
    let c5 = s.get_char(5);
    let c6 = s.get_char(6);
    let c8 = s.get_char(8);
    let c9 = s.get_char(9);
    if !(is_digit(c0) && is_digit(c1) && is_digit(c2) && is_digit(c3) && is_digit(c5) && is_digit(
        c6,
    ) && is_digit(c8) && is_digit(c9)) {
        return None;
    }
    let y = 1000 * digit_val(c0) + 100 * digit_val(c1) + 10 * digit_val(c2) + digit_val(c3);
    let m = 10 * digit_val(c5) + digit_val(c6);
    let d = 10 * digit_val(c8) + digit_val(c9);
    checked_date(y as i64, m as i64, d as i64)
}

/// The decimal writing of a number, most significant digit first.
pub open spec fn spec_decimal_of(n: int) -> Seq<char>
    decreases n,
{
    if n < 10 {
        seq![spec_digit_char(n)]
    } else {
        spec_decimal_of(n / 10).push(spec_digit_char(n % 10))
    }
}

/// Writes a number in decimal.
pub fn decimal_string(n: usize) -> (r: String)
    ensures
        r@ == spec_decimal_of(n as int),
    decreases n,
{
    if n < 10 {
        let d = digit_str(n as u32);
        let r = d.to_owned();
        proof {
            assert(r@ =~= spec_decimal_of(n as int));
        }
        r
    } else {
        proof {
            assert(n as int / 10 == n / 10) by (nonlinear_arith)
                requires
                    n >= 10,
            ;
        }
        let mut r = decimal_string(n / 10);
        r.append(digit_str((n % 10) as u32));
        proof {
            assert(r@ =~= spec_decimal_of(n as int));
        }
        r
    }
}

proof fn lemma_digit_char_val(v: int)
    requires
        0 <= v <= 9,
    ensures
        spec_is_digit(spec_digit_char(v)),
        spec_digit_val(spec_digit_char(v)) == v,
{
}

/// Writing a date and reading it back gives the date again.
pub proof fn lemma_iso_round_trip(d: Date)
    requires
        d.valid(),
    ensures
        spec_parse_iso(spec_iso_of(d)) == Some(d),
{
    let s = spec_iso_of(d);
    let y = d.year as int;
    let m = d.month as int;
    let dd = d.day as int;
    assert(0 <= y / 1000 <= 9 && 0 <= (y / 100) % 10 <= 9 && 0 <= (y / 10) % 10 <= 9 && 0 <= y % 10
        <= 9 && 0 <= m / 10 <= 9 && 0 <= m % 10 <= 9 && 0 <= dd / 10 <= 9 && 0 <= dd % 10 <= 9)
        by (nonlinear_arith)
        requires
            1 <= y <= 9999 && 1 <= m <= 12 && 1 <= dd <= 31,
    ;
    lemma_digit_char_val(y / 1000);
    lemma_digit_char_val((y / 100) % 10);
    lemma_digit_char_val((y / 10) % 10);
    lemma_digit_char_val(y % 10);
    lemma_digit_char_val(m / 10);
    lemma_digit_char_val(m % 10);
    lemma_digit_char_val(dd / 10);
    lemma_digit_char_val(dd % 10);
    assert(1000 * (y / 1000) + 100 * ((y / 100) % 10) + 10 * ((y / 10) % 10) + y % 10 == y)
        by (nonlinear_arith)
        requires
            1 <= y <= 9999,
    ;
    assert(10 * (m / 10) + m % 10 == m) by (nonlinear_arith)
        requires
            1 <= m <= 12,
    ;
    assert(10 * (dd / 10) + dd % 10 == dd) by (nonlinear_arith)
        requires
            1 <= dd <= 31,
    ;
}

} // verus!
