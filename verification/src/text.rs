//! Character-level helpers shared by the record parsers and the name builders.
//!
//! Text is modelled as `Seq<char>`. Executable code scans a `Vec<char>` copy of
//! the text, so that every position is reached in constant time.

use vstd::prelude::*;
use vstd::string::StrSliceExecFns;
use vstd::string::StringExecFns;

verus! {

/// Copies the characters of `s` into a vector, in order.
pub fn to_chars(s: &str) -> (out: Vec<char>)
    ensures
        out@ == s@,
{
    let mut out: Vec<char> = Vec::new();
    for c in it: s.chars()
        invariant
            out@ == it.seq().take(it.index() as int),
    {
        out.push(c);
    }
    out
}

/// The characters of `s` from `from` up to, not including, `to`, as an owned string.
pub fn slice_text(s: &str, from: usize, to: usize) -> (out: String)
    requires
        from <= to <= s@.len(),
    ensures
        out@ == s@.subrange(from as int, to as int),
{
    String::from_str(s.substring_char(from, to))
}

/// Whether two vectors hold the same characters.
pub fn same_chars(a: &Vec<char>, b: &Vec<char>) -> (r: bool)
    ensures
        r == (a@ == b@),
{
    if a.len() != b.len() {
        return false;
    }
    let mut i: usize = 0;
    while i < a.len()
        invariant
            a.len() == b.len(),
            i <= a.len(),
            a@.take(i as int) == b@.take(i as int),
        decreases a.len() - i,
    {
        if a[i] != b[i] {
            return false;
        }
        i += 1;
    }
    assert(a@ == a@.take(a.len() as int));
    assert(b@ == b@.take(b.len() as int));
    true
}

/// Whether two string slices hold the same characters.
pub fn same_text(a: &str, b: &str) -> (r: bool)
    ensures
        r == (a@ == b@),
{
    let x = to_chars(a);
    let y = to_chars(b);
    same_chars(&x, &y)
}

// ---------------------------------------------------------------------------
// Decimal numbers
// ---------------------------------------------------------------------------

/// The character that writes the decimal digit `d`.
pub open spec fn digit_char(d: nat) -> char {
    if d == 0 {
        '0'
    } else if d == 1 {
        '1'
    } else if d == 2 {
        '2'
    } else if d == 3 {
        '3'
    } else if d == 4 {
        '4'
    } else if d == 5 {
        '5'
    } else if d == 6 {
        '6'
    } else if d == 7 {
        '7'
    } else if d == 8 {
        '8'
    } else {
        '9'
    }
}

/// The shortest decimal writing of `n`: no sign, no leading zero but for zero itself.
pub open spec fn decimal(n: nat) -> Seq<char>
    decreases n,
{
    if n < 10 {
        seq![digit_char(n)]
    } else {
        decimal(n / 10).push(digit_char(n % 10))
    }
}

/// The decimal writing of a signed number: a minus sign before the writing of
/// its magnitude where it is negative.
pub open spec fn signed_decimal(i: int) -> Seq<char> {
    if i < 0 {
        seq!['-'] + decimal((-i) as nat)
    } else {
        decimal(i as nat)
    }
}

fn digit_str(d: u8) -> (r: &'static str)
    requires
        d < 10,
    ensures
        r@ == seq![digit_char(d as nat)],
{
    proof {
        reveal_strlit("0");
        reveal_strlit("1");
        reveal_strlit("2");
        reveal_strlit("3");
        reveal_strlit("4");
        reveal_strlit("5");
        reveal_strlit("6");
        reveal_strlit("7");
        reveal_strlit("8");
        reveal_strlit("9");
    }
    let r = if d == 0 {
        "0"
    } else if d == 1 {
        "1"
    } else if d == 2 {
        "2"
    } else if d == 3 {
        "3"
    } else if d == 4 {
        "4"
    } else if d == 5 {
        "5"
    } else if d == 6 {
        "6"
    } else if d == 7 {
        "7"
    } else if d == 8 {
        "8"
    } else {
        "9"
    };
    r
}

/// Writes `n` in decimal.
pub fn decimal_string(n: u64) -> (out: String)
    ensures
        out@ == decimal(n as nat),
    decreases n,
{
    if n < 10 {
        String::from_str(digit_str(n as u8))
    } else {
        let mut out = decimal_string(n / 10);
        out.append(digit_str((n % 10) as u8));
        out
    }
}

/// Writes `i` in decimal, with a minus sign where it is negative.
pub fn signed_decimal_string(i: i32) -> (out: String)
    ensures
        out@ == signed_decimal(i as int),
{
    if i < 0 {
        let magnitude: u64 = (0 - (i as i64)) as u64;
        proof {
            reveal_strlit("-");
        }
        let mut out = String::from_str("-");
        let digits = decimal_string(magnitude);
        out.append(digits.as_str());
        out
    } else {
        decimal_string(i as u64)
    }
}

/// Whether `c` is one of the ten decimal digits.
pub open spec fn is_digit(c: char) -> bool {
    '0' <= c && c <= '9'
}

/// The number a decimal digit stands for; zero for any other character.
pub open spec fn digit_value(c: char) -> nat {
    if is_digit(c) {
        (c as u32 - '0' as u32) as nat
    } else {
        0
    }
}

/// The number that a run of digits writes, most significant digit first.
pub open spec fn digits_value(s: Seq<char>) -> nat
    decreases s.len(),
{
    if s.len() == 0 {
        0
    } else {
        digits_value(s.drop_last()) * 10 + digit_value(s.last())
    }
}

/// Whether `s` is a non-empty run of decimal digits.
pub open spec fn is_number(s: Seq<char>) -> bool {
    s.len() > 0 && forall|i: int| 0 <= i < s.len() ==> is_digit(#[trigger] s[i])
}

/// The value of `s` read as an unsigned decimal number that must not exceed
/// `limit`; `None` where `s` is no such number.
pub open spec fn bounded_number(s: Seq<char>, limit: nat) -> Option<nat> {
    if is_number(s) && digits_value(s) <= limit {
        Some(digits_value(s))
    } else {
        None
    }
}

fn is_digit_char(c: char) -> (r: bool)
    ensures
        r == is_digit(c),
{
    '0' <= c && c <= '9'
}

/// Reads the characters of `s` from `from` up to `to` as an unsigned decimal
/// number.
pub fn parse_number(s: &Vec<char>, from: usize, to: usize) -> (r: Option<u64>)
    requires
        from <= to <= s.len(),
    ensures
        r == match bounded_number(s@.subrange(from as int, to as int), u64::MAX as nat) {
            Some(v) => Some(v as u64),
            None => None,
        },
{
    let ghost text = s@.subrange(from as int, to as int);
    if from == to {
        return None;
    }
    let mut acc: u64 = 0;
    let mut i: usize = from;
    let mut overflow = false;
    while i < to
        invariant
            from <= i <= to <= s.len(),
            text == s@.subrange(from as int, to as int),
            forall|j: int| 0 <= j < i - from ==> is_digit(#[trigger] text[j]),
            !overflow ==> acc == digits_value(text.take(i - from)),
            overflow ==> digits_value(text.take(i - from)) > u64::MAX,
        decreases to - i,
    {
        let c = s[i];
        if !is_digit_char(c) {
            assert(!is_digit(text[i - from]));
            return None;
        }
        let d: u64 = (c as u32 - '0' as u32) as u64;
        proof {
            let next = text.take(i - from + 1);
            assert(next.drop_last() == text.take(i - from));
        }
        if !overflow {
            match acc.checked_mul(10) {
                Some(m) => match m.checked_add(d) {
                    Some(v) => {
                        acc = v;
                    },
                    None => {
                        overflow = true;
                    },
                },
                None => {
                    overflow = true;
                },
            }
        }
        i += 1;
    }
    assert(text.take(to - from) == text);
    if overflow {
        None
    } else {
        Some(acc)
    }
}

// ---------------------------------------------------------------------------
// Whitespace-separated fields
// ---------------------------------------------------------------------------

/// Whether `c` separates fields: a blank, a tab, a line feed, a carriage
/// return, a vertical tab or a form feed.
pub open spec fn is_space(c: char) -> bool {
    c == ' ' || c == '\t' || c == '\n' || c == '\r' || c == '\x0b' || c == '\x0c'
}

/// The first position at or after `i` that holds no separator; the length of
/// `s` where there is none.
pub open spec fn skip_spaces(s: Seq<char>, i: int) -> int
    decreases s.len() - i,
{
    if 0 <= i < s.len() && is_space(s[i]) {
        skip_spaces(s, i + 1)
    } else {
        i
    }
}

/// The first position at or after `i` that holds a separator; the length of
/// `s` where there is none.
pub open spec fn skip_field(s: Seq<char>, i: int) -> int
    decreases s.len() - i,
{
    if 0 <= i < s.len() && !is_space(s[i]) {
        skip_field(s, i + 1)
    } else {
        i
    }
}

/// Where field number `k` (counted from zero) starts, for the fields found at
/// or after position `from`; the length of `s` where there are fewer fields.
pub open spec fn field_start(s: Seq<char>, from: int, k: nat) -> int
    decreases k,
{
    if k == 0 {
        skip_spaces(s, from)
    } else {
        skip_spaces(s, skip_field(s, field_start(s, from, (k - 1) as nat)))
    }
}

/// The bounds of field number `k` among the fields at or after `from`.
pub open spec fn field_bounds(s: Seq<char>, from: int, k: nat) -> Option<(int, int)> {
    let a = field_start(s, from, k);
    if a < s.len() {
        Some((a, skip_field(s, a)))
    } else {
        None
    }
}

/// Field number `k` among the fields at or after `from`: a longest run of
/// characters that are no separators.
pub open spec fn field(s: Seq<char>, from: int, k: nat) -> Option<Seq<char>> {
    match field_bounds(s, from, k) {
        Some((a, b)) => Some(s.subrange(a, b)),
        None => None,
    }
}

pub proof fn lemma_skip_field_bounds(s: Seq<char>, i: int)
    requires
        0 <= i <= s.len(),
    ensures
        i <= skip_field(s, i) <= s.len(),
        i < s.len() && !is_space(s[i]) ==> i < skip_field(s, i),
    decreases s.len() - i,
{
    if i < s.len() && !is_space(s[i]) {
        lemma_skip_field_bounds(s, i + 1);
    }
}

fn is_space_char(c: char) -> (r: bool)
    ensures
        r == is_space(c),
{
    c == ' ' || c == '\t' || c == '\n' || c == '\r' || c == '\x0b' || c == '\x0c'
}

fn skip_spaces_from(s: &Vec<char>, from: usize) -> (r: usize)
    requires
        from <= s.len(),
    ensures
        r == skip_spaces(s@, from as int),
        from <= r <= s.len(),
        r < s.len() ==> !is_space(s@[r as int]),
{
    let mut i: usize = from;
    while i < s.len() && is_space_char(s[i])
        invariant
            from <= i <= s.len(),
            skip_spaces(s@, i as int) == skip_spaces(s@, from as int),
        decreases s.len() - i,
    {
        i += 1;
    }
    i
}

fn skip_field_from(s: &Vec<char>, from: usize) -> (r: usize)
    requires
        from <= s.len(),
    ensures
        r == skip_field(s@, from as int),
        from <= r <= s.len(),
{
    let mut i: usize = from;
    while i < s.len() && !is_space_char(s[i])
        invariant
            from <= i <= s.len(),
            skip_field(s@, i as int) == skip_field(s@, from as int),
        decreases s.len() - i,
    {
        i += 1;
    }
    i
}

/// Finds field number `k` among the whitespace-separated fields of `s` at or
/// after `from`.
pub fn find_field(s: &Vec<char>, from: usize, k: usize) -> (r: Option<(usize, usize)>)
    requires
        from <= s.len(),
    ensures
        match r {
            Some((a, b)) => field_bounds(s@, from as int, k as nat) == Some((a as int, b as int))
                && from <= a < b <= s.len(),
            None => field_bounds(s@, from as int, k as nat) is None,
        },
{
    let mut start: usize = skip_spaces_from(s, from);
    let mut n: usize = 0;
    while n < k
        invariant
            n <= k,
            from <= start <= s.len(),
            start == field_start(s@, from as int, n as nat),
            start < s.len() ==> !is_space(s@[start as int]),
        decreases k - n,
    {
        let end = skip_field_from(s, start);
        start = skip_spaces_from(s, end);
        n += 1;
    }
    if start < s.len() {
        let end = skip_field_from(s, start);
        proof {
            lemma_skip_field_bounds(s@, start as int);
        }
        Some((start, end))
    } else {
        None
    }
}

// ---------------------------------------------------------------------------
// Searching
// ---------------------------------------------------------------------------

/// The first position at or after `from` that holds `c`; the length of `s`
/// where there is none.
pub open spec fn index_of(s: Seq<char>, c: char, from: int) -> int
    decreases s.len() - from,
{
    if 0 <= from < s.len() && s[from] != c {
        index_of(s, c, from + 1)
    } else {
        from
    }
}

/// The last position that holds `c`; `-1` where there is none.
pub open spec fn last_index_of(s: Seq<char>, c: char) -> int
    decreases s.len(),
{
    if s.len() == 0 {
        -1
    } else if s.last() == c {
        s.len() - 1
    } else {
        last_index_of(s.drop_last(), c)
    }
}

pub proof fn lemma_last_index_of_bounds(s: Seq<char>, c: char)
    ensures
        -1 <= last_index_of(s, c) < s.len(),
        last_index_of(s, c) >= 0 ==> s[last_index_of(s, c)] == c,
    decreases s.len(),
{
    if s.len() > 0 && s.last() != c {
        lemma_last_index_of_bounds(s.drop_last(), c);
    }
}

/// Finds the first `c` at or after `from`.
pub fn find_char(s: &Vec<char>, c: char, from: usize) -> (r: usize)
    requires
        from <= s.len(),
    ensures
        r == index_of(s@, c, from as int),
        from <= r <= s.len(),
{
    let mut i: usize = from;
    while i < s.len() && s[i] != c
        invariant
            from <= i <= s.len(),
            index_of(s@, c, i as int) == index_of(s@, c, from as int),
        decreases s.len() - i,
    {
        i += 1;
    }
    i
}

/// Finds the last `c` among the characters of `s` from `from` up to `end`.
pub fn find_last_char(s: &Vec<char>, c: char, from: usize, end: usize) -> (r: Option<usize>)
    requires
        from <= end <= s.len(),
    ensures
        match r {
            Some(i) => last_index_of(s@.subrange(from as int, end as int), c) == i - from && from
                <= i < end,
            None => last_index_of(s@.subrange(from as int, end as int), c) == -1,
        },
{
    let ghost text = s@.subrange(from as int, end as int);
    let mut i: usize = end;
    assert(text.take(end - from) =~= text);
    while i > from
        invariant
            from <= i <= end <= s.len(),
            text == s@.subrange(from as int, end as int),
            last_index_of(text, c) == last_index_of(text.take(i - from), c),
        decreases i,
    {
        proof {
            assert(text.take(i - from).drop_last() =~= text.take(i - from - 1));
        }
        if s[i - 1] == c {
            return Some(i - 1);
        }
        i -= 1;
    }
    None
}

/// Whether `pattern` stands in `s` at position `i`.
pub open spec fn occurs_at(s: Seq<char>, pattern: Seq<char>, i: int) -> bool {
    0 <= i && i + pattern.len() <= s.len() && s.subrange(i, i + pattern.len()) == pattern
}

/// Whether `pattern` stands somewhere in `s`.
pub open spec fn contains_text(s: Seq<char>, pattern: Seq<char>) -> bool {
    exists|i: int| occurs_at(s, pattern, i)
}

fn matches_at(s: &Vec<char>, from: usize, to: usize, pattern: &Vec<char>, i: usize) -> (r: bool)
    requires
        from <= to <= s.len(),
        from <= i,
        i + pattern.len() <= to,
    ensures
        r == occurs_at(s@.subrange(from as int, to as int), pattern@, i - from),
{
    let ghost text = s@.subrange(from as int, to as int);
    let mut j: usize = 0;
    while j < pattern.len()
        invariant
            j <= pattern.len(),
            from <= i,
            i + pattern.len() <= to <= s.len(),
            text == s@.subrange(from as int, to as int),
            forall|k: int| 0 <= k < j ==> text[i - from + k] == pattern@[k],
        decreases pattern.len() - j,
    {
        if s[i + j] != pattern[j] {
            return false;
        }
        j += 1;
    }
    assert(text.subrange(i - from, i - from + pattern.len()) =~= pattern@);
    true
}

/// Whether `pattern` stands somewhere in the characters of `s` from `from` up
/// to `to`.
pub fn range_contains(s: &Vec<char>, from: usize, to: usize, pattern: &Vec<char>) -> (r: bool)
    requires
        from <= to <= s.len(),
    ensures
        r == contains_text(s@.subrange(from as int, to as int), pattern@),
{
    let ghost text = s@.subrange(from as int, to as int);
    if pattern.len() > to - from {
        return false;
    }
    let last: usize = to - pattern.len();
    let mut i: usize = from;
    while i < last
        invariant
            from <= i <= last,
            last == to - pattern.len(),
            from <= to <= s.len(),
            pattern.len() <= to - from,
            text == s@.subrange(from as int, to as int),
            forall|k: int| 0 <= k < i - from ==> !occurs_at(text, pattern@, k),
        decreases last - i,
    {
        if matches_at(s, from, to, pattern, i) {
            return true;
        }
        i += 1;
    }
    if matches_at(s, from, to, pattern, last) {
        return true;
    }
    false
}

} // verus!
