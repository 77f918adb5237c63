//! Parsing of the numeric-string coordinates the geocoding service
//! returns.
//!
//! A coordinate string is an optional minus sign, one to nine integer
//! digits, and optionally a decimal point followed by at least one
//! digit. The value is read into hundredths; fractional digits beyond
//! the second are truncated.

use vstd::prelude::*;

verus! {

/// The numeric value of a digit character, `-1` for any other character.
pub open spec fn char_digit(c: char) -> int {
    if c == '0' {
        0
    } else if c == '1' {
        1
    } else if c == '2' {
        2
    } else if c == '3' {
        3
    } else if c == '4' {
        4
    } else if c == '5' {
        5
    } else if c == '6' {
        6
    } else if c == '7' {
        7
    } else if c == '8' {
        8
    } else if c == '9' {
        9
    } else {
        -1
    }
}

/// Whether a character is a decimal digit.
pub open spec fn is_digit_char(c: char) -> bool {
    char_digit(c) >= 0
}

/// The value of a digit string, most significant digit first.
pub open spec fn digits_value(s: Seq<char>) -> int
    decreases s.len(),
{
    if s.len() == 0 {
        0
    } else {
        digits_value(s.drop_last()) * 10 + char_digit(s.last())
    }
}

/// The first position at or after `i` that does not hold a digit
/// (`b.len()` when every later position does).
pub open spec fn digit_prefix_end(b: Seq<char>, i: int) -> int
    decreases b.len() - i,
{
    if i < 0 || i >= b.len() {
        i
    } else if is_digit_char(b[i]) {
        digit_prefix_end(b, i + 1)
    } else {
        i
    }
}

/// The body of a coordinate (after any minus sign): one to nine integer
/// digits, then either the end or a decimal point followed by at least
/// one digit and nothing else.
pub open spec fn spec_valid_body(b: Seq<char>) -> bool {
    let k = digit_prefix_end(b, 0);
    1 <= k <= 9 && (k == b.len() || (b[k] == '.' && k + 1 < b.len() && digit_prefix_end(b, k + 1)
        == b.len()))
}

/// The value of a valid body, in hundredths, truncated after the second
/// fractional digit.
pub open spec fn spec_body_value(b: Seq<char>) -> int {
    let k = digit_prefix_end(b, 0);
    let whole = digits_value(b.subrange(0, k));
    let d1 = if k + 1 < b.len() {
        char_digit(b[k + 1])
    } else {
        0
    };
    let d2 = if k + 2 < b.len() {
        char_digit(b[k + 2])
    } else {
        0
    };
    whole * 100 + d1 * 10 + d2
}

/// Whether a coordinate string carries a minus sign.
pub open spec fn spec_is_negative(s: Seq<char>) -> bool {
    s.len() > 0 && s[0] == '-'
}

/// The body of a coordinate string: everything after any minus sign.
pub open spec fn spec_body_of(s: Seq<char>) -> Seq<char> {
    if spec_is_negative(s) {
        s.subrange(1, s.len() as int)
    } else {
        s
    }
}

/// A coordinate string: an optional minus sign, then a valid body.
pub open spec fn spec_valid_coordinate(s: Seq<char>) -> bool {
    spec_valid_body(spec_body_of(s))
}

/// The value of a valid coordinate string, in hundredths.
pub open spec fn spec_coordinate_value(s: Seq<char>) -> int {
    if spec_is_negative(s) {
        -spec_body_value(spec_body_of(s))
    } else {
        spec_body_value(spec_body_of(s))
    }
}

/// Ten to the given power.
pub open spec fn pow10(n: nat) -> int
    decreases n,
{
    if n == 0 {
        1
    } else {
        10 * pow10((n - 1) as nat)
    }
}

/// The concrete powers of ten the parser's bounds need.
proof fn lemma_pow10_vals()
    ensures
        pow10(8) == 100_000_000,
        pow10(9) == 1_000_000_000,
{
    reveal_with_fuel(pow10, 11);
}

/// Powers of ten grow with the exponent.
proof fn lemma_pow10_mono(a: nat, b: nat)
    requires
        a <= b,
    ensures
        pow10(a) <= pow10(b),
        pow10(a) >= 1,
    decreases b,
{
    if a < b {
        lemma_pow10_mono(a, (b - 1) as nat);
    } else if b > 0 {
        lemma_pow10_mono((a - 1) as nat, (b - 1) as nat);
    }
}

/// The digit prefix from `i` never ends before `i`.
proof fn lemma_digit_prefix_end_lower(b: Seq<char>, i: int)
    requires
        0 <= i,
    ensures
        digit_prefix_end(b, i) >= i,
    decreases b.len() - i,
{
    if i < b.len() && is_digit_char(b[i]) {
        lemma_digit_prefix_end_lower(b, i + 1);
    }
}

/// If every position in `[i, j)` holds a digit and `j` is the end or a
/// non-digit, then `j` is exactly where the digit prefix from `i` ends.
proof fn lemma_digit_prefix_end_pinned(b: Seq<char>, i: int, j: int)
    requires
        0 <= i <= j <= b.len(),
        forall|m: int| i <= m < j ==> is_digit_char(#[trigger] b[m]),
        j == b.len() || !is_digit_char(b[j]),
    ensures
        digit_prefix_end(b, i) == j,
    decreases j - i,
{
    if i < j {
        lemma_digit_prefix_end_pinned(b, i + 1, j);
    }
}

/// If every position in `[i, j)` holds a digit, the digit prefix from
/// `i` reaches at least `j`.
proof fn lemma_digit_prefix_end_at_least(b: Seq<char>, i: int, j: int)
    requires
        0 <= i <= j <= b.len(),
        forall|m: int| i <= m < j ==> is_digit_char(#[trigger] b[m]),
    ensures
        digit_prefix_end(b, i) >= j,
    decreases j - i,
{
    if i < j {
        lemma_digit_prefix_end_at_least(b, i + 1, j);
    } else {
        lemma_digit_prefix_end_lower(b, i);
    }
}

/// The numeric value of a digit character, `-1` for any other character.
fn digit_of(c: char) -> (d: i64)
    ensures
        d == char_digit(c),
{
    match c {
        '0' => 0,
        '1' => 1,
        '2' => 2,
        '3' => 3,
        '4' => 4,
        '5' => 5,
        '6' => 6,
        '7' => 7,
        '8' => 8,
        '9' => 9,
        _ => -1,
    }
}

/// Parses a coordinate string into hundredths: `Some` exactly on the
/// strings `spec_valid_coordinate` admits, with the value
/// `spec_coordinate_value` gives.
pub fn parse_coordinate(s: &str) -> (r: Option<i64>)
    ensures
        r is Some <==> spec_valid_coordinate(s@),
        r is Some ==> r.unwrap() as int == spec_coordinate_value(s@),
{
    let n = s.unicode_len();
    let neg = n > 0 && s.get_char(0) == '-';
    let start: usize = if neg {
        1
    } else {
        0
    };
    let ghost b: Seq<char> = spec_body_of(s@);
    proof {
        assert(neg == spec_is_negative(s@));
        assert(b.len() == n - start);
        assert(forall|m: int| 0 <= m < b.len() ==> b[m] == s@[m + start]);
    }

    let mut i: usize = start;
    let mut acc: i64 = 0;
    while i < n && digit_of(s.get_char(i)) >= 0
        invariant
            start <= i <= n,
            n == s@.len(),
            i - start <= 9,
            b == spec_body_of(s@),
            neg == spec_is_negative(s@),
            neg ==> start == 1,
            !neg ==> start == 0,
            b.len() == n - start,
            forall|m: int| 0 <= m < b.len() ==> b[m] == s@[m + start],
            forall|m: int| 0 <= m < i - start ==> is_digit_char(#[trigger] b[m]),
            acc == digits_value(b.subrange(0, i - start)),
            0 <= acc,
            acc < pow10((i - start) as nat),
        decreases n - i,
    {
        if i - start == 9 {
            proof {
                assert(is_digit_char(b[9]));
                lemma_digit_prefix_end_at_least(b, 0, 10);
            }
            return None;
        }
        let d = digit_of(s.get_char(i));
        proof {
            lemma_pow10_mono((i - start) as nat, 8);
            lemma_pow10_vals();
            assert(b.subrange(0, i - start + 1).drop_last() =~= b.subrange(0, i - start));
            assert(b.subrange(0, i - start + 1).last() == b[i - start]);
        }
        acc = acc * 10 + d;
        i = i + 1;
    }
    proof {
        lemma_digit_prefix_end_pinned(b, 0, i - start);
        lemma_pow10_mono((i - start) as nat, 9);
        lemma_pow10_vals();
    }
    let ghost k: int = i - start;

    if i == start {
        // no integer digits
        return None;
    }
    if i == n {
        proof {
            assert(b.subrange(0, k) =~= b);
        }
        let v = acc * 100;
        return if neg {
            Some(-v)
        } else {
            Some(v)
        };
    }
    if s.get_char(i) != '.' {
        return None;
    }
    if i + 1 == n {
        // a decimal point with no fractional digits
        return None;
    }

    let mut j = i + 1;
    let mut d1: i64 = 0;
    let mut d2: i64 = 0;
    while j < n
        invariant
            i + 1 <= j <= n,
            n == s@.len(),
            start <= i < n,
            b == spec_body_of(s@),
            neg == spec_is_negative(s@),
            neg ==> start == 1,
            !neg ==> start == 0,
            k == i - start,
            1 <= k <= 9,
            b.len() == n - start,
            forall|m: int| 0 <= m < b.len() ==> b[m] == s@[m + start],
            forall|m: int| i + 1 - start <= m < j - start ==> is_digit_char(#[trigger] b[m]),
            digit_prefix_end(b, 0) == k,
            b[k] == '.',
            acc == digits_value(b.subrange(0, k)),
            0 <= acc < 1_000_000_000,
            j > i + 1 ==> d1 == char_digit(b[i + 1 - start]),
            j > i + 2 ==> d2 == char_digit(b[i + 2 - start]),
            j <= i + 1 ==> d1 == 0,
            j <= i + 2 ==> d2 == 0,
            0 <= d1 <= 9,
            0 <= d2 <= 9,
        decreases n - j,
    {
        let d = digit_of(s.get_char(j));
        if d < 0 {
            proof {
                lemma_digit_prefix_end_pinned(b, k + 1, j - start);
            }
            return None;
        }
        if j == i + 1 {
            d1 = d;
        } else if j == i + 2 {
            d2 = d;
        }
        j = j + 1;
    }
    proof {
        lemma_digit_prefix_end_pinned(b, k + 1, b.len() as int);
    }
    let v = acc * 100 + d1 * 10 + d2;
    if neg {
        Some(-v)
    } else {
        Some(v)
    }
}

} // verus!
