//! Decimal rendering of fixed-point values.
//!
//! Weather values (temperatures, wind speeds, percentages) are carried as
//! `i64` counts of hundredths, and are always displayed with exactly two
//! decimal places.

use vstd::prelude::*;

verus! {

/// The character for a single decimal digit value.
pub open spec fn digit_char(d: int) -> char {
    if d == 0 {
        '0'
    } else if d == 1 {
        '1'
    } else if d == 2 {
        '2'
    } else if d == 3 {
        '3'
    } else if d == 4 {
        '4'
    } else if d == 5 {
        '5'
    } else if d == 6 {
        '6'
    } else if d == 7 {
        '7'
    } else if d == 8 {
        '8'
    } else {
        '9'
    }
}

/// Decimal digits of `n`, most significant first, with no leading zeros
/// (a single `'0'` for zero).
pub open spec fn spec_decimal(n: nat) -> Seq<char>
    decreases n,
{
    if n < 10 {
        seq![digit_char(n as int)]
    } else {
        spec_decimal(n / 10).push(digit_char((n % 10) as int))
    }
}

/// Magnitude of an integer.
pub open spec fn mag(v: int) -> nat {
    if v < 0 {
        (-v) as nat
    } else {
        v as nat
    }
}

/// A count of hundredths rendered with an optional leading minus sign and
/// exactly two digits after the decimal point: `-350` renders as `-3.50`.
pub open spec fn spec_centi(v: int) -> Seq<char> {
    let sign: Seq<char> = if v < 0 {
        seq!['-']
    } else {
        Seq::<char>::empty()
    };
    sign + spec_decimal(mag(v) / 100) + seq!['.'] + seq![
        digit_char(((mag(v) / 10) % 10) as int),
        digit_char((mag(v) % 10) as int),
    ]
}

/// The one-character string for a single decimal digit value.
fn digit_str(d: u64) -> (r: &'static str)
    requires
        d < 10,
    ensures
        r@ == seq![digit_char(d as int)],
{
    proof {
        reveal_strlit("0");
        reveal_strlit("1");
        reveal_strlit("2");
        reveal_strlit("3");
        reveal_strlit("4");
        reveal_strlit("5");
        reveal_strlit("6");
        reveal_strlit("7");
        reveal_strlit("8");
        reveal_strlit("9");
    }
    if d == 0 {
        proof {
            assert("0"@ =~= seq![digit_char(0)]);
        }
        "0"
    } else if d == 1 {
        proof {
            assert("1"@ =~= seq![digit_char(1)]);
        }
        "1"
    } else if d == 2 {
        proof {
            assert("2"@ =~= seq![digit_char(2)]);
        }
        "2"
    } else if d == 3 {
        proof {
            assert("3"@ =~= seq![digit_char(3)]);
        }
        "3"
    } else if d == 4 {
        proof {
            assert("4"@ =~= seq![digit_char(4)]);
        }
        "4"
    } else if d == 5 {
        proof {
            assert("5"@ =~= seq![digit_char(5)]);
        }
        "5"
    } else if d == 6 {
        proof {
            assert("6"@ =~= seq![digit_char(6)]);
        }
        "6"
    } else if d == 7 {
        proof {
            assert("7"@ =~= seq![digit_char(7)]);
        }
        "7"
    } else if d == 8 {
        proof {
            assert("8"@ =~= seq![digit_char(8)]);
        }
        "8"
    } else {
        proof {
            assert("9"@ =~= seq![digit_char(9)]);
        }
        "9"
    }
}

/// Appends the decimal digits of `n` to `s`.
fn push_decimal(s: &mut String, n: u64)
    ensures
        final(s)@ == old(s)@ + spec_decimal(n as nat),
    decreases n,
{
    if n < 10 {
        s.append(digit_str(n));
        assert(s@ =~= old(s)@ + spec_decimal(n as nat));
    } else {
        push_decimal(s, n / 10);
        s.append(digit_str(n % 10));
        assert(s@ =~= old(s)@ + spec_decimal(n as nat));
    }
}

/// Renders a count of hundredths with two decimal places, as `spec_centi`
/// describes: `format_centi(2010)` is `"20.10"`.
pub fn format_centi(v: i64) -> (r: String)
    ensures
        r@ == spec_centi(v as int),
{
    let m: u64 = if v >= 0 {
        v as u64
    } else {
        (-(v as i128)) as u64
    };
    proof {
        assert(m as nat == mag(v as int));
    }
    let mut s = String::new();
    if v < 0 {
        s.append("-");
    }
    push_decimal(&mut s, m / 100);
    s.append(".");
    let f = m % 100;
    proof {
        assert(f / 10 == (m / 10) % 10 && f % 10 == m % 10) by (nonlinear_arith)
            requires
                f == m % 100,
        ;
    }
    s.append(digit_str(f / 10));
    s.append(digit_str(f % 10));
    proof {
        reveal_strlit("-");
        reveal_strlit(".");
        assert(s@ =~= spec_centi(v as int));
    }
    s
}

} // verus!
