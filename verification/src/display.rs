//! Rendering a dimension vector as a unit suffix.
//!
//! A quantity prints as its numeric SI-base value followed by a suffix
//! built from its dimension vector: for every dimension with a non-zero
//! exponent, a space and the base unit's symbol, and, when the exponent is
//! not one, a caret and the exponent in decimal. The symbols come in a
//! fixed order: kilograms, meters, seconds, amperes, kelvins.

use vstd::prelude::*;

use crate::dim::{Dim, DimModel};

verus! {

/// The character for the decimal digit `d`.
pub open spec fn spec_digit_char(d: int) -> char {
    if d == 0 {
        '0'
    } else if d == 1 {
        '1'
    } else if d == 2 {
        '2'
    } else if d == 3 {
        '3'
    } else if d == 4 {
        '4'
    } else if d == 5 {
        '5'
    } else if d == 6 {
        '6'
    } else if d == 7 {
        '7'
    } else if d == 8 {
        '8'
    } else {
        '9'
    }
}

/// The decimal digits of a nonnegative number, most significant first.
pub open spec fn spec_digits(n: int) -> Seq<char>
    decreases n,
{
    if n < 10 {
        seq![spec_digit_char(n)]
    } else {
        spec_digits(n / 10).push(spec_digit_char(n % 10))
    }
}

/// The decimal rendering of an integer, minus sign included.
pub open spec fn spec_int_str(i: int) -> Seq<char> {
    if i >= 0 {
        spec_digits(i)
    } else {
        seq!['-'] + spec_digits(-i)
    }
}

/// The suffix one dimension contributes: nothing for exponent zero, a
/// space and the symbol, and, for an exponent other than one, a caret and
/// the exponent.
pub open spec fn spec_power_suffix(sym: Seq<char>, e: int) -> Seq<char> {
    if e == 0 {
        Seq::empty()
    } else if e == 1 {
        seq![' '] + sym
    } else {
        seq![' '] + sym + seq!['^'] + spec_int_str(e)
    }
}

/// The unit suffix of a dimension vector, dimensions in the fixed order
/// mass, length, time, current, temperature.
pub open spec fn spec_unit_suffix(d: DimModel) -> Seq<char> {
    spec_power_suffix(seq!['k', 'g'], d.mass) + spec_power_suffix(seq!['m'], d.length)
        + spec_power_suffix(seq!['s'], d.time) + spec_power_suffix(seq!['A'], d.current)
        + spec_power_suffix(seq!['K'], d.temperature)
}

/// The one-character string for the decimal digit `d`.
fn digit_str(d: usize) -> (r: &'static str)
    requires
        d < 10,
    ensures
        r@ == seq![spec_digit_char(d as int)],
{
    if d == 0 {
        proof {
            reveal_strlit("0");
            assert("0"@ =~= seq![spec_digit_char(0)]);
        }
        "0"
    } else if d == 1 {
        proof {
            reveal_strlit("1");
            assert("1"@ =~= seq![spec_digit_char(1)]);
        }
        "1"
    } else if d == 2 {
        proof {
            reveal_strlit("2");
            assert("2"@ =~= seq![spec_digit_char(2)]);
        }
        "2"
    } else if d == 3 {
        proof {
            reveal_strlit("3");
            assert("3"@ =~= seq![spec_digit_char(3)]);
        }
        "3"
    } else if d == 4 {
        proof {
            reveal_strlit("4");
            assert("4"@ =~= seq![spec_digit_char(4)]);
        }
        "4"
    } else if d == 5 {
        proof {
            reveal_strlit("5");
            assert("5"@ =~= seq![spec_digit_char(5)]);
        }
        "5"
    } else if d == 6 {
        proof {
            reveal_strlit("6");
            assert("6"@ =~= seq![spec_digit_char(6)]);
        }
        "6"
    } else if d == 7 {
        proof {
            reveal_strlit("7");
            assert("7"@ =~= seq![spec_digit_char(7)]);
        }
        "7"
    } else if d == 8 {
        proof {
            reveal_strlit("8");
            assert("8"@ =~= seq![spec_digit_char(8)]);
        }
        "8"
    } else {
        proof {
            reveal_strlit("9");
            assert("9"@ =~= seq![spec_digit_char(9)]);
        }
        "9"
    }
}

/// Append the decimal digits of `n`, most significant first.
fn push_digits(s: &mut String, n: usize)
    ensures
        final(s)@ == old(s)@ + spec_digits(n as int),
    decreases n,
{
    if n >= 10 {
        push_digits(s, n / 10);
        s.append(digit_str(n % 10));
        proof {
            assert(s@ =~= old(s)@ + spec_digits(n as int));
        }
    } else {
        s.append(digit_str(n));
        proof {
            assert(s@ =~= old(s)@ + spec_digits(n as int));
        }
    }
}

/// Append the decimal rendering of `e`, minus sign included.
fn push_int(s: &mut String, e: isize)
    ensures
        final(s)@ == old(s)@ + spec_int_str(e as int),
{
    if e >= 0 {
        push_digits(s, e as usize);
    } else {
        proof {
            reveal_strlit("-");
        }
        s.append("-");
        let m: usize = ((-(e + 1)) as usize) + 1;
        assert(m as int == -(e as int));
        push_digits(s, m);
        proof {
            assert("-"@ =~= seq!['-']);
            assert(s@ =~= old(s)@ + spec_int_str(e as int));
        }
    }
}

/// Append the suffix one dimension contributes for symbol `sym` and
/// exponent `e`.
fn push_power_suffix(s: &mut String, sym: &str, e: isize)
    ensures
        final(s)@ == old(s)@ + spec_power_suffix(sym@, e as int),
{
    if e != 0 {
        proof {
            reveal_strlit(" ");
            assert(" "@ =~= seq![' ']);
        }
        s.append(" ");
        s.append(sym);
        if e != 1 {
            proof {
                reveal_strlit("^");
                assert("^"@ =~= seq!['^']);
            }
            s.append("^");
            push_int(s, e);
        }
        proof {
            assert(s@ =~= old(s)@ + spec_power_suffix(sym@, e as int));
        }
    }
}

/// The unit suffix of a dimension vector: for each dimension with a
/// non-zero exponent, a space and its symbol, and, when the exponent is
/// not one, a caret and the exponent.
pub fn unit_suffix(d: &Dim) -> (s: String)
    ensures
        s@ == spec_unit_suffix(d@),
{
    let mut s = String::new();
    proof {
        reveal_strlit("kg");
        reveal_strlit("m");
        reveal_strlit("s");
        reveal_strlit("A");
        reveal_strlit("K");
        assert("kg"@ =~= seq!['k', 'g']);
        assert("m"@ =~= seq!['m']);
        assert("s"@ =~= seq!['s']);
        assert("A"@ =~= seq!['A']);
        assert("K"@ =~= seq!['K']);
    }
    push_power_suffix(&mut s, "kg", d.mass);
    push_power_suffix(&mut s, "m", d.length);
    push_power_suffix(&mut s, "s", d.time);
    push_power_suffix(&mut s, "A", d.current);
    push_power_suffix(&mut s, "K", d.temperature);
    proof {
        assert(s@ =~= spec_unit_suffix(d@));
    }
    s
}

} // verus!
