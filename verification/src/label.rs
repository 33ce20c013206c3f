//! Numeric labels: a fixed-point value written with one decimal place.

use vstd::prelude::*;
use vstd::string::StringExecFns;

verus! {

/// The character of a decimal digit.
pub open spec fn digit_char(d: int) -> char {
    if d == 0 {
        '0'
    } else if d == 1 {
        '1'
    } else if d == 2 {
        '2'
    } else if d == 3 {
        '3'
    } else if d == 4 {
        '4'
    } else if d == 5 {
        '5'
    } else if d == 6 {
        '6'
    } else if d == 7 {
        '7'
    } else if d == 8 {
        '8'
    } else {
        '9'
    }
}

/// The decimal numeral of a natural number, without leading zeros.
pub open spec fn decimal_digits(n: nat) -> Seq<char>
    decreases n,
{
    if n < 10 {
        seq![digit_char(n as int)]
    } else {
        decimal_digits(n / 10).push(digit_char((n % 10) as int))
    }
}

/// A magnitude of `magnitude / denominator` thousandths, rounded to
/// tenths. A value halfway between two tenths goes to the even one.
pub open spec fn rounded_tenths(magnitude: nat, denominator: nat) -> nat {
    let d = 100 * denominator;
    let q = magnitude / d;
    let r = magnitude % d;
    if 2 * r > d || (2 * r == d && q % 2 == 1) {
        q + 1
    } else {
        q
    }
}

/// The label of the value `numerator / denominator` thousandths: its sign
/// where it is negative, the whole part, a point, and one decimal digit.
pub open spec fn ratio_text(numerator: int, denominator: int) -> Seq<char> {
    let magnitude = if numerator < 0 {
        (-numerator) as nat
    } else {
        numerator as nat
    };
    let t = rounded_tenths(magnitude, denominator as nat);
    let body = decimal_digits(t / 10) + seq!['.', digit_char((t % 10) as int)];
    if numerator < 0 {
        seq!['-'] + body
    } else {
        body
    }
}

/// The label of a value in thousandths.
pub open spec fn tenths_text(value: int) -> Seq<char> {
    ratio_text(value, 1)
}

/// The one-character text of a decimal digit.
fn digit_str(d: u64) -> (s: &'static str)
    requires
        d < 10,
    ensures
        s@ == seq![digit_char(d as int)],
{
    proof {
        reveal_strlit("0");
        reveal_strlit("1");
        reveal_strlit("2");
        reveal_strlit("3");
        reveal_strlit("4");
        reveal_strlit("5");
        reveal_strlit("6");
        reveal_strlit("7");
        reveal_strlit("8");
        reveal_strlit("9");
    }
    let s = if d == 0 {
        "0"
    } else if d == 1 {
        "1"
    } else if d == 2 {
        "2"
    } else if d == 3 {
        "3"
    } else if d == 4 {
        "4"
    } else if d == 5 {
        "5"
    } else if d == 6 {
        "6"
    } else if d == 7 {
        "7"
    } else if d == 8 {
        "8"
    } else {
        "9"
    };
    assert(s@ =~= seq![digit_char(d as int)]);
    s
}

/// Appends the decimal numeral of `n`, most significant digit first.
fn push_digits(out: &mut String, n: u128)
    ensures
        final(out)@ == old(out)@ + decimal_digits(n as nat),
    decreases n,
{
    if n >= 10 {
        push_digits(out, n / 10);
    }
    out.append(digit_str((n % 10) as u64));
    proof {
        let before = old(out)@;
        if n >= 10 {
            assert(before + decimal_digits((n / 10) as nat) + seq![digit_char((n % 10) as int)]
                =~= before + decimal_digits(n as nat));
        } else {
            assert(before + seq![digit_char((n % 10) as int)] =~= before + decimal_digits(
                n as nat,
            ));
        }
    }
}

/// Writes the value `numerator / denominator` thousandths with one decimal
/// place, as `-12.3`. A negative value keeps its sign even where it rounds
/// to zero.
pub fn format_ratio(numerator: i128, denominator: u64) -> (s: String)
    requires
        denominator > 0,
    ensures
        s@ == ratio_text(numerator as int, denominator as int),
{
    let magnitude: u128 = if numerator < 0 {
        (-(numerator + 1)) as u128 + 1
    } else {
        numerator as u128
    };
    let d: u128 = 100 * (denominator as u128);
    let q: u128 = magnitude / d;
    let r: u128 = magnitude % d;
    let t: u128 = if 2 * r > d || (2 * r == d && q % 2 == 1) {
        q + 1
    } else {
        q
    };
    let mut s = String::new();
    if numerator < 0 {
        s.append("-");
    }
    let ghost signed = s@;
    push_digits(&mut s, t / 10);
    s.append(".");
    s.append(digit_str((t % 10) as u64));
    proof {
        reveal_strlit("-");
        reveal_strlit(".");
        let whole = decimal_digits((t / 10) as nat);
        let last = digit_char((t % 10) as int);
        assert("."@ =~= seq!['.']);
        assert(s@ =~= signed + whole + seq!['.'] + seq![last]);
        assert(whole + seq!['.'] + seq![last] =~= whole + seq!['.', last]);
        if numerator < 0 {
            assert(signed =~= seq!['-']);
            assert(s@ =~= seq!['-'] + (whole + seq!['.', last]));
        } else {
            assert(signed =~= Seq::<char>::empty());
            assert(s@ =~= whole + seq!['.', last]);
        }
    }
    s
}

/// Writes a value in thousandths with one decimal place, as `-12.3`.
/// A negative value keeps its sign even where it rounds to zero.
pub fn format_tenths(value: i64) -> (s: String)
    ensures
        s@ == tenths_text(value as int),
{
    format_ratio(value as i128, 1)
}

} // verus!
