//! Amounts as text: ten-thousandths written with four fractional digits.

use vstd::prelude::*;
use vstd::string::StringExecFns;

verus! {

/// The character of a decimal digit.
pub open spec fn digit(d: int) -> char
    recommends
        0 <= d <= 9,
{
    if d == 0 {
        '0'
    } else if d == 1 {
        '1'
    } else if d == 2 {
        '2'
    } else if d == 3 {
        '3'
    } else if d == 4 {
        '4'
    } else if d == 5 {
        '5'
    } else if d == 6 {
        '6'
    } else if d == 7 {
        '7'
    } else if d == 8 {
        '8'
    } else {
        '9'
    }
}

/// The decimal digits of `n`, most significant first, without leading zeros
/// (a single `0` for zero).
pub open spec fn digits(n: nat) -> Seq<char>
    decreases n,
{
    if n < 10 {
        seq![digit(n as int)]
    } else {
        digits(n / 10).push(digit((n % 10) as int))
    }
}

/// The magnitude of an amount.
pub open spec fn magnitude(value: int) -> nat {
    if value < 0 {
        (-value) as nat
    } else {
        value as nat
    }
}

/// An amount of ten-thousandths as a decimal number with exactly four
/// fractional digits: a minus sign if it is negative, the whole units, a
/// point, and the four digits of the remainder.
pub open spec fn decimal(value: int) -> Seq<char> {
    let m = magnitude(value);
    let sign = if value < 0 {
        seq!['-']
    } else {
        Seq::<char>::empty()
    };
    sign + digits(m / 10000) + seq![
        '.',
        digit((m / 1000 % 10) as int),
        digit((m / 100 % 10) as int),
        digit((m / 10 % 10) as int),
        digit((m % 10) as int),
    ]
}

/// The text of one decimal digit.
fn digit_text(d: u64) -> (text: &'static str)
    requires
        d <= 9,
    ensures
        text@ == seq![digit(d as int)],
{
    proof {
        reveal_strlit("0");
        reveal_strlit("1");
        reveal_strlit("2");
        reveal_strlit("3");
        reveal_strlit("4");
        reveal_strlit("5");
        reveal_strlit("6");
        reveal_strlit("7");
        reveal_strlit("8");
        reveal_strlit("9");
    }
    let text = if d == 0 {
        "0"
    } else if d == 1 {
        "1"
    } else if d == 2 {
        "2"
    } else if d == 3 {
        "3"
    } else if d == 4 {
        "4"
    } else if d == 5 {
        "5"
    } else if d == 6 {
        "6"
    } else if d == 7 {
        "7"
    } else if d == 8 {
        "8"
    } else {
        "9"
    };
    assert(text@ =~= seq![digit(d as int)]);
    text
}

/// Appends the decimal digits of `n` to `out`.
fn append_digits(out: &mut String, n: u64)
    ensures
        final(out)@ == old(out)@ + digits(n as nat),
    decreases n,
{
    if n >= 10 {
        append_digits(out, n / 10);
    }
    out.append(digit_text(n % 10));
    assert(final(out)@ =~= old(out)@ + digits(n as nat));
}

/// Writes an amount of ten-thousandths with four fractional digits.
pub fn four_decimals(value: i64) -> (text: String)
    ensures
        text@ == decimal(value as int),
{
    let mut text = String::new();
    let m: u64 = if value < 0 {
        text.append("-");
        (-(value as i128)) as u64
    } else {
        value as u64
    };
    proof {
        reveal_strlit("-");
        reveal_strlit(".");
    }
    append_digits(&mut text, m / 10000);
    text.append(".");
    text.append(digit_text(m / 1000 % 10));
    text.append(digit_text(m / 100 % 10));
    text.append(digit_text(m / 10 % 10));
    text.append(digit_text(m % 10));
    assert(text@ =~= decimal(value as int));
    text
}

} // verus!
