//! Decimal numbers as text.

use vstd::prelude::*;
use vstd::string::*;

verus! {

/// The character of a single decimal digit.
pub open spec fn digit_char(digit: nat) -> char {
    (48 + digit) as char
}

/// The usual decimal notation of a number: no sign, no leading zeros, `0` for zero.
pub open spec fn decimal(n: nat) -> Seq<char>
    decreases n,
{
    if n < 10 {
        seq![digit_char(n)]
    } else {
        decimal(n / 10).push(digit_char(n % 10))
    }
}

/// Decimal notation with at least two digits: a single digit gets a zero in front.
pub open spec fn two_digits(n: nat) -> Seq<char> {
    if n < 10 {
        "0"@ + decimal(n)
    } else {
        decimal(n)
    }
}

/// The number that a sequence of decimal digits stands for.
pub open spec fn decimal_value(digits: Seq<char>) -> nat
    decreases digits.len(),
{
    if digits.len() == 0 {
        0
    } else {
        (10 * decimal_value(digits.drop_last()) + (digits.last() as int - 48)) as nat
    }
}

/// Reading a decimal notation gives back the number it was written for, so two
/// different numbers never share a notation.
pub proof fn law_decimal_reads_back(n: nat)
    ensures
        decimal_value(decimal(n)) == n,
        decimal(n).len() > 0,
    decreases n,
{
    reveal_with_fuel(decimal_value, 2);
    if n < 10 {
        assert(decimal(n).drop_last() =~= seq![]);
    } else {
        law_decimal_reads_back(n / 10);
        assert(decimal(n).drop_last() =~= decimal(n / 10));
    }
}

/// A notation with at least two digits has at least two digits, and reading it gives
/// back the number it was written for.
pub proof fn law_two_digits_read_back(n: nat)
    ensures
        two_digits(n).len() >= 2,
        decimal_value(two_digits(n)) == n,
{
    law_decimal_reads_back(n);
    reveal_strlit("0");
    if n < 10 {
        reveal_with_fuel(decimal_value, 3);
        assert(two_digits(n).drop_last() =~= seq!['0']);
        assert(seq!['0'].drop_last() =~= seq![]);
    } else {
        law_decimal_reads_back(n / 10);
    }
}

fn digit(d: u64) -> (text: &'static str)
    requires
        d < 10,
    ensures
        text@ == seq![digit_char(d as nat)],
{
    proof {
        reveal_strlit("0");
        reveal_strlit("1");
        reveal_strlit("2");
        reveal_strlit("3");
        reveal_strlit("4");
        reveal_strlit("5");
        reveal_strlit("6");
        reveal_strlit("7");
        reveal_strlit("8");
        reveal_strlit("9");
    }
    match d {
        0 => "0",
        1 => "1",
        2 => "2",
        3 => "3",
        4 => "4",
        5 => "5",
        6 => "6",
        7 => "7",
        8 => "8",
        _ => "9",
    }
}

/// Writes a number at the end of a text, in decimal.
pub fn push_decimal(out: &mut String, n: u64)
    ensures
        final(out)@ == old(out)@ + decimal(n as nat),
    decreases n,
{
    if n >= 10 {
        push_decimal(out, n / 10);
    }
    out.append(digit(n % 10));
}

/// Writes a number at the end of a text, in decimal with at least two digits.
pub fn push_two_digits(out: &mut String, n: u64)
    ensures
        final(out)@ == old(out)@ + two_digits(n as nat),
{
    if n < 10 {
        out.append("0");
    }
    push_decimal(out, n);
}

/// A number below ten is written as its digit. Any other is written as its tens are,
/// with the digit of its ones behind them. Where two digits are asked for, only a number
/// below ten is written differently: with a zero in front.
pub proof fn law_decimal_ends_in_the_ones(tens: nat, ones: nat)
    requires
        ones < 10,
    ensures
        decimal(ones) == seq!["0123456789"@[ones as int]],
        tens > 0 ==> decimal(10 * tens + ones) == decimal(tens).push("0123456789"@[ones as int]),
        two_digits(ones) == seq!['0', "0123456789"@[ones as int]],
        tens > 0 ==> two_digits(10 * tens + ones) == decimal(10 * tens + ones),
{
    reveal_strlit("0123456789");
    reveal_strlit("0");
    let n = 10 * tens + ones;
    assert(n / 10 == tens && n % 10 == ones);
    assert("0123456789"@[ones as int] == digit_char(ones));
}

} // verus!
