//! Decimal text of integers, as the export writes them.

use vstd::prelude::*;
use vstd::string::StringExecFns;

verus! {

/// The character of a decimal digit.
pub open spec fn digit_char(d: int) -> char {
    if d == 0 {
        '0'
    } else if d == 1 {
        '1'
    } else if d == 2 {
        '2'
    } else if d == 3 {
        '3'
    } else if d == 4 {
        '4'
    } else if d == 5 {
        '5'
    } else if d == 6 {
        '6'
    } else if d == 7 {
        '7'
    } else if d == 8 {
        '8'
    } else {
        '9'
    }
}

/// The decimal text of a natural number, without leading zeros.
pub open spec fn decimal(n: nat) -> Seq<char>
    decreases n,
{
    if n < 10 {
        seq![digit_char(n as int)]
    } else {
        decimal(n / 10) + seq![digit_char((n % 10) as int)]
    }
}

/// The decimal text of an integer, with a minus sign where it is negative.
pub open spec fn signed_decimal(i: int) -> Seq<char> {
    if i < 0 {
        seq!['-'] + decimal((-i) as nat)
    } else {
        decimal(i as nat)
    }
}

/// The decimal text of a number, followed by one space.
pub open spec fn token(n: nat) -> Seq<char> {
    decimal(n) + seq![' ']
}

/// The decimal text of an integer, followed by one space.
pub open spec fn signed_token(i: int) -> Seq<char> {
    signed_decimal(i) + seq![' ']
}

/// Returns the text of one decimal digit.
pub fn digit_text(d: u8) -> (text: &'static str)
    requires
        d < 10,
    ensures
        text@ == seq![digit_char(d as int)],
{
    proof {
        reveal_strlit("0");
        reveal_strlit("1");
        reveal_strlit("2");
        reveal_strlit("3");
        reveal_strlit("4");
        reveal_strlit("5");
        reveal_strlit("6");
        reveal_strlit("7");
        reveal_strlit("8");
        reveal_strlit("9");
    }
    let text = if d == 0 {
        "0"
    } else if d == 1 {
        "1"
    } else if d == 2 {
        "2"
    } else if d == 3 {
        "3"
    } else if d == 4 {
        "4"
    } else if d == 5 {
        "5"
    } else if d == 6 {
        "6"
    } else if d == 7 {
        "7"
    } else if d == 8 {
        "8"
    } else {
        "9"
    };
    assert(text@ =~= seq![digit_char(d as int)]);
    text
}

/// Appends the decimal text of a number.
pub fn push_decimal(buffer: &mut String, n: u128)
    ensures
        final(buffer)@ == old(buffer)@ + decimal(n as nat),
    decreases n,
{
    if n >= 10 {
        push_decimal(buffer, n / 10);
    }
    buffer.append(digit_text((n % 10) as u8));
    assert(buffer@ =~= old(buffer)@ + decimal(n as nat));
}

/// Appends the decimal text of a number and one space.
pub fn push_token(buffer: &mut String, n: u128)
    ensures
        final(buffer)@ == old(buffer)@ + token(n as nat),
{
    push_decimal(buffer, n);
    buffer.append(" ");
    proof {
        reveal_strlit(" ");
    }
    assert(buffer@ =~= old(buffer)@ + token(n as nat));
}

/// Appends the decimal text of an integer and one space.
pub fn push_signed_token(buffer: &mut String, i: i32)
    ensures
        final(buffer)@ == old(buffer)@ + signed_token(i as int),
{
    if i < 0 {
        buffer.append("-");
        push_decimal(buffer, (-(i as i64)) as u128);
    } else {
        push_decimal(buffer, i as u128);
    }
    buffer.append(" ");
    proof {
        reveal_strlit(" ");
        reveal_strlit("-");
    }
    assert(buffer@ =~= old(buffer)@ + signed_token(i as int));
}

} // verus!
