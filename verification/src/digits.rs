//! Decimal digits: the text of a number, with and without padding.

use vstd::prelude::*;

verus! {

/// The character of one decimal digit.
pub open spec fn digit_char(d: int) -> char {
    ((d + 48) as u8) as char
}

/// The digit that a character writes.
pub open spec fn digit_value(c: char) -> int {
    (c as u32) as int - 48
}

/// Whether a character is a decimal digit.
pub open spec fn is_digit(c: char) -> bool {
    '0' <= c <= '9'
}

/// `n` below 100 in two digits, padded with a zero.
pub open spec fn two_digits(n: int) -> Seq<char> {
    seq![digit_char(n / 10), digit_char(n % 10)]
}

/// `n` below 10000 in four digits, padded with zeros.
pub open spec fn four_digits(n: int) -> Seq<char> {
    seq![
        digit_char(n / 1000),
        digit_char((n / 100) % 10),
        digit_char((n / 10) % 10),
        digit_char(n % 10),
    ]
}

/// `n` in decimal, without padding.
pub open spec fn decimal_text(n: nat) -> Seq<char>
    decreases n,
{
    if n < 10 {
        seq![digit_char(n as int)]
    } else {
        decimal_text(n / 10) + seq![digit_char((n % 10) as int)]
    }
}

/// The characters of the ten digits are `0` to `9`.
pub proof fn lemma_digit_chars()
    ensures
        digit_char(0) == '0',
        digit_char(1) == '1',
        digit_char(2) == '2',
        digit_char(3) == '3',
        digit_char(4) == '4',
        digit_char(5) == '5',
        digit_char(6) == '6',
        digit_char(7) == '7',
        digit_char(8) == '8',
        digit_char(9) == '9',
{
}

/// A digit's character is a digit and writes that digit.
pub proof fn lemma_digit_char(d: int)
    requires
        0 <= d < 10,
    ensures
        is_digit(digit_char(d)),
        digit_value(digit_char(d)) == d,
{
}

/// A digit character is the character of the digit it writes.
pub proof fn lemma_digit_value(c: char)
    requires
        is_digit(c),
    ensures
        0 <= digit_value(c) < 10,
        digit_char(digit_value(c)) == c,
{
}

/// The text of one decimal digit.
fn digit_text(d: u8) -> (r: &'static str)
    requires
        d < 10,
    ensures
        r@ == seq![digit_char(d as int)],
{
    proof {
        reveal_strlit("0");
        reveal_strlit("1");
        reveal_strlit("2");
        reveal_strlit("3");
        reveal_strlit("4");
        reveal_strlit("5");
        reveal_strlit("6");
        reveal_strlit("7");
        reveal_strlit("8");
        reveal_strlit("9");
    }
    let r: &'static str = match d {
        0 => "0",
        1 => "1",
        2 => "2",
        3 => "3",
        4 => "4",
        5 => "5",
        6 => "6",
        7 => "7",
        8 => "8",
        _ => "9",
    };
    assert(r@ =~= seq![digit_char(d as int)]);
    r
}

/// Appends `n` in two digits.
pub(crate) fn push_two_digits(out: &mut String, n: u8)
    requires
        n < 100,
    ensures
        final(out)@ == old(out)@ + two_digits(n as int),
{
    out.append(digit_text(n / 10));
    out.append(digit_text(n % 10));
    assert(out@ =~= old(out)@ + two_digits(n as int));
}

/// Appends `n` in four digits.
pub(crate) fn push_four_digits(out: &mut String, n: u16)
    requires
        n < 10000,
    ensures
        final(out)@ == old(out)@ + four_digits(n as int),
{
    out.append(digit_text((n / 1000) as u8));
    out.append(digit_text(((n / 100) % 10) as u8));
    out.append(digit_text(((n / 10) % 10) as u8));
    out.append(digit_text((n % 10) as u8));
    assert(out@ =~= old(out)@ + four_digits(n as int));
}

/// Appends `n` in decimal, without padding.
pub fn push_decimal(out: &mut String, n: u64)
    ensures
        final(out)@ == old(out)@ + decimal_text(n as nat),
    decreases n,
{
    if n >= 10 {
        push_decimal(out, n / 10);
    }
    out.append(digit_text((n % 10) as u8));
    assert(out@ =~= old(out)@ + decimal_text(n as nat));
}

} // verus!
