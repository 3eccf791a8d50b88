//! Decimal text: the digits of natural numbers, plain and zero-padded.

use vstd::prelude::*;

verus! {

/// The character that stands for the decimal digit `d`.
pub open spec fn digit_char(d: int) -> char {
    if d == 0 {
        '0'
    } else if d == 1 {
        '1'
    } else if d == 2 {
        '2'
    } else if d == 3 {
        '3'
    } else if d == 4 {
        '4'
    } else if d == 5 {
        '5'
    } else if d == 6 {
        '6'
    } else if d == 7 {
        '7'
    } else if d == 8 {
        '8'
    } else {
        '9'
    }
}

/// Whether `c` is one of the ten decimal digits.
pub open spec fn is_digit(c: char) -> bool {
    '0' <= c && c <= '9'
}

/// The decimal numeral of `n`, without leading zeros.
pub open spec fn decimal(n: nat) -> Seq<char>
    decreases n,
{
    if n < 10 {
        seq![digit_char(n as int)]
    } else {
        decimal(n / 10).push(digit_char((n % 10) as int))
    }
}

/// The last two decimal digits of `n`, zero-padded.
pub open spec fn two_digits(n: nat) -> Seq<char> {
    seq![digit_char(((n / 10) % 10) as int), digit_char((n % 10) as int)]
}

/// The last four decimal digits of `n`, zero-padded.
pub open spec fn four_digits(n: nat) -> Seq<char> {
    two_digits(n / 100) + two_digits(n)
}

/// Appends the character of one decimal digit.
fn push_digit(text: &mut String, d: u8)
    requires
        d < 10,
    ensures
        final(text)@ == old(text)@.push(digit_char(d as int)),
{
    proof {
        reveal_strlit("0");
        reveal_strlit("1");
        reveal_strlit("2");
        reveal_strlit("3");
        reveal_strlit("4");
        reveal_strlit("5");
        reveal_strlit("6");
        reveal_strlit("7");
        reveal_strlit("8");
        reveal_strlit("9");
    }
    let ghost before = text@;
    if d == 0 {
        text.append("0");
    } else if d == 1 {
        text.append("1");
    } else if d == 2 {
        text.append("2");
    } else if d == 3 {
        text.append("3");
    } else if d == 4 {
        text.append("4");
    } else if d == 5 {
        text.append("5");
    } else if d == 6 {
        text.append("6");
    } else if d == 7 {
        text.append("7");
    } else if d == 8 {
        text.append("8");
    } else {
        text.append("9");
    }
    assert(text@ =~= before.push(digit_char(d as int)));
}

/// Appends the decimal numeral of `n`.
pub fn push_decimal(text: &mut String, n: u128)
    ensures
        final(text)@ == old(text)@ + decimal(n as nat),
    decreases n,
{
    let ghost before = text@;
    if n >= 10 {
        push_decimal(text, n / 10);
    }
    push_digit(text, (n % 10) as u8);
    assert(text@ =~= before + decimal(n as nat));
}

/// The decimal numeral of `n` as a string.
pub fn decimal_string(n: u128) -> (text: String)
    ensures
        text@ == decimal(n as nat),
{
    let mut text = String::new();
    push_decimal(&mut text, n);
    assert(text@ =~= decimal(n as nat));
    text
}

/// Appends the last two decimal digits of `n`, zero-padded.
pub fn push_two_digits(text: &mut String, n: u32)
    ensures
        final(text)@ == old(text)@ + two_digits(n as nat),
{
    let ghost before = text@;
    push_digit(text, ((n / 10) % 10) as u8);
    push_digit(text, (n % 10) as u8);
    assert(text@ =~= before + two_digits(n as nat));
}

/// Appends the last four decimal digits of `n`, zero-padded.
pub fn push_four_digits(text: &mut String, n: u32)
    ensures
        final(text)@ == old(text)@ + four_digits(n as nat),
{
    let ghost before = text@;
    push_two_digits(text, n / 100);
    push_two_digits(text, n);
    assert(text@ =~= before + four_digits(n as nat));
}

/// Zero-padded fields hold digits only.
pub proof fn lemma_padded_shape(n: nat)
    ensures
        two_digits(n).len() == 2,
        four_digits(n).len() == 4,
        forall|i: int| 0 <= i < 2 ==> is_digit(#[trigger] two_digits(n)[i]),
        forall|i: int| 0 <= i < 4 ==> is_digit(#[trigger] four_digits(n)[i]),
{
}

} // verus!
