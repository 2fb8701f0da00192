//! Text building: decimal numbers, padding to a width, joining.

use vstd::prelude::*;

verus! {

/// The character of one decimal digit.
pub open spec fn digit_char(d: int) -> char
    recommends
        0 <= d < 10,
{
    (('0' as u8) + d) as u8 as char
}

/// The decimal digits of a natural number, without leading zeros.
pub open spec fn decimal_nat(n: nat) -> Seq<char>
    decreases n,
{
    if n < 10 {
        seq![digit_char(n as int)]
    } else {
        decimal_nat(n / 10).push(digit_char((n % 10) as int))
    }
}

/// The decimal form of an integer: a minus sign where it is negative, then
/// its digits.
pub open spec fn decimal(n: int) -> Seq<char> {
    if n < 0 {
        seq!['-'] + decimal_nat((-n) as nat)
    } else {
        decimal_nat(n as nat)
    }
}

/// `count` spaces.
pub open spec fn spaces(count: int) -> Seq<char> {
    Seq::new(if count > 0 { count as nat } else { 0 }, |i: int| ' ')
}

/// `s` with spaces before it, as many as it takes to reach `width`
/// characters; `s` itself where it is at least that long.
pub open spec fn pad_left(s: Seq<char>, width: int) -> Seq<char> {
    spaces(width - s.len()) + s
}

/// `s` with spaces after it, as many as it takes to reach `width`
/// characters; `s` itself where it is at least that long.
pub open spec fn pad_right(s: Seq<char>, width: int) -> Seq<char> {
    s + spaces(width - s.len())
}

/// The texts of a list, one after the other.
pub open spec fn joined(parts: Seq<Seq<char>>) -> Seq<char>
    decreases parts.len(),
{
    if parts.len() == 0 {
        Seq::empty()
    } else {
        joined(parts.drop_last()) + parts.last()
    }
}

/// The characters of each text of a list.
pub open spec fn texts_of(strings: Seq<&str>) -> Seq<Seq<char>> {
    Seq::new(strings.len(), |i: int| strings[i]@)
}

/// Formats a signed integer with std's `{}`: its decimal form.
#[verifier::external_body]
pub(crate) fn decimal_string(n: i128) -> (s: String)
    ensures
        s@ == decimal(n as int),
{
    format!("{}", n)
}

/// Formats a signed integer with std's `{:width$}`: its decimal form,
/// right-aligned by spaces to `width` characters. std holds a width in 16
/// bits and panics on a larger one, so the width must fit.
#[verifier::external_body]
pub(crate) fn padded_number(n: i128, width: usize) -> (s: String)
    requires
        width <= u16::MAX,
    ensures
        s@ == pad_left(decimal(n as int), width as int),
{
    format!("{:width$}", n)
}

/// Formats a text with std's `{:width$}`: the text, left-aligned by spaces
/// to `width` characters. std holds a width in 16 bits and panics on a
/// larger one, so the width must fit.
#[verifier::external_body]
pub(crate) fn padded_text(text: &str, width: usize) -> (s: String)
    requires
        width <= u16::MAX,
    ensures
        s@ == pad_right(text@, width as int),
{
    format!("{:width$}", text)
}

} // verus!
