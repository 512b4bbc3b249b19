//! The character sets of the numeric and the alphanumeric mode.

use vstd::prelude::*;

verus! {

/// An ASCII digit.
pub open spec fn is_digit(b: u8) -> bool {
    ('0' as u8) <= b <= ('9' as u8)
}

/// One of the 45 symbols of the alphanumeric mode: a digit, an upper-case
/// letter, a space or one of `$%*+-./:`.
pub open spec fn is_alphanumeric(b: u8) -> bool {
    ||| is_digit(b)
    ||| ('A' as u8) <= b <= ('Z' as u8)
    ||| b == (' ' as u8)
    ||| b == ('$' as u8)
    ||| b == ('%' as u8)
    ||| b == ('*' as u8)
    ||| b == ('+' as u8)
    ||| b == ('-' as u8)
    ||| b == ('.' as u8)
    ||| b == ('/' as u8)
    ||| b == (':' as u8)
}

/// The value of a digit.
pub open spec fn digit_value(b: u8) -> nat {
    (b - ('0' as u8)) as nat
}

/// The value of a symbol of the alphanumeric mode, from 0 to 44; any other
/// byte counts as 0.
pub open spec fn alphanumeric_value(b: u8) -> nat {
    if is_digit(b) {
        (b - ('0' as u8)) as nat
    } else if ('A' as u8) <= b <= ('Z' as u8) {
        (b - ('A' as u8) + 10) as nat
    } else if b == (' ' as u8) {
        36
    } else if b == ('$' as u8) {
        37
    } else if b == ('%' as u8) {
        38
    } else if b == ('*' as u8) {
        39
    } else if b == ('+' as u8) {
        40
    } else if b == ('-' as u8) {
        41
    } else if b == ('.' as u8) {
        42
    } else if b == ('/' as u8) {
        43
    } else if b == (':' as u8) {
        44
    } else {
        0
    }
}

/// The alphanumeric alphabet in the order of its values.
pub open spec fn alphabet() -> Seq<char> {
    "0123456789ABCDEFGHIJKLMNOPQRSTUVWXYZ $%*+-./:"@
}

/// Every character of the alphabet has its place in it as its value, so no
/// two share one, and the values are exactly 0 to 44.
pub proof fn lemma_alphabet_in_order()
    ensures
        alphabet().len() == 45,
        forall|i: int|
            0 <= i < 45 ==> is_alphanumeric(#[trigger] alphabet()[i] as u8) && alphanumeric_value(
                alphabet()[i] as u8,
            ) == i,
{
    reveal_strlit("0123456789ABCDEFGHIJKLMNOPQRSTUVWXYZ $%*+-./:");
}

/// The symbols of the alphanumeric mode are the characters of the alphabet
/// and no others: each stands in the alphabet at the place of its value.
pub proof fn lemma_alphabet_is_complete(b: u8)
    ensures
        alphanumeric_value(b) < 45,
        is_alphanumeric(b) ==> alphabet()[alphanumeric_value(b) as int] as u8 == b,
        !is_alphanumeric(b) ==> alphanumeric_value(b) == 0,
{
    reveal_strlit("0123456789ABCDEFGHIJKLMNOPQRSTUVWXYZ $%*+-./:");
}

/// Turns a byte into its value in the alphanumeric alphabet; a byte that is
/// not in the alphabet gives 0.
#[inline]
#[must_use]
pub fn byte_to_alphanumeric(b: u8) -> (value: u8)
    ensures
        value == alphanumeric_value(b),
        value < 45,
{
    match b {
        // '0' to '9'
        0x30..=0x39 => b - 0x30,
        // 'A' to 'Z'
        0x41..=0x5a => b - 0x41 + 10,
        // ' '
        0x20 => 36,
        // '$'
        0x24 => 37,
        // '%'
        0x25 => 38,
        // '*'
        0x2a => 39,
        // '+'
        0x2b => 40,
        // '-'
        0x2d => 41,
        // '.'
        0x2e => 42,
        // '/'
        0x2f => 43,
        // ':'
        0x3a => 44,
        _ => 0,
    }
}

} // verus!
