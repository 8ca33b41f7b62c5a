//! A single hexadecimal digit and the four-bit value it stands for.

use vstd::prelude::*;

verus! {

/// ASCII code of `'0'`.
pub const DIGIT_0: u8 = 0x30;

/// ASCII code of `'9'`.
pub const DIGIT_9: u8 = 0x39;

/// ASCII code of `'A'`.
pub const UPPER_A: u8 = 0x41;

/// ASCII code of `'F'`.
pub const UPPER_F: u8 = 0x46;

/// ASCII code of `'a'`.
pub const LOWER_A: u8 = 0x61;

/// ASCII code of `'f'`.
pub const LOWER_F: u8 = 0x66;

/// Whether `c` is one of the ASCII characters `0-9`, `a-f`, `A-F`.
pub open spec fn is_hex_digit(c: u8) -> bool {
    ||| DIGIT_0 <= c <= DIGIT_9
    ||| LOWER_A <= c <= LOWER_F
    ||| UPPER_A <= c <= UPPER_F
}

/// The value, from 0 to 15, that the hex digit `c` stands for.
pub open spec fn digit_value(c: u8) -> int
    recommends
        is_hex_digit(c),
{
    if DIGIT_0 <= c <= DIGIT_9 {
        c - DIGIT_0
    } else if LOWER_A <= c <= LOWER_F {
        c - LOWER_A + 10
    } else {
        c - UPPER_A + 10
    }
}

/// Decodes one ASCII character: `Some` of its value for a hex digit, `None`
/// for every other byte.
pub fn decode_digit(c: u8) -> (r: Option<u8>)
    ensures
        r is Some <==> is_hex_digit(c),
        r matches Some(v) ==> v == digit_value(c) && v < 16,
{
    if DIGIT_0 <= c && c <= DIGIT_9 {
        Some(c - DIGIT_0)
    } else if LOWER_A <= c && c <= LOWER_F {
        Some(c - LOWER_A + 10)
    } else if UPPER_A <= c && c <= UPPER_F {
        Some(c - UPPER_A + 10)
    } else {
        None
    }
}

/// Turns a single ASCII character into the number it represents.
///
/// The character must be a hex digit. Callers that cannot prove this use
/// [`decode_digit`]; unverified callers that break the precondition get a
/// panic.
pub fn ascii_char_to_num(ascii_char: u8) -> (num: u8)
    requires
        is_hex_digit(ascii_char),
    ensures
        num == digit_value(ascii_char),
        num < 16,
{
    decode_digit(ascii_char).unwrap()
}

} // verus!
