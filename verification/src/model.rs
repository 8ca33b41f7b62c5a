//! What a hex string is and which bytes it encodes, over `Seq<u8>`.

use vstd::prelude::*;
use crate::digit::{digit_value, is_hex_digit};

verus! {

/// Every byte of `s` is a hex digit.
pub open spec fn all_hex_digits(s: Seq<u8>) -> bool {
    forall|i: int| 0 <= i < s.len() ==> is_hex_digit(#[trigger] s[i])
}

/// `s` is a hex string: hex digits only, and an even number of them.
pub open spec fn is_hex_string(s: Seq<u8>) -> bool {
    s.len() % 2 == 0 && all_hex_digits(s)
}

/// Position `i` holds the first byte of `s` that is not a hex digit.
pub open spec fn first_invalid_at(s: Seq<u8>, i: int) -> bool {
    &&& 0 <= i < s.len()
    &&& !is_hex_digit(s[i])
    &&& forall|j: int| 0 <= j < i ==> is_hex_digit(#[trigger] s[j])
}

/// The byte encoded by the digit pair `hi`, `lo`: `hi` gives the upper four
/// bits and `lo` the lower four.
pub open spec fn pair_value(hi: u8, lo: u8) -> u8
    recommends
        is_hex_digit(hi),
        is_hex_digit(lo),
{
    (16 * digit_value(hi) + digit_value(lo)) as u8
}

/// The bytes that the hex string `s` encodes: byte `k` comes from the digits
/// at positions `2k` and `2k + 1`.
pub open spec fn decoded(s: Seq<u8>) -> Seq<u8>
    recommends
        is_hex_string(s),
{
    Seq::new((s.len() / 2) as nat, |k: int| pair_value(s[2 * k], s[2 * k + 1]))
}

/// A string has at most one first invalid position, so the position that
/// an error reports is determined by the input.
pub proof fn lemma_first_invalid_unique(s: Seq<u8>, i: int, j: int)
    requires
        first_invalid_at(s, i),
        first_invalid_at(s, j),
    ensures
        i == j,
{
    if i < j {
        assert(is_hex_digit(s[i]));
    } else if j < i {
        assert(is_hex_digit(s[j]));
    }
}

} // verus!
