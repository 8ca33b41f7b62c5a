//! The canonical lower-case hex form of a byte sequence, as a ghost
//! function, and the proof that decoding inverts it.

use vstd::prelude::*;
use crate::case::lowercase;
use crate::digit::{digit_value, is_hex_digit, DIGIT_0, LOWER_A};
use crate::model::{decoded, is_hex_string};

verus! {

/// The lower-case hex digit that stands for `v`, for `v` from 0 to 15.
pub open spec fn digit_of(v: u8) -> u8
    recommends
        v < 16,
{
    if v < 10 {
        (DIGIT_0 + v) as u8
    } else {
        (LOWER_A + v - 10) as u8
    }
}

/// The canonical hex form of `bytes`: two lower-case digits for each byte,
/// the upper four bits first.
pub open spec fn encoded(bytes: Seq<u8>) -> Seq<u8> {
    Seq::new(
        2 * bytes.len(),
        |i: int|
            if i % 2 == 0 {
                digit_of(bytes[i / 2] / 16)
            } else {
                digit_of(bytes[i / 2] % 16)
            },
    )
}

/// `digit_of` yields a hex digit, and that digit has the value it was made
/// from.
pub proof fn lemma_digit_of_value(v: u8)
    requires
        v < 16,
    ensures
        is_hex_digit(digit_of(v)),
        digit_value(digit_of(v)) == v,
{
}

/// Decoding is a left inverse of encoding: the canonical form of any byte
/// sequence is a hex string, and it decodes to that byte sequence.
pub proof fn lemma_decode_encoded(bytes: Seq<u8>)
    ensures
        is_hex_string(encoded(bytes)),
        decoded(encoded(bytes)) == bytes,
{
    let e = encoded(bytes);
    assert forall|i: int| 0 <= i < e.len() implies is_hex_digit(#[trigger] e[i]) by {
        lemma_digit_of_value(bytes[i / 2] / 16);
        lemma_digit_of_value(bytes[i / 2] % 16);
    }
    assert forall|k: int| 0 <= k < bytes.len() implies #[trigger] decoded(e)[k] == bytes[k] by {
        lemma_digit_of_value(bytes[k] / 16);
        lemma_digit_of_value(bytes[k] % 16);
        assert(e[2 * k] == digit_of(bytes[k] / 16));
        assert(e[2 * k + 1] == digit_of(bytes[k] % 16));
    }
    assert(decoded(e) =~= bytes);
}

/// Encoding the bytes of a hex string gives back that string in lower case.
pub proof fn lemma_encode_decoded(s: Seq<u8>)
    requires
        is_hex_string(s),
    ensures
        encoded(decoded(s)) == lowercase(s),
{
    let e = encoded(decoded(s));
    assert forall|i: int| 0 <= i < s.len() implies #[trigger] e[i] == lowercase(s)[i] by {
        let k = i / 2;
        assert(is_hex_digit(s[2 * k]));
        assert(is_hex_digit(s[2 * k + 1]));
    }
    assert(e =~= lowercase(s));
}

/// Round trip: decoding a hex string, encoding the bytes and decoding again
/// yields the same bytes as the first decoding.
pub proof fn lemma_round_trip(s: Seq<u8>)
    requires
        is_hex_string(s),
    ensures
        is_hex_string(encoded(decoded(s))),
        decoded(encoded(decoded(s))) == decoded(s),
{
    lemma_decode_encoded(decoded(s));
}

} // verus!
