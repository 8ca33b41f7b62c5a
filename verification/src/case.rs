//! Decoding does not depend on the case of the letters `a-f`.

use vstd::prelude::*;
use crate::digit::{digit_value, is_hex_digit, LOWER_A, UPPER_A};
use crate::model::{decoded, first_invalid_at, is_hex_string};

verus! {

/// ASCII code of `'Z'`.
pub const UPPER_Z: u8 = 0x5a;

/// ASCII code of `'z'`.
pub const LOWER_Z: u8 = 0x7a;

/// The lower-case form of an ASCII character: `A-Z` become `a-z`, every
/// other byte stays.
pub open spec fn to_lower(c: u8) -> u8 {
    if UPPER_A <= c <= UPPER_Z {
        (c + 0x20) as u8
    } else {
        c
    }
}

/// The upper-case form of an ASCII character: `a-z` become `A-Z`, every
/// other byte stays.
pub open spec fn to_upper(c: u8) -> u8 {
    if LOWER_A <= c <= LOWER_Z {
        (c - 0x20) as u8
    } else {
        c
    }
}

/// `s` with every character in lower case.
pub open spec fn lowercase(s: Seq<u8>) -> Seq<u8> {
    Seq::new(s.len(), |i: int| to_lower(s[i]))
}

/// `s` with every character in upper case.
pub open spec fn uppercase(s: Seq<u8>) -> Seq<u8> {
    Seq::new(s.len(), |i: int| to_upper(s[i]))
}

/// `s` and `t` are the same text but for the case of their letters.
pub open spec fn same_ignoring_case(s: Seq<u8>, t: Seq<u8>) -> bool {
    &&& s.len() == t.len()
    &&& forall|i: int| 0 <= i < s.len() ==> to_lower(#[trigger] s[i]) == to_lower(t[i])
}

/// Two characters that differ at most in case are both hex digits or both
/// not, and as hex digits they have the same value.
pub proof fn lemma_digit_ignores_case(c: u8, d: u8)
    requires
        to_lower(c) == to_lower(d),
    ensures
        is_hex_digit(c) <==> is_hex_digit(d),
        is_hex_digit(c) ==> digit_value(c) == digit_value(d),
{
}

/// Every string equals its lower-case and its upper-case form but for case.
pub proof fn lemma_case_forms(s: Seq<u8>)
    ensures
        same_ignoring_case(s, lowercase(s)),
        same_ignoring_case(s, uppercase(s)),
{
}

/// Decoding is case-insensitive: two inputs that differ at most in the case
/// of their letters are both hex strings or both not, fail at the same
/// position if they hold an invalid character, and as hex strings encode
/// the same bytes.
pub proof fn lemma_decode_ignores_case(s: Seq<u8>, t: Seq<u8>)
    requires
        same_ignoring_case(s, t),
    ensures
        is_hex_string(s) <==> is_hex_string(t),
        forall|i: int| first_invalid_at(s, i) <==> first_invalid_at(t, i),
        is_hex_string(s) ==> decoded(t) == decoded(s),
{
    assert forall|i: int| 0 <= i < s.len() implies (is_hex_digit(#[trigger] s[i]) <==> is_hex_digit(
        t[i],
    )) by {
        lemma_digit_ignores_case(s[i], t[i]);
    }
    assert forall|i: int| 0 <= i < t.len() implies (is_hex_digit(#[trigger] t[i]) <==> is_hex_digit(
        s[i],
    )) by {
        lemma_digit_ignores_case(s[i], t[i]);
    }
    if is_hex_string(s) {
        assert forall|k: int| 0 <= k < s.len() / 2 implies #[trigger] decoded(t)[k] == decoded(
            s,
        )[k] by {
            lemma_digit_ignores_case(s[2 * k], t[2 * k]);
            lemma_digit_ignores_case(s[2 * k + 1], t[2 * k + 1]);
        }
        assert(decoded(t) =~= decoded(s));
    }
}

/// A hex string, its lower-case form and its upper-case form all encode
/// the same bytes, half as many as the string has characters.
pub proof fn lemma_decode_case_forms(s: Seq<u8>)
    requires
        is_hex_string(s),
    ensures
        is_hex_string(lowercase(s)),
        is_hex_string(uppercase(s)),
        decoded(lowercase(s)) == decoded(s),
        decoded(uppercase(s)) == decoded(s),
        decoded(s).len() == s.len() / 2,
{
    lemma_case_forms(s);
    lemma_decode_ignores_case(s, lowercase(s));
    lemma_decode_ignores_case(s, uppercase(s));
}

} // verus!
