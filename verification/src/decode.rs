//! Decoding a hex string into a fixed-size array or into a vector.
//!
//! The contracts speak of the input as the sequence of its bytes,
//! `s.spec_bytes()`, and measure lengths and positions in bytes.

use vstd::prelude::*;
use vstd::string::StringSliceAdditionalSpecFns;
use crate::digit::{decode_digit, is_hex_digit};
use crate::error::HexError;
use crate::model::{all_hex_digits, decoded, first_invalid_at, is_hex_string, pair_value};

verus! {

/// Decodes the two digits at positions `2 * idx` and `2 * idx + 1`, which
/// together encode output byte `idx`. If both are invalid, the error names
/// the first.
fn decode_pair(bytes: &[u8], idx: usize) -> (r: Result<u8, HexError>)
    requires
        2 * idx + 1 < bytes.len(),
    ensures
        match r {
            Ok(v) => {
                &&& is_hex_digit(bytes@[2 * idx])
                &&& is_hex_digit(bytes@[2 * idx + 1])
                &&& v == pair_value(bytes@[2 * idx], bytes@[2 * idx + 1])
            },
            Err(HexError::InvalidCharacter { index, byte }) => {
                &&& 2 * idx <= index <= 2 * idx + 1
                &&& !is_hex_digit(bytes@[index as int])
                &&& index == 2 * idx + 1 ==> is_hex_digit(bytes@[2 * idx])
                &&& byte == bytes@[index as int]
            },
            Err(_) => false,
        },
{
    let hi_at: usize = 2 * idx;
    let lo_at: usize = hi_at + 1;
    let msb: u8 = match decode_digit(bytes[hi_at]) {
        Some(v) => v,
        None => {
            return Err(HexError::InvalidCharacter { index: hi_at, byte: bytes[hi_at] });
        },
    };
    let lsb: u8 = match decode_digit(bytes[lo_at]) {
        Some(v) => v,
        None => {
            return Err(HexError::InvalidCharacter { index: lo_at, byte: bytes[lo_at] });
        },
    };
    assert(msb << 4 == msb * 16) by (bit_vector)
        requires
            msb < 16,
    ;
    Ok((msb << 4) + lsb)
}

/// Decodes a hex string into a vector of bytes, one byte for every two
/// characters, in the order of the input.
///
/// An input of odd length is rejected as such, whatever it holds. An input
/// of even length that holds anything but hex digits is rejected with the
/// position and value of its first invalid byte. Every other input, the
/// empty string among them, is decoded.
pub fn decode(s: &str) -> (r: Result<Vec<u8>, HexError>)
    ensures
        match r {
            Ok(v) => is_hex_string(s.spec_bytes()) && v@ == decoded(s.spec_bytes()),
            Err(HexError::OddLength) => s.spec_bytes().len() % 2 == 1,
            Err(HexError::LengthMismatch) => false,
            Err(HexError::InvalidCharacter { index, byte }) => {
                &&& s.spec_bytes().len() % 2 == 0
                &&& first_invalid_at(s.spec_bytes(), index as int)
                &&& byte == s.spec_bytes()[index as int]
            },
        },
        is_hex_string(s.spec_bytes()) ==> r is Ok,
        r matches Ok(v) ==> v@.len() == s.spec_bytes().len() / 2,
        s.spec_bytes().len() % 2 == 1 ==> r matches Err(HexError::OddLength),
        s.spec_bytes().len() % 2 == 0 && !all_hex_digits(s.spec_bytes()) ==> (r matches Err(e)
            && e is InvalidCharacter),
{
    let bytes = s.as_bytes();
    if bytes.len() % 2 != 0 {
        return Err(HexError::OddLength);
    }
    let n: usize = bytes.len() / 2;
    let mut out: Vec<u8> = Vec::with_capacity(n);
    let mut idx: usize = 0;
    while idx < n
        invariant
            bytes@ == s.spec_bytes(),
            bytes@.len() == 2 * n,
            idx <= n,
            out@.len() == idx,
            forall|j: int| 0 <= j < 2 * idx ==> is_hex_digit(#[trigger] bytes@[j]),
            forall|k: int|
                0 <= k < idx ==> #[trigger] out@[k] == pair_value(bytes@[2 * k], bytes@[2 * k + 1]),
        decreases n - idx,
    {
        match decode_pair(bytes, idx) {
            Ok(v) => {
                out.push(v);
            },
            Err(e) => {
                return Err(e);
            },
        }
        idx += 1;
    }
    Ok(out)
}

/// Decodes a hex string into an array of exactly `N` bytes, in the order of
/// the input.
///
/// The length of the input is checked first: an odd length is rejected as
/// such, whatever `N` is, and an even length other than `2 * N` is a length
/// mismatch. Only then are the digits looked at, and the first invalid byte
/// is reported with its position and value.
pub fn decode_fixed<const N: usize>(s: &str) -> (r: Result<[u8; N], HexError>)
    ensures
        match r {
            Ok(arr) => {
                &&& is_hex_string(s.spec_bytes())
                &&& s.spec_bytes().len() == 2 * N
                &&& arr@ == decoded(s.spec_bytes())
            },
            Err(HexError::OddLength) => s.spec_bytes().len() % 2 == 1,
            Err(HexError::LengthMismatch) => {
                &&& s.spec_bytes().len() % 2 == 0
                &&& s.spec_bytes().len() != 2 * N
            },
            Err(HexError::InvalidCharacter { index, byte }) => {
                &&& s.spec_bytes().len() == 2 * N
                &&& first_invalid_at(s.spec_bytes(), index as int)
                &&& byte == s.spec_bytes()[index as int]
            },
        },
        all_hex_digits(s.spec_bytes()) ==> (r is Ok <==> s.spec_bytes().len() == 2 * N),
        s.spec_bytes().len() % 2 == 1 ==> r matches Err(HexError::OddLength),
        s.spec_bytes().len() % 2 == 0 && s.spec_bytes().len() != 2 * N ==> r matches Err(
            HexError::LengthMismatch,
        ),
        s.spec_bytes().len() == 2 * N && !all_hex_digits(s.spec_bytes()) ==> (r matches Err(e)
            && e is InvalidCharacter),
{
    let bytes = s.as_bytes();
    if bytes.len() % 2 != 0 {
        return Err(HexError::OddLength);
    }
    if bytes.len() / 2 != N {
        return Err(HexError::LengthMismatch);
    }
    let mut arr: [u8; N] = [0; N];
    let mut idx: usize = 0;
    while idx < N
        invariant
            bytes@ == s.spec_bytes(),
            bytes@.len() == 2 * N,
            idx <= N,
            forall|j: int| 0 <= j < 2 * idx ==> is_hex_digit(#[trigger] bytes@[j]),
            forall|k: int|
                0 <= k < idx ==> #[trigger] arr@[k] == pair_value(bytes@[2 * k], bytes@[2 * k + 1]),
        decreases N - idx,
    {
        match decode_pair(bytes, idx) {
            Ok(v) => {
                arr[idx] = v;
            },
            Err(e) => {
                return Err(e);
            },
        }
        idx += 1;
    }
    Ok(arr)
}

/// Turns a hex string into an array of bytes.
///
/// The input must be a hex string of exactly `2 * N` digits. Callers that
/// cannot prove this use [`decode_fixed`] or [`decode`]; unverified callers
/// that break the precondition get a panic.
pub fn hex<const N: usize>(s: &str) -> (arr: [u8; N])
    requires
        is_hex_string(s.spec_bytes()),
        s.spec_bytes().len() == 2 * N,
    ensures
        arr@ == decoded(s.spec_bytes()),
{
    decode_fixed::<N>(s).unwrap()
}

} // verus!
