//! Decoding of hexadecimal strings into bytes.
//!
//! A hex string is a sequence of ASCII digits `0-9`, `a-f`, `A-F` of even
//! length; every pair of digits encodes one byte, most significant digit
//! first. There is no prefix, no separator and no whitespace.
//!
//! [`decode`] yields a vector and [`decode_fixed`] an array of a given
//! size; both report malformed input as a [`HexError`]. [`hex`] is for
//! callers that have proved their input well-formed and yields the array
//! directly.
//!
//! The module `model` says which bytes a hex string encodes; `case` and
//! `encode` prove that decoding ignores the case of the letters and inverts
//! the canonical lower-case encoding.

pub mod case;
pub mod decode;
pub mod digit;
pub mod encode;
pub mod error;
pub mod model;

pub use decode::{decode, decode_fixed, hex};
pub use digit::{ascii_char_to_num, decode_digit};
pub use error::HexError;
