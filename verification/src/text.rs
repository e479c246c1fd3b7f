//! Small helpers on text shared by the cell codecs.

use vstd::prelude::*;

verus! {

/// The ASCII code of `+`.
pub const PLUS: u8 = 43;

/// The ASCII code of `-`.
pub const MINUS: u8 = 45;

/// The ASCII code of `.`.
pub const POINT: u8 = 46;

/// The ASCII code of `0`.
pub const DIGIT_0: u8 = 48;

/// The ASCII code of `9`.
pub const DIGIT_9: u8 = 57;

/// The ASCII code of `:`.
pub const COLON: u8 = 58;

/// The ASCII code of `A`.
pub const UPPER_A: u8 = 65;

/// The ASCII code of `E`.
pub const UPPER_E: u8 = 69;

/// The ASCII code of `Z`.
pub const UPPER_Z: u8 = 90;

/// The ASCII code of `e`.
pub const LOWER_E: u8 = 101;

/// The ASCII code of `z`.
pub const LOWER_Z: u8 = 122;

/// Whether two string slices hold the same characters.
///
/// Trusted: this is `==` on `str` from the standard library, which compares
/// the two slices character by character.
#[verifier::external_body]
pub(crate) fn same_text(a: &str, b: &str) -> (r: bool)
    ensures
        r == (a@ == b@),
{
    a == b
}

} // verus!
