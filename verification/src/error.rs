//! Why a byte string was refused as a point or a scalar.

use vstd::prelude::*;

verus! {

/// The reason a byte string does not decode.
#[derive(Debug, Clone, Copy, PartialEq, Eq, Structural)]
pub enum DecodeError {
    /// The string has not the length that its kind of encoding has.
    InvalidLength,
    /// The leading byte of a point encoding is none of the tags in use.
    InvalidTag,
    /// The number spelled is not below the modulus it is reduced by.
    OutOfRange,
    /// The coordinate is in range, but no point of the curve has it.
    NotOnCurve,
}

} // verus!
