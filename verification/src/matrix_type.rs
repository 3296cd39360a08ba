//! Bits of `SkMatrix::TypeMask` that classify a matrix; they are combined with
//! `|` and tested against the value that a matrix reports as its type.
use vstd::prelude::*;

verus! {

/// Identity: no bit set.
pub const IDENTITY: u32 = 0;

/// Bit: the matrix translates.
pub const TRANSLATE: u32 = 0x01;

/// Bit: the matrix scales.
pub const SCALE: u32 = 0x02;

/// Bit: the matrix skews or rotates (general affine).
pub const AFFINE: u32 = 0x04;

/// Bit: the matrix has perspective.
pub const PERSPECTIVE: u32 = 0x08;

} // verus!
