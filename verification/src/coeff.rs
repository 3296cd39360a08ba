//! Indices of the nine matrix coefficients, in `SkMatrix::get9` order
//! (row-major: scale-x, skew-x, translate-x, skew-y, scale-y, translate-y,
//! then the perspective row).
use vstd::prelude::*;

verus! {

/// Scale along x.
pub const M_SCALE_X: usize = 0;

/// Skew of x by y.
pub const M_SKEW_X: usize = 1;

/// Translation along x.
pub const M_TRANS_X: usize = 2;

/// Skew of y by x.
pub const M_SKEW_Y: usize = 3;

/// Scale along y.
pub const M_SCALE_Y: usize = 4;

/// Translation along y.
pub const M_TRANS_Y: usize = 5;

/// Perspective row, first coefficient.
pub const M_PERSP_0: usize = 6;

/// Perspective row, second coefficient.
pub const M_PERSP_1: usize = 7;

/// Perspective row, third coefficient (usually 1).
pub const M_PERSP_2: usize = 8;

} // verus!
