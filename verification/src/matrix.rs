//! How a source rectangle is fitted into a destination rectangle when a
//! matrix is built from the two (`SkMatrix::setRectToRect`).
use vstd::prelude::*;

verus! {

/// Scale and alignment policy for mapping one rectangle onto another
/// (`SkMatrix::ScaleToFit`).
#[derive(Debug, Clone, Copy, PartialEq, Eq, Hash, Structural)]
pub enum ScaleToFit {
    /// Scale x and y independently so that the source fills the destination.
    Fill,
    /// Uniform scale, aligned to the start edge of the destination.
    Start,
    /// Uniform scale, centered in the destination.
    Center,
    /// Uniform scale, aligned to the end edge of the destination.
    End,
}

impl ScaleToFit {
    /// The `SkMatrix::ScaleToFit` number: 0 to 3.
    pub open spec fn code(self) -> i32 {
        match self {
            ScaleToFit::Fill => 0,
            ScaleToFit::Start => 1,
            ScaleToFit::Center => 2,
            ScaleToFit::End => 3,
        }
    }

    /// The native number of the policy.
    pub fn to_raw(self) -> (raw: i32)
        ensures
            raw == self.code(),
            self == ScaleToFit::Fill ==> raw == 0,
            self == ScaleToFit::Start ==> raw == 1,
            self == ScaleToFit::Center ==> raw == 2,
            self == ScaleToFit::End ==> raw == 3,
    {
        match self {
            ScaleToFit::Fill => 0,
            ScaleToFit::Start => 1,
            ScaleToFit::Center => 2,
            ScaleToFit::End => 3,
        }
    }
}

/// Distinct policies are handed to the native side as distinct numbers.
pub proof fn scale_to_fit_codes_distinct(a: ScaleToFit, b: ScaleToFit)
    ensures
        a.code() == b.code() ==> a == b,
        0 <= a.code() < 4,
{
}

/// The policies are handed to the engine as their `SkMatrix::ScaleToFit`
/// numbers: fill 0, start 1, center 2, end 3.
pub proof fn scale_to_fit_native_numbers()
    ensures
        ScaleToFit::Fill.code() == 0,
        ScaleToFit::Start.code() == 1,
        ScaleToFit::Center.code() == 2,
        ScaleToFit::End.code() == 3,
{
}

} // verus!
