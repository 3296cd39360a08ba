//! Boolean operations between two paths.
use vstd::prelude::*;

verus! {

/// Boolean operation between two paths (`pk::SkPathOp`).
#[derive(Debug, Clone, Copy, PartialEq, Eq, Structural)]
pub enum PathOp {
    /// Difference: the first path minus the second.
    Difference,
    /// Intersection of the two paths.
    Intersect,
    /// Union of the two paths.
    Union,
    /// Exclusive or: covered by exactly one of the paths.
    Xor,
    /// Reverse difference: the second path minus the first.
    ReverseDifference,
}

impl PathOp {
    /// The `SkPathOp` number of the operation: 0 to 4.
    pub open spec fn code(self) -> u32 {
        match self {
            PathOp::Difference => 0,
            PathOp::Intersect => 1,
            PathOp::Union => 2,
            PathOp::Xor => 3,
            PathOp::ReverseDifference => 4,
        }
    }

    /// The native number of the operation, as the native side expects it.
    pub fn to_raw(self) -> (raw: u32)
        ensures
            raw == self.code(),
            self == PathOp::Difference ==> raw == 0,
            self == PathOp::Intersect ==> raw == 1,
            self == PathOp::Union ==> raw == 2,
            self == PathOp::Xor ==> raw == 3,
            self == PathOp::ReverseDifference ==> raw == 4,
    {
        match self {
            PathOp::Difference => 0,
            PathOp::Intersect => 1,
            PathOp::Union => 2,
            PathOp::Xor => 3,
            PathOp::ReverseDifference => 4,
        }
    }
}

/// Distinct operations are handed to the native side as distinct numbers.
pub proof fn path_op_codes_distinct(a: PathOp, b: PathOp)
    ensures
        a.code() == b.code() ==> a == b,
        a.code() <= 4,
{
}

/// The operations are handed to the engine as their `SkPathOp` numbers:
/// difference 0, intersect 1, union 2, xor 3, reverse difference 4.
pub proof fn path_op_native_numbers()
    ensures
        PathOp::Difference.code() == 0,
        PathOp::Intersect.code() == 1,
        PathOp::Union.code() == 2,
        PathOp::Xor.code() == 3,
        PathOp::ReverseDifference.code() == 4,
{
}

} // verus!
