//! The corner of a rectangle at which an added contour starts.
use vstd::prelude::*;

verus! {

/// Starting corner of a rectangle contour, and the index of a corner's radii
/// in a rounded rectangle (`SkRRect` corner order).
#[derive(Debug, Clone, Copy, PartialEq, Eq, Structural)]
pub enum RectCorner {
    /// Upper-left corner.
    UpperLeft,
    /// Upper-right corner.
    UpperRight,
    /// Lower-right corner.
    LowerRight,
    /// Lower-left corner.
    LowerLeft,
}

impl RectCorner {
    /// The corner's number: clockwise from the upper-left, 0 to 3.
    pub open spec fn code(self) -> u32 {
        match self {
            RectCorner::UpperLeft => 0,
            RectCorner::UpperRight => 1,
            RectCorner::LowerRight => 2,
            RectCorner::LowerLeft => 3,
        }
    }

    /// The corner's number, which is also the index of its radii.
    pub fn to_raw(self) -> (raw: u32)
        ensures
            raw == self.code(),
            self == RectCorner::UpperLeft ==> raw == 0,
            self == RectCorner::UpperRight ==> raw == 1,
            self == RectCorner::LowerRight ==> raw == 2,
            self == RectCorner::LowerLeft ==> raw == 3,
            raw < 4,
    {
        match self {
            RectCorner::UpperLeft => 0,
            RectCorner::UpperRight => 1,
            RectCorner::LowerRight => 2,
            RectCorner::LowerLeft => 3,
        }
    }
}

impl Default for RectCorner {
    /// The upper-left corner.
    fn default() -> (c: Self)
        ensures
            c == RectCorner::UpperLeft,
    {
        RectCorner::UpperLeft
    }
}

impl From<RectCorner> for u32 {
    fn from(c: RectCorner) -> (raw: u32) {
        c.to_raw()
    }
}

impl vstd::std_specs::convert::FromSpecImpl<RectCorner> for u32 {
    open spec fn obeys_from_spec() -> bool {
        true
    }

    open spec fn from_spec(c: RectCorner) -> u32 {
        c.code()
    }
}

/// The four corners have the four distinct numbers 0 to 3, so each names a
/// distinct slot of a four-entry radii array.
pub proof fn rect_corner_codes_distinct(a: RectCorner, b: RectCorner)
    ensures
        a.code() == b.code() ==> a == b,
        a.code() < 4,
{
}

/// The corners are numbered clockwise from the upper-left, which is also the
/// order of the radii in a rounded rectangle: 0, 1, 2, 3.
pub proof fn rect_corner_native_numbers()
    ensures
        RectCorner::UpperLeft.code() == 0,
        RectCorner::UpperRight.code() == 1,
        RectCorner::LowerRight.code() == 2,
        RectCorner::LowerLeft.code() == 3,
{
}

} // verus!
