//! Classification of rounded rectangles.
use vstd::prelude::*;

verus! {

/// Kind of a rounded rectangle (`pk::SkRRect::Type`).
#[derive(Debug, Clone, Copy, PartialEq, Eq, Structural)]
pub enum RRectType {
    /// Empty, or without area.
    Empty,
    /// Axis-aligned rectangle with zero radii.
    Rect,
    /// Oval.
    Oval,
    /// All four corners have the same radii.
    Simple,
    /// Axis-aligned radii of nine-patch form.
    NinePatch,
    /// Any other rounded rectangle.
    Complex,
}

impl RRectType {
    /// The `SkRRect::Type` number: 0 to 5.
    pub open spec fn code(self) -> i32 {
        match self {
            RRectType::Empty => 0,
            RRectType::Rect => 1,
            RRectType::Oval => 2,
            RRectType::Simple => 3,
            RRectType::NinePatch => 4,
            RRectType::Complex => 5,
        }
    }

    /// The kind whose number is `raw`, if there is one.
    pub open spec fn decode(raw: i32) -> Option<RRectType> {
        if raw == 0 {
            Some(RRectType::Empty)
        } else if raw == 1 {
            Some(RRectType::Rect)
        } else if raw == 2 {
            Some(RRectType::Oval)
        } else if raw == 3 {
            Some(RRectType::Simple)
        } else if raw == 4 {
            Some(RRectType::NinePatch)
        } else if raw == 5 {
            Some(RRectType::Complex)
        } else {
            None
        }
    }

    /// The native number of the kind.
    pub fn to_raw(self) -> (raw: i32)
        ensures
            raw == self.code(),
            self == RRectType::Empty ==> raw == 0,
            self == RRectType::Rect ==> raw == 1,
            self == RRectType::Oval ==> raw == 2,
            self == RRectType::Simple ==> raw == 3,
            self == RRectType::NinePatch ==> raw == 4,
            self == RRectType::Complex ==> raw == 5,
    {
        match self {
            RRectType::Empty => 0,
            RRectType::Rect => 1,
            RRectType::Oval => 2,
            RRectType::Simple => 3,
            RRectType::NinePatch => 4,
            RRectType::Complex => 5,
        }
    }

    /// Reads the kind that the native side stored in a rounded rectangle.
    pub fn from_raw(raw: i32) -> (t: Option<RRectType>)
        ensures
            t == Self::decode(raw),
            raw == 0 ==> t == Some(RRectType::Empty),
            raw == 1 ==> t == Some(RRectType::Rect),
            raw == 2 ==> t == Some(RRectType::Oval),
            raw == 3 ==> t == Some(RRectType::Simple),
            raw == 4 ==> t == Some(RRectType::NinePatch),
            raw == 5 ==> t == Some(RRectType::Complex),
            t is Some <==> 0 <= raw <= 5,
    {
        if raw == 0 {
            Some(RRectType::Empty)
        } else if raw == 1 {
            Some(RRectType::Rect)
        } else if raw == 2 {
            Some(RRectType::Oval)
        } else if raw == 3 {
            Some(RRectType::Simple)
        } else if raw == 4 {
            Some(RRectType::NinePatch)
        } else if raw == 5 {
            Some(RRectType::Complex)
        } else {
            None
        }
    }
}

/// Every kind is read back from its own number.
pub proof fn rrect_type_code_round_trip(t: RRectType)
    ensures
        RRectType::decode(t.code()) == Some(t),
{
}

/// The kinds carry the `SkRRect::Type` numbers in declaration order:
/// empty 0, rect 1, oval 2, simple 3, nine-patch 4, complex 5; each of these
/// numbers is read back as that kind, and no other number names a kind.
pub proof fn rrect_type_native_numbers(raw: i32)
    ensures
        RRectType::Empty.code() == 0,
        RRectType::Rect.code() == 1,
        RRectType::Oval.code() == 2,
        RRectType::Simple.code() == 3,
        RRectType::NinePatch.code() == 4,
        RRectType::Complex.code() == 5,
        RRectType::decode(0) == Some(RRectType::Empty),
        RRectType::decode(1) == Some(RRectType::Rect),
        RRectType::decode(2) == Some(RRectType::Oval),
        RRectType::decode(3) == Some(RRectType::Simple),
        RRectType::decode(4) == Some(RRectType::NinePatch),
        RRectType::decode(5) == Some(RRectType::Complex),
        !(0 <= raw <= 5) ==> RRectType::decode(raw) is None,
        RRectType::decode(raw) matches Some(t) ==> t.code() == raw,
{
}

} // verus!
