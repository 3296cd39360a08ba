//! Winding direction of the contours that a path adds.
use vstd::prelude::*;

verus! {

/// Direction in which a closed shape is wound (`pk::SkPathDirection`).
#[derive(Debug, Clone, Copy, PartialEq, Eq, Structural)]
pub enum Direction {
    /// Clockwise.
    Cw,
    /// Counter-clockwise.
    Ccw,
}

impl Direction {
    /// The `SkPathDirection` number: 0 for clockwise, 1 for counter-clockwise.
    pub open spec fn code(self) -> u32 {
        match self {
            Direction::Cw => 0,
            Direction::Ccw => 1,
        }
    }

    /// The direction whose number is `raw`, if there is one.
    pub open spec fn decode(raw: u32) -> Option<Direction> {
        if raw == 0 {
            Some(Direction::Cw)
        } else if raw == 1 {
            Some(Direction::Ccw)
        } else {
            None
        }
    }

    /// The native number of the direction.
    pub fn to_raw(self) -> (raw: u32)
        ensures
            raw == self.code(),
            self == Direction::Cw ==> raw == 0,
            self == Direction::Ccw ==> raw == 1,
    {
        match self {
            Direction::Cw => 0,
            Direction::Ccw => 1,
        }
    }

    /// Reads a direction number reported by the native side.
    pub fn from_raw(raw: u32) -> (d: Option<Direction>)
        ensures
            d == Self::decode(raw),
            raw == 0 ==> d == Some(Direction::Cw),
            raw == 1 ==> d == Some(Direction::Ccw),
            d is Some <==> raw <= 1,
    {
        if raw == 0 {
            Some(Direction::Cw)
        } else if raw == 1 {
            Some(Direction::Ccw)
        } else {
            None
        }
    }
}

impl Default for Direction {
    /// Clockwise.
    fn default() -> (d: Self)
        ensures
            d == Direction::Cw,
    {
        Direction::Cw
    }
}

/// Every direction is read back from its own number.
pub proof fn direction_code_round_trip(d: Direction)
    ensures
        Direction::decode(d.code()) == Some(d),
{
}

/// Clockwise is `SkPathDirection` number 0 and counter-clockwise number 1;
/// each is read back from its number and no other number names a direction.
pub proof fn direction_native_numbers(raw: u32)
    ensures
        Direction::Cw.code() == 0,
        Direction::Ccw.code() == 1,
        Direction::decode(0) == Some(Direction::Cw),
        Direction::decode(1) == Some(Direction::Ccw),
        raw > 1 ==> Direction::decode(raw) is None,
{
}

} // verus!
