//! Path verbs and how a step of the native path iterator is decoded.
//!
//! The native iterator reports each step as a verb number together with a
//! buffer of four points; which of those points belong to the step depends on
//! the verb alone.
use vstd::prelude::*;

verus! {

/// Path verb (`pk::SkPath::Verb`): one element of a path.
#[derive(Debug, Clone, Copy, PartialEq, Eq, Structural)]
pub enum PathVerb {
    /// Moves to the start of a new contour.
    Move,
    /// Straight line segment.
    Line,
    /// Quadratic Bézier segment.
    Quad,
    /// Conic (rational quadratic) segment.
    Conic,
    /// Cubic Bézier segment.
    Cubic,
    /// Closes the contour.
    Close,
    /// The iterator has no more elements.
    Done,
}

impl PathVerb {
    /// The `SkPath::Verb` number of this verb: 0 to 6.
    pub open spec fn code(self) -> u32 {
        match self {
            PathVerb::Move => 0,
            PathVerb::Line => 1,
            PathVerb::Quad => 2,
            PathVerb::Conic => 3,
            PathVerb::Cubic => 4,
            PathVerb::Close => 5,
            PathVerb::Done => 6,
        }
    }

    /// The verb whose number is `raw`, if there is one.
    pub open spec fn decode(raw: u32) -> Option<PathVerb> {
        if raw == 0 {
            Some(PathVerb::Move)
        } else if raw == 1 {
            Some(PathVerb::Line)
        } else if raw == 2 {
            Some(PathVerb::Quad)
        } else if raw == 3 {
            Some(PathVerb::Conic)
        } else if raw == 4 {
            Some(PathVerb::Cubic)
        } else if raw == 5 {
            Some(PathVerb::Close)
        } else if raw == 6 {
            Some(PathVerb::Done)
        } else {
            None
        }
    }

    /// Where the points of a step with this verb lie in the iterator's
    /// four-point buffer: the index of the first one and how many there are.
    /// A line reports its start and end; a quad or conic its control and end
    /// point; a cubic its two controls and end point; a move its target.
    pub open spec fn slots(self) -> (usize, usize) {
        match self {
            PathVerb::Move => (0, 1),
            PathVerb::Line => (0, 2),
            PathVerb::Quad => (1, 2),
            PathVerb::Conic => (1, 2),
            PathVerb::Cubic => (1, 3),
            PathVerb::Close => (0, 0),
            PathVerb::Done => (0, 0),
        }
    }

    /// The native number of the verb.
    pub fn to_raw(self) -> (raw: u32)
        ensures
            raw == self.code(),
            self == PathVerb::Move ==> raw == 0,
            self == PathVerb::Line ==> raw == 1,
            self == PathVerb::Quad ==> raw == 2,
            self == PathVerb::Conic ==> raw == 3,
            self == PathVerb::Cubic ==> raw == 4,
            self == PathVerb::Close ==> raw == 5,
            self == PathVerb::Done ==> raw == 6,
    {
        match self {
            PathVerb::Move => 0,
            PathVerb::Line => 1,
            PathVerb::Quad => 2,
            PathVerb::Conic => 3,
            PathVerb::Cubic => 4,
            PathVerb::Close => 5,
            PathVerb::Done => 6,
        }
    }

    /// Reads a verb number reported by the native side; `None` for a number
    /// that names no verb.
    pub fn from_raw(raw: u32) -> (v: Option<PathVerb>)
        ensures
            v == Self::decode(raw),
            raw == 0 ==> v == Some(PathVerb::Move),
            raw == 1 ==> v == Some(PathVerb::Line),
            raw == 2 ==> v == Some(PathVerb::Quad),
            raw == 3 ==> v == Some(PathVerb::Conic),
            raw == 4 ==> v == Some(PathVerb::Cubic),
            raw == 5 ==> v == Some(PathVerb::Close),
            raw == 6 ==> v == Some(PathVerb::Done),
            v is Some <==> raw <= 6,
            v matches Some(verb) ==> verb.code() == raw,
    {
        if raw == 0 {
            Some(PathVerb::Move)
        } else if raw == 1 {
            Some(PathVerb::Line)
        } else if raw == 2 {
            Some(PathVerb::Quad)
        } else if raw == 3 {
            Some(PathVerb::Conic)
        } else if raw == 4 {
            Some(PathVerb::Cubic)
        } else if raw == 5 {
            Some(PathVerb::Close)
        } else if raw == 6 {
            Some(PathVerb::Done)
        } else {
            None
        }
    }

    /// Decodes one step of the native iterator: the verb of the element that
    /// the step yields, or `None` when the iteration is over (the `Done` verb,
    /// or a number that names no verb).
    pub fn step(raw: u32) -> (v: Option<PathVerb>)
        ensures
            v is Some <==> raw <= 5,
            raw == 0 ==> v == Some(PathVerb::Move),
            raw == 1 ==> v == Some(PathVerb::Line),
            raw == 2 ==> v == Some(PathVerb::Quad),
            raw == 3 ==> v == Some(PathVerb::Conic),
            raw == 4 ==> v == Some(PathVerb::Cubic),
            raw == 5 ==> v == Some(PathVerb::Close),
            v matches Some(verb) ==> verb.code() == raw && verb != PathVerb::Done,
            v matches Some(verb) ==> Self::decode(raw) == Some(verb),
    {
        match Self::from_raw(raw) {
            Some(PathVerb::Done) => None,
            other => other,
        }
    }

    /// The buffer slots that hold the points of a step with this verb, as
    /// `(first, count)`; they always lie within the four-point buffer.
    pub fn point_slots(self) -> (s: (usize, usize))
        ensures
            s == self.slots(),
            self == PathVerb::Move ==> s == (0usize, 1usize),
            self == PathVerb::Line ==> s == (0usize, 2usize),
            self == PathVerb::Quad ==> s == (1usize, 2usize),
            self == PathVerb::Conic ==> s == (1usize, 2usize),
            self == PathVerb::Cubic ==> s == (1usize, 3usize),
            self == PathVerb::Close ==> s == (0usize, 0usize),
            self == PathVerb::Done ==> s == (0usize, 0usize),
            s.0 + s.1 <= 4,
    {
        match self {
            PathVerb::Move => (0, 1),
            PathVerb::Line => (0, 2),
            PathVerb::Quad => (1, 2),
            PathVerb::Conic => (1, 2),
            PathVerb::Cubic => (1, 3),
            PathVerb::Close => (0, 0),
            PathVerb::Done => (0, 0),
        }
    }
}

/// Every verb is read back from its own number, and distinct verbs have
/// distinct numbers.
pub proof fn path_verb_code_round_trip(a: PathVerb, b: PathVerb)
    ensures
        PathVerb::decode(a.code()) == Some(a),
        a.code() == b.code() ==> a == b,
{
}

/// The verbs carry the `SkPath::Verb` numbers in declaration order, move 0
/// through done 6, and no larger number names a verb. A step's points are
/// the move target; a line's start and end; a quad's or conic's control and
/// end, which follow the start point in slot 0; a cubic's two controls and
/// end; and none for a close.
pub proof fn path_verb_native_numbers(raw: u32)
    ensures
        PathVerb::Move.code() == 0,
        PathVerb::Line.code() == 1,
        PathVerb::Quad.code() == 2,
        PathVerb::Conic.code() == 3,
        PathVerb::Cubic.code() == 4,
        PathVerb::Close.code() == 5,
        PathVerb::Done.code() == 6,
        raw <= 6 ==> (PathVerb::decode(raw) matches Some(v) && v.code() == raw),
        raw > 6 ==> PathVerb::decode(raw) is None,
        PathVerb::Move.slots() == (0usize, 1usize),
        PathVerb::Line.slots() == (0usize, 2usize),
        PathVerb::Quad.slots() == (1usize, 2usize),
        PathVerb::Conic.slots() == (1usize, 2usize),
        PathVerb::Cubic.slots() == (1usize, 3usize),
        PathVerb::Close.slots().1 == 0,
{
}

} // verus!
