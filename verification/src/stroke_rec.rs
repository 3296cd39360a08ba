//! Stroke parameters shared with the native stroker: caps, joins and styles.
use vstd::prelude::*;

verus! {

/// End cap of a stroked open contour (`pk::SkPaint::Cap`).
#[derive(Debug, Clone, Copy, PartialEq, Eq, Structural)]
pub enum StrokeCap {
    /// Flat end at the endpoint.
    Butt,
    /// Semicircular end.
    Round,
    /// Square end extending past the endpoint.
    Square,
}

/// Join between stroked segments (`pk::SkPaint::Join`).
#[derive(Debug, Clone, Copy, PartialEq, Eq, Structural)]
pub enum StrokeJoin {
    /// Sharp (mitered) corner.
    Miter,
    /// Rounded corner.
    Round,
    /// Cut-off (bevelled) corner.
    Bevel,
}

/// Initial style of a new stroke record (`pk::SkStrokeRec::InitStyle`).
#[derive(Debug, Clone, Copy, PartialEq, Eq, Structural)]
pub enum StrokeRecInit {
    /// Hairline.
    Hairline,
    /// Fill.
    Fill,
}

/// Style that a stroke record reports (`SkStrokeRec::getStyle`).
#[derive(Debug, Clone, Copy, PartialEq, Eq, Structural)]
pub enum StrokeRecStyleTag {
    /// Hairline.
    Hairline,
    /// Fill.
    Fill,
    /// Stroke.
    Stroke,
    /// Stroke and fill.
    StrokeAndFill,
}

impl StrokeCap {
    /// The `SkPaint::Cap` number: 0 to 2.
    pub open spec fn code(self) -> u32 {
        match self {
            StrokeCap::Butt => 0,
            StrokeCap::Round => 1,
            StrokeCap::Square => 2,
        }
    }

    /// The cap whose number is `raw`, if there is one.
    pub open spec fn decode(raw: u32) -> Option<StrokeCap> {
        if raw == 0 {
            Some(StrokeCap::Butt)
        } else if raw == 1 {
            Some(StrokeCap::Round)
        } else if raw == 2 {
            Some(StrokeCap::Square)
        } else {
            None
        }
    }

    /// The native number of the cap.
    pub fn to_raw(self) -> (raw: u32)
        ensures
            raw == self.code(),
            self == StrokeCap::Butt ==> raw == 0,
            self == StrokeCap::Round ==> raw == 1,
            self == StrokeCap::Square ==> raw == 2,
    {
        match self {
            StrokeCap::Butt => 0,
            StrokeCap::Round => 1,
            StrokeCap::Square => 2,
        }
    }

    /// Reads a cap number reported by the native side.
    pub fn from_raw(raw: u32) -> (c: Option<StrokeCap>)
        ensures
            c == Self::decode(raw),
            raw == 0 ==> c == Some(StrokeCap::Butt),
            raw == 1 ==> c == Some(StrokeCap::Round),
            raw == 2 ==> c == Some(StrokeCap::Square),
            c is Some <==> raw <= 2,
    {
        if raw == 0 {
            Some(StrokeCap::Butt)
        } else if raw == 1 {
            Some(StrokeCap::Round)
        } else if raw == 2 {
            Some(StrokeCap::Square)
        } else {
            None
        }
    }
}

impl StrokeJoin {
    /// The `SkPaint::Join` number: 0 to 2.
    pub open spec fn code(self) -> u8 {
        match self {
            StrokeJoin::Miter => 0,
            StrokeJoin::Round => 1,
            StrokeJoin::Bevel => 2,
        }
    }

    /// The join whose number is `raw`, if there is one.
    pub open spec fn decode(raw: u8) -> Option<StrokeJoin> {
        if raw == 0 {
            Some(StrokeJoin::Miter)
        } else if raw == 1 {
            Some(StrokeJoin::Round)
        } else if raw == 2 {
            Some(StrokeJoin::Bevel)
        } else {
            None
        }
    }

    /// The native number of the join.
    pub fn to_raw(self) -> (raw: u8)
        ensures
            raw == self.code(),
            self == StrokeJoin::Miter ==> raw == 0,
            self == StrokeJoin::Round ==> raw == 1,
            self == StrokeJoin::Bevel ==> raw == 2,
    {
        match self {
            StrokeJoin::Miter => 0,
            StrokeJoin::Round => 1,
            StrokeJoin::Bevel => 2,
        }
    }

    /// Reads a join number reported by the native side.
    pub fn from_raw(raw: u8) -> (j: Option<StrokeJoin>)
        ensures
            j == Self::decode(raw),
            raw == 0 ==> j == Some(StrokeJoin::Miter),
            raw == 1 ==> j == Some(StrokeJoin::Round),
            raw == 2 ==> j == Some(StrokeJoin::Bevel),
            j is Some <==> raw <= 2,
    {
        if raw == 0 {
            Some(StrokeJoin::Miter)
        } else if raw == 1 {
            Some(StrokeJoin::Round)
        } else if raw == 2 {
            Some(StrokeJoin::Bevel)
        } else {
            None
        }
    }
}

impl StrokeRecInit {
    /// The `SkStrokeRec::InitStyle` number: 0 for hairline, 1 for fill.
    pub open spec fn code(self) -> u32 {
        match self {
            StrokeRecInit::Hairline => 0,
            StrokeRecInit::Fill => 1,
        }
    }

    /// The native number of the initial style.
    pub fn to_raw(self) -> (raw: u32)
        ensures
            raw == self.code(),
            self == StrokeRecInit::Hairline ==> raw == 0,
            self == StrokeRecInit::Fill ==> raw == 1,
    {
        match self {
            StrokeRecInit::Hairline => 0,
            StrokeRecInit::Fill => 1,
        }
    }
}

impl StrokeRecStyleTag {
    /// The `SkStrokeRec::Style` number: 0 to 3.
    pub open spec fn code(self) -> u32 {
        match self {
            StrokeRecStyleTag::Hairline => 0,
            StrokeRecStyleTag::Fill => 1,
            StrokeRecStyleTag::Stroke => 2,
            StrokeRecStyleTag::StrokeAndFill => 3,
        }
    }

    /// The style whose number is `raw`, if there is one.
    pub open spec fn decode(raw: u32) -> Option<StrokeRecStyleTag> {
        if raw == 0 {
            Some(StrokeRecStyleTag::Hairline)
        } else if raw == 1 {
            Some(StrokeRecStyleTag::Fill)
        } else if raw == 2 {
            Some(StrokeRecStyleTag::Stroke)
        } else if raw == 3 {
            Some(StrokeRecStyleTag::StrokeAndFill)
        } else {
            None
        }
    }

    /// Reads the style number that the native stroke record reports.
    pub fn from_raw(raw: u32) -> (t: Option<StrokeRecStyleTag>)
        ensures
            t == Self::decode(raw),
            raw == 0 ==> t == Some(StrokeRecStyleTag::Hairline),
            raw == 1 ==> t == Some(StrokeRecStyleTag::Fill),
            raw == 2 ==> t == Some(StrokeRecStyleTag::Stroke),
            raw == 3 ==> t == Some(StrokeRecStyleTag::StrokeAndFill),
            t is Some <==> raw <= 3,
    {
        if raw == 0 {
            Some(StrokeRecStyleTag::Hairline)
        } else if raw == 1 {
            Some(StrokeRecStyleTag::Fill)
        } else if raw == 2 {
            Some(StrokeRecStyleTag::Stroke)
        } else if raw == 3 {
            Some(StrokeRecStyleTag::StrokeAndFill)
        } else {
            None
        }
    }
}

/// Caps, joins and reported styles are each read back from their own number;
/// the two initial styles have distinct numbers.
pub proof fn stroke_codes_round_trip(
    c: StrokeCap,
    j: StrokeJoin,
    t: StrokeRecStyleTag,
    a: StrokeRecInit,
    b: StrokeRecInit,
)
    ensures
        StrokeCap::decode(c.code()) == Some(c),
        StrokeJoin::decode(j.code()) == Some(j),
        StrokeRecStyleTag::decode(t.code()) == Some(t),
        a.code() == b.code() ==> a == b,
{
}

/// The stroke enums carry their Skia numbers: caps butt 0, round 1, square
/// 2; joins miter 0, round 1, bevel 2; initial styles hairline 0, fill 1;
/// reported styles hairline 0, fill 1, stroke 2, stroke-and-fill 3. Each
/// reported number is read back as that style and no larger number names one.
pub proof fn stroke_native_numbers(raw: u32)
    ensures
        StrokeCap::Butt.code() == 0,
        StrokeCap::Round.code() == 1,
        StrokeCap::Square.code() == 2,
        StrokeJoin::Miter.code() == 0,
        StrokeJoin::Round.code() == 1,
        StrokeJoin::Bevel.code() == 2,
        StrokeRecInit::Hairline.code() == 0,
        StrokeRecInit::Fill.code() == 1,
        StrokeRecStyleTag::Hairline.code() == 0,
        StrokeRecStyleTag::Fill.code() == 1,
        StrokeRecStyleTag::Stroke.code() == 2,
        StrokeRecStyleTag::StrokeAndFill.code() == 3,
        StrokeRecStyleTag::decode(0) == Some(StrokeRecStyleTag::Hairline),
        StrokeRecStyleTag::decode(1) == Some(StrokeRecStyleTag::Fill),
        StrokeRecStyleTag::decode(2) == Some(StrokeRecStyleTag::Stroke),
        StrokeRecStyleTag::decode(3) == Some(StrokeRecStyleTag::StrokeAndFill),
        raw > 3 ==> StrokeRecStyleTag::decode(raw) is None,
        StrokeCap::decode(0) == Some(StrokeCap::Butt),
        StrokeCap::decode(1) == Some(StrokeCap::Round),
        StrokeCap::decode(2) == Some(StrokeCap::Square),
        raw > 2 ==> StrokeCap::decode(raw) is None,
        StrokeJoin::decode(0) == Some(StrokeJoin::Miter),
        StrokeJoin::decode(1) == Some(StrokeJoin::Round),
        StrokeJoin::decode(2) == Some(StrokeJoin::Bevel),
{
}

} // verus!
