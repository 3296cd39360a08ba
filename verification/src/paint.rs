//! Paint style: whether geometry is filled, stroked, or both.
use vstd::prelude::*;

verus! {

/// Paint style (`pk::SkPaint::Style`).
#[derive(Debug, Clone, Copy, PartialEq, Eq, Structural)]
pub enum PaintStyle {
    /// Fill only.
    Fill,
    /// Stroke only.
    Stroke,
    /// Stroke and fill.
    StrokeAndFill,
}

impl PaintStyle {
    /// The `SkPaint::Style` number: 0 to 2.
    pub open spec fn code(self) -> u8 {
        match self {
            PaintStyle::Fill => 0,
            PaintStyle::Stroke => 1,
            PaintStyle::StrokeAndFill => 2,
        }
    }

    /// The native number of the style.
    pub fn to_raw(self) -> (raw: u8)
        ensures
            raw == self.code(),
            self == PaintStyle::Fill ==> raw == 0,
            self == PaintStyle::Stroke ==> raw == 1,
            self == PaintStyle::StrokeAndFill ==> raw == 2,
    {
        match self {
            PaintStyle::Fill => 0,
            PaintStyle::Stroke => 1,
            PaintStyle::StrokeAndFill => 2,
        }
    }
}

impl Default for PaintStyle {
    /// Fill.
    fn default() -> (s: Self)
        ensures
            s == PaintStyle::Fill,
    {
        PaintStyle::Fill
    }
}

/// Distinct styles are handed to the native side as distinct numbers.
pub proof fn paint_style_codes_distinct(a: PaintStyle, b: PaintStyle)
    ensures
        a.code() == b.code() ==> a == b,
{
}

/// The styles are handed to the engine as their `SkPaint::Style` numbers:
/// fill 0, stroke 1, stroke-and-fill 2; every number is below 3.
pub proof fn paint_style_native_numbers(s: PaintStyle)
    ensures
        PaintStyle::Fill.code() == 0,
        PaintStyle::Stroke.code() == 1,
        PaintStyle::StrokeAndFill.code() == 2,
        s.code() < 3,
{
}

} // verus!
