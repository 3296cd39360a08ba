//! Fill rules: non-zero winding, even-odd, and their inverse variants.
//!
//! A fill rule is carried across the native boundary as the two low bits of
//! `SkPathFillType`: bit 0 selects even-odd, bit 1 selects the inverse fill.
use vstd::prelude::*;

verus! {

/// Fill rule of a path (`SkPathFillType`).
#[derive(Debug, Clone, Copy, PartialEq, Eq, Hash, Structural)]
pub enum PathFillType {
    /// Non-zero winding (`kWinding`).
    Winding,
    /// Even-odd (`kEvenOdd`).
    EvenOdd,
    /// Non-zero winding, filling the outside (`kInverseWinding`).
    InverseWinding,
    /// Even-odd, filling the outside (`kInverseEvenOdd`).
    InverseEvenOdd,
}

impl PathFillType {
    /// The `SkPathFillType` number of this rule: 0 to 3.
    pub open spec fn code(self) -> u32 {
        match self {
            PathFillType::Winding => 0,
            PathFillType::EvenOdd => 1,
            PathFillType::InverseWinding => 2,
            PathFillType::InverseEvenOdd => 3,
        }
    }

    /// The rule whose number is `raw`, read from its two low bits only.
    pub open spec fn decode(raw: u32) -> PathFillType {
        let low = raw % 4;
        if low == 0 {
            PathFillType::Winding
        } else if low == 1 {
            PathFillType::EvenOdd
        } else if low == 2 {
            PathFillType::InverseWinding
        } else {
            PathFillType::InverseEvenOdd
        }
    }

    /// Whether the rule counts crossings by parity (even-odd) rather than by winding.
    pub open spec fn even_odd(self) -> bool {
        self == PathFillType::EvenOdd || self == PathFillType::InverseEvenOdd
    }

    /// Whether the rule fills the outside of the geometry.
    pub open spec fn inverse(self) -> bool {
        self == PathFillType::InverseWinding || self == PathFillType::InverseEvenOdd
    }

    /// The rule with the same counting and the inverse flag cleared.
    pub open spec fn non_inverse(self) -> PathFillType {
        if self.even_odd() {
            PathFillType::EvenOdd
        } else {
            PathFillType::Winding
        }
    }

    /// Builds the rule from a native number, keeping only its two low bits.
    pub fn from_raw(raw: u32) -> (ft: PathFillType)
        ensures
            ft == Self::decode(raw),
            ft.code() == raw % 4,
            raw % 4 == 0 ==> ft == PathFillType::Winding,
            raw % 4 == 1 ==> ft == PathFillType::EvenOdd,
            raw % 4 == 2 ==> ft == PathFillType::InverseWinding,
            raw % 4 == 3 ==> ft == PathFillType::InverseEvenOdd,
    {
        let low = raw & 3;
        assert(raw & 3 == raw % 4) by (bit_vector);
        if low == 0 {
            PathFillType::Winding
        } else if low == 1 {
            PathFillType::EvenOdd
        } else if low == 2 {
            PathFillType::InverseWinding
        } else {
            PathFillType::InverseEvenOdd
        }
    }

    /// Builds the rule from the low two bits of `SkPath::fFillType`.
    pub fn from_sk_bits(raw: u8) -> (ft: PathFillType)
        ensures
            ft == Self::decode(raw as u32),
            ft.code() == raw % 4,
            raw % 4 == 0 ==> ft == PathFillType::Winding,
            raw % 4 == 1 ==> ft == PathFillType::EvenOdd,
            raw % 4 == 2 ==> ft == PathFillType::InverseWinding,
            raw % 4 == 3 ==> ft == PathFillType::InverseEvenOdd,
    {
        let low = raw & 3;
        assert(raw & 3 == raw % 4) by (bit_vector);
        Self::from_raw(low as u32)
    }

    /// The native number of the rule (`SkPathFillType::Type`, 0 to 3).
    pub fn as_raw(self) -> (raw: u32)
        ensures
            raw == self.code(),
            raw < 4,
            self == PathFillType::Winding ==> raw == 0,
            self == PathFillType::EvenOdd ==> raw == 1,
            self == PathFillType::InverseWinding ==> raw == 2,
            self == PathFillType::InverseEvenOdd ==> raw == 3,
    {
        match self {
            PathFillType::Winding => 0,
            PathFillType::EvenOdd => 1,
            PathFillType::InverseWinding => 2,
            PathFillType::InverseEvenOdd => 3,
        }
    }

    /// Whether the rule is `EvenOdd` or `InverseEvenOdd` (bit 0 of the number).
    pub fn is_even_odd(self) -> (b: bool)
        ensures
            b == self.even_odd(),
            b == (self.code() % 2 == 1),
            b <==> (self == PathFillType::EvenOdd || self == PathFillType::InverseEvenOdd),
    {
        let raw = self.as_raw();
        assert(raw & 1 != 0 <==> raw % 2 == 1) by (bit_vector);
        raw & 1 != 0
    }

    /// Whether the rule is `InverseWinding` or `InverseEvenOdd` (bit 1 of the number).
    pub fn is_inverse(self) -> (b: bool)
        ensures
            b == self.inverse(),
            b == (self.code() >= 2),
            b <==> (self == PathFillType::InverseWinding || self == PathFillType::InverseEvenOdd),
    {
        let raw = self.as_raw();
        assert(raw < 4 ==> (raw & 2 != 0 <==> raw >= 2)) by (bit_vector);
        raw & 2 != 0
    }

    /// Clears the inverse bit: `Winding` or `EvenOdd`, with the same counting.
    pub fn to_non_inverse(self) -> (ft: PathFillType)
        ensures
            ft == self.non_inverse(),
            ft.code() == self.code() % 2,
            (self == PathFillType::Winding || self == PathFillType::InverseWinding) ==> ft == PathFillType::Winding,
            (self == PathFillType::EvenOdd || self == PathFillType::InverseEvenOdd) ==> ft == PathFillType::EvenOdd,
    {
        let raw = self.as_raw();
        assert(raw & 1 == raw % 2) by (bit_vector);
        Self::from_raw(raw & 1)
    }
}

/// Reading a rule back from its native number gives the same rule, and a
/// number is read back as the rule that its two low bits name.
pub proof fn fill_type_code_round_trip(ft: PathFillType, raw: u32)
    ensures
        PathFillType::decode(ft.code()) == ft,
        PathFillType::decode(raw).code() == raw % 4,
        PathFillType::decode(raw % 4) == PathFillType::decode(raw),
{
}

/// A rule is determined by its two flags: two rules that agree on even-odd
/// counting and on the inverse flag are the same rule.
pub proof fn fill_type_determined_by_flags(a: PathFillType, b: PathFillType)
    ensures
        (a.even_odd() == b.even_odd() && a.inverse() == b.inverse()) <==> a == b,
{
}

/// Clearing the inverse flag keeps the counting, never yields an inverse rule,
/// leaves a non-inverse rule unchanged, and doing it twice is doing it once.
pub proof fn non_inverse_laws(ft: PathFillType)
    ensures
        !ft.non_inverse().inverse(),
        ft.non_inverse().even_odd() == ft.even_odd(),
        !ft.inverse() ==> ft.non_inverse() == ft,
        ft.non_inverse().non_inverse() == ft.non_inverse(),
{
}

/// The rules carry the `SkPathFillType` numbers: winding 0, even-odd 1,
/// inverse winding 2, inverse even-odd 3; bit 0 of a number is the even-odd
/// flag and bit 1 the inverse flag.
pub proof fn fill_type_native_numbers(ft: PathFillType)
    ensures
        PathFillType::Winding.code() == 0,
        PathFillType::EvenOdd.code() == 1,
        PathFillType::InverseWinding.code() == 2,
        PathFillType::InverseEvenOdd.code() == 3,
        ft.even_odd() <==> ft.code() % 2 == 1,
        ft.inverse() <==> ft.code() >= 2,
{
}

} // verus!
