//! The rule by which a dash pattern is accepted.
use vstd::prelude::*;

verus! {

/// A dash pattern alternates "on" and "off" lengths, so it is usable exactly
/// when it has at least one pair: a non-empty list of even length.
pub open spec fn dash_pattern_usable(count: nat) -> bool {
    count > 0 && count % 2 == 0
}

/// Whether a dash pattern of `count` interval lengths is accepted: a dash
/// effect is made only from a non-empty, even-length list of intervals.
pub fn dash_interval_count_ok(count: usize) -> (ok: bool)
    ensures
        ok == dash_pattern_usable(count as nat),
        ok == (count > 0 && count % 2 == 0),
{
    !(count == 0 || count % 2 != 0)
}

/// A pattern is usable exactly when it is a non-empty list of even length,
/// with no bound on its length: adding an on/off pair to a usable pattern
/// keeps it usable, and an empty or odd-length list is never usable.
pub proof fn dash_pattern_laws(count: nat)
    ensures
        dash_pattern_usable(count) <==> (count > 0 && count % 2 == 0),
        dash_pattern_usable(count) ==> dash_pattern_usable(count + 2),
        dash_pattern_usable(count + 2) <==> count % 2 == 0,
        !dash_pattern_usable(0),
        count % 2 == 1 ==> !dash_pattern_usable(count),
{
}

} // verus!
