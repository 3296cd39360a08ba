//! Indexing into the points of a path.
use vstd::prelude::*;

verus! {

/// Whether `index` names one of the `count` points of a path: points are
/// indexed from 0, and a negative index names none.
pub fn point_index_in_range(index: i32, count: i32) -> (ok: bool)
    ensures
        ok <==> 0 <= index < count,
{
    index >= 0 && index < count
}

} // verus!
