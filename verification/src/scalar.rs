//! Scalars of the grid: every length in the scene is a whole number of grid
//! steps, a millionth of a world unit each. A sum that leaves the range of a
//! coordinate is held at the end of that range.

use vstd::prelude::*;

verus! {

/// Grid steps in one world unit.
pub const STEPS_PER_UNIT: i64 = 1_000_000;

/// `v` held to the range of a coordinate: values past either end of `i64`
/// stay at that end.
pub open spec fn clamp_coord(v: int) -> int {
    if v < i64::MIN {
        i64::MIN as int
    } else if v > i64::MAX {
        i64::MAX as int
    } else {
        v
    }
}

/// Whether `v` is a coordinate as it stands.
pub open spec fn is_coord(v: int) -> bool {
    i64::MIN <= v <= i64::MAX
}

/// Holds `v` to the range of a coordinate.
pub fn saturate(v: i128) -> (out: i64)
    ensures
        out as int == clamp_coord(v as int),
{
    if v < i64::MIN as i128 {
        i64::MIN
    } else if v > i64::MAX as i128 {
        i64::MAX
    } else {
        v as i64
    }
}

} // verus!
