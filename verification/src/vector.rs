//! Positions and displacements on the grid.
//!
//! [`GridVec`] is what the program holds: three `i64` coordinates, in grid
//! steps. [`IntVec`] is its mathematical model, three unbounded integers, on
//! which sums are stated. An operation on `GridVec` computes the exact
//! `IntVec` result and holds each coordinate to the range of `i64`, so it is
//! defined on every input and exact whenever the exact result is on the grid.

use crate::scalar::clamp_coord;
use crate::scalar::is_coord;
use crate::scalar::saturate;
use vstd::prelude::*;

verus! {

/// A point or displacement in exact integers.
pub struct IntVec {
    pub x: int,
    pub y: int,
    pub z: int,
}

impl IntVec {
    /// The sum of two vectors.
    pub open spec fn plus(self, other: IntVec) -> IntVec {
        IntVec { x: self.x + other.x, y: self.y + other.y, z: self.z + other.z }
    }

    /// The vector `factor` times as long.
    pub open spec fn scaled(self, factor: int) -> IntVec {
        IntVec { x: factor * self.x, y: factor * self.y, z: factor * self.z }
    }

    /// Whether every coordinate fits a `GridVec`.
    pub open spec fn on_grid(self) -> bool {
        is_coord(self.x) && is_coord(self.y) && is_coord(self.z)
    }

    /// Each coordinate held to the range of `i64`.
    pub open spec fn clamped(self) -> IntVec {
        IntVec { x: clamp_coord(self.x), y: clamp_coord(self.y), z: clamp_coord(self.z) }
    }
}

/// A point or displacement in grid steps.
#[derive(Clone, Copy, Debug, PartialEq, Eq, Structural)]
pub struct GridVec {
    pub x: i64,
    pub y: i64,
    pub z: i64,
}

impl View for GridVec {
    type V = IntVec;

    open spec fn view(&self) -> IntVec {
        IntVec { x: self.x as int, y: self.y as int, z: self.z as int }
    }
}

impl GridVec {
    /// The vector with the given coordinates, in grid steps.
    pub fn new(x: i64, y: i64, z: i64) -> (out: GridVec)
        ensures
            out == (GridVec { x, y, z }),
    {
        GridVec { x, y, z }
    }

    /// `self + other`, each coordinate held to the range of `i64`.
    pub fn plus(self, other: GridVec) -> (out: GridVec)
        ensures
            out@ == self@.plus(other@).clamped(),
    {
        GridVec {
            x: saturate(self.x as i128 + other.x as i128),
            y: saturate(self.y as i128 + other.y as i128),
            z: saturate(self.z as i128 + other.z as i128),
        }
    }

    /// `self + factor * other`, each coordinate held to the range of `i64`.
    pub fn plus_scaled(self, other: GridVec, factor: i64) -> (out: GridVec)
        ensures
            out@ == self@.plus(other@.scaled(factor as int)).clamped(),
    {
        GridVec {
            x: saturate(self.x as i128 + scale_coord(factor, other.x)),
            y: saturate(self.y as i128 + scale_coord(factor, other.y)),
            z: saturate(self.z as i128 + scale_coord(factor, other.z)),
        }
    }
}

/// The exact product of a factor and a coordinate. Two `i64` values multiply
/// to at most `2^126` in magnitude, which leaves room in `i128` to add a
/// third.
fn scale_coord(factor: i64, coord: i64) -> (out: i128)
    ensures
        out == factor * coord,
        -0x4000_0000_0000_0000_0000_0000_0000_0000 <= out
            <= 0x4000_0000_0000_0000_0000_0000_0000_0000,
{
    assert(-0x4000_0000_0000_0000_0000_0000_0000_0000 <= factor * coord
        <= 0x4000_0000_0000_0000_0000_0000_0000_0000) by (nonlinear_arith)
        requires
            -0x8000_0000_0000_0000 <= factor <= 0x7fff_ffff_ffff_ffff,
            -0x8000_0000_0000_0000 <= coord <= 0x7fff_ffff_ffff_ffff,
    ;
    factor as i128 * coord as i128
}

} // verus!
