//! Turns: what a held key or a mouse event asks for.
//!
//! A turn names an axis and a signed angle. The rules in this library decide
//! which turns a frame asks for, in what order and by what angle; carrying a
//! turn out on a position or an orientation takes sines and cosines, and is
//! the work of the engine that draws the scene.

use vstd::prelude::*;

verus! {

/// Angle units in one radian: an angle is a whole number of hundred-millionths
/// of a radian.
pub const ANGLE_UNITS_PER_RADIAN: i64 = 100_000_000;

/// The angle of one frame's turn under a held key: a fifth of a radian. It is
/// per frame, not per second.
pub const TURN_ANGLE: i64 = 20_000_000;

/// An axis to turn about.
#[derive(Clone, Copy, Debug, PartialEq, Eq, Structural)]
pub enum Axis {
    X,
    Y,
    Z,
}

/// One turn about an axis.
#[derive(Clone, Copy, Debug, PartialEq, Eq, Structural)]
pub struct Turn {
    pub axis: Axis,
    /// The angle in angle units, positive by the right-hand rule: a positive
    /// turn about X carries Y toward Z, about Y carries Z toward X, and about
    /// Z carries X toward Y.
    pub angle: i64,
}

impl Turn {
    /// The fixed turn about `axis` with the right-hand rule.
    pub open spec fn spec_positive(axis: Axis) -> Turn {
        Turn { axis, angle: TURN_ANGLE }
    }

    /// The fixed turn about `axis` against the right-hand rule.
    pub open spec fn spec_negative(axis: Axis) -> Turn {
        Turn { axis, angle: (-TURN_ANGLE) as i64 }
    }

    /// The fixed turn about `axis` with the right-hand rule.
    #[verifier::when_used_as_spec(spec_positive)]
    pub fn positive(axis: Axis) -> (out: Turn)
        ensures
            out == Turn::spec_positive(axis),
            out.axis == axis,
            out.angle == TURN_ANGLE,
    {
        Turn { axis, angle: TURN_ANGLE }
    }

    /// The fixed turn about `axis` against the right-hand rule.
    #[verifier::when_used_as_spec(spec_negative)]
    pub fn negative(axis: Axis) -> (out: Turn)
        ensures
            out == Turn::spec_negative(axis),
            out.axis == axis,
            out.angle == -TURN_ANGLE,
    {
        Turn { axis, angle: -TURN_ANGLE }
    }

    /// Whether `other` is the turn back: about the same axis, by the opposite
    /// angle.
    pub open spec fn undoes(self, other: Turn) -> bool {
        self.axis == other.axis && self.angle + other.angle == 0
    }
}

/// The plan with `turn` added at its end if `held`, and as it was if not.
pub open spec fn with_turn_if(plan: Seq<Turn>, held: bool, turn: Turn) -> Seq<Turn> {
    if held {
        plan.push(turn)
    } else {
        plan
    }
}

/// How many turns a key asks for in a frame: one if it is held, none if it is
/// not.
pub open spec fn turns_for(held: bool) -> nat {
    if held {
        1
    } else {
        0
    }
}

/// Adds `turn` to the end of `plan` if `held`.
pub fn push_if(plan: &mut Vec<Turn>, held: bool, turn: Turn)
    ensures
        final(plan)@ == with_turn_if(old(plan)@, held, turn),
{
    if held {
        plan.push(turn);
    }
}

/// The fixed turn is a fifth of a radian.
pub proof fn lemma_turn_angle()
    ensures
        5 * TURN_ANGLE == ANGLE_UNITS_PER_RADIAN,
{
}

} // verus!
