//! The planar mode: the player circles in the coordinate planes, and the
//! camera rides at a fixed offset from it.
//!
//! `W` and `S` turn the player's position in the XY plane, in opposite
//! directions; `A` turns it in the XZ plane. There is no key for the opposite
//! turn in XZ: `D` does nothing here.

use crate::input::Keys;
use crate::scalar::clamp_coord;
use crate::scalar::saturate;
use crate::turn::push_if;
use crate::turn::turns_for;
use crate::turn::with_turn_if;
use crate::turn::Axis;
use crate::turn::Turn;
use crate::turn::TURN_ANGLE;
use crate::vector::GridVec;
use crate::vector::IntVec;
use vstd::prelude::*;

verus! {

/// How far above the player the camera rides: four and a half units.
pub const CAMERA_RISE: i64 = 4_500_000;

/// How far behind the player, along Z, the camera rides: nine units.
pub const CAMERA_SETBACK: i64 = 9_000_000;

/// The turns of the player's position about the origin that a frame's keys
/// ask for, in the order in which they are to be carried out: `W` turns X
/// toward Y, then `S` turns Y toward X, then `A` turns X toward Z, each by the
/// fixed angle and only if its key is held. `D` is not read.
pub open spec fn turns_asked(keys: Keys) -> Seq<Turn> {
    let after_w = with_turn_if(Seq::empty(), keys.w, Turn::positive(Axis::Z));
    let after_s = with_turn_if(after_w, keys.s, Turn::negative(Axis::Z));
    with_turn_if(after_s, keys.a, Turn::negative(Axis::Y))
}

/// Where the camera rides for a player at `player`: level with it in X, a
/// fixed rise above it and a fixed setback behind it, held to the grid.
pub open spec fn camera_spot(player: IntVec) -> IntVec {
    IntVec {
        x: player.x,
        y: clamp_coord(player.y + CAMERA_RISE),
        z: clamp_coord(player.z + CAMERA_SETBACK),
    }
}

/// Plans the player's move for one frame: the turns of its position about the
/// origin, to be carried out in the order given.
pub fn move_circle(keys: Keys) -> (out: Vec<Turn>)
    ensures
        out@ == turns_asked(keys),
{
    let mut plan: Vec<Turn> = Vec::new();
    push_if(&mut plan, keys.w, Turn::positive(Axis::Z));
    push_if(&mut plan, keys.s, Turn::negative(Axis::Z));
    push_if(&mut plan, keys.a, Turn::negative(Axis::Y));
    plan
}

/// Places the camera for a player at `player`. The camera's facing is not
/// touched: it keeps looking the way it was set up.
pub fn sync_player_camera(player: GridVec) -> (out: GridVec)
    ensures
        out@ == camera_spot(player@),
        out.x == player.x,
        player.y <= i64::MAX - CAMERA_RISE ==> out.y == player.y + CAMERA_RISE,
        player.z <= i64::MAX - CAMERA_SETBACK ==> out.z == player.z + CAMERA_SETBACK,
{
    GridVec {
        x: player.x,
        y: saturate(player.y as i128 + CAMERA_RISE as i128),
        z: saturate(player.z as i128 + CAMERA_SETBACK as i128),
    }
}

/// A frame asks for one turn for each of `W`, `S` and `A` that is held, and
/// what it asks for does not depend on `D`.
pub proof fn lemma_one_turn_per_key(keys: Keys)
    ensures
        turns_asked(keys).len() == turns_for(keys.w) + turns_for(keys.s) + turns_for(keys.a),
        turns_asked(keys) == turns_asked(Keys { d: !keys.d, ..keys }),
{
}

/// Holding `W` alone asks for one turn, by the fixed angle, that carries X
/// toward Y and leaves Z alone.
pub proof fn lemma_w_turns_x_toward_y()
    ensures
        ({
            let plan = turns_asked(Keys { w: true, s: false, a: false, d: false });
            &&& plan.len() == 1
            &&& plan[0].axis == Axis::Z
            &&& plan[0].angle == TURN_ANGLE
        }),
{
}

/// A frame of `S` and then a frame of `W` ask for a turn and for the turn
/// back: one turn each, about the same axis, by opposite angles.
pub proof fn lemma_back_then_forth()
    ensures
        ({
            let back = turns_asked(Keys { w: false, s: true, a: false, d: false });
            let forth = turns_asked(Keys { w: true, s: false, a: false, d: false });
            &&& back.len() == 1
            &&& forth.len() == 1
            &&& forth[0].undoes(back[0])
        }),
{
}

} // verus!
