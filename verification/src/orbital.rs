//! The orbital mode: the player orbits the origin about the world's X and Y
//! axes, the mouse turns it about its own axes, the camera keeps a set
//! distance along the player's facing and looks at it, and a key press throws
//! a snowball.
//!
//! The player's facing is an orientation in space, which this library does not
//! compute: the caller composes the turns that [`look_turns`] plans, and hands
//! back the resulting forward vector, in grid steps, where the camera and the
//! snowball need it.

use crate::input::Keys;
use crate::input::MouseMotion;
use crate::scalar::STEPS_PER_UNIT;
use crate::scene::white;
use crate::scene::Ball;
use crate::scene::CameraPose;
use crate::scene::Rgb;
use crate::turn::push_if;
use crate::turn::turns_for;
use crate::turn::with_turn_if;
use crate::turn::Axis;
use crate::turn::Turn;
use crate::turn::ANGLE_UNITS_PER_RADIAN;
use crate::turn::TURN_ANGLE;
use crate::vector::GridVec;
use crate::vector::IntVec;
use vstd::prelude::*;

verus! {

/// How many forward vectors lie between the player and the camera.
pub const CAMERA_DISTANCE: i64 = 4;

/// Mouse motion that turns the player by one radian, in the device's units: a
/// unit of motion is a hundredth of a radian.
pub const MOTION_PER_RADIAN: i64 = 100;

/// Radius of a snowball: a fifth of a unit.
pub const SNOWBALL_RADIUS: i64 = 200_000;

/// How often a snowball's icosphere is subdivided.
pub const SNOWBALL_SUBDIVISIONS: usize = 10;

/// What the thrower sees of one frame: whether the throw key went down in it,
/// and where the player stood and faced.
#[derive(Clone, Copy, Debug, PartialEq, Eq, Structural)]
pub struct ThrowFrame {
    pub pressed: bool,
    pub player: GridVec,
    pub forward: GridVec,
}

/// The orbits of the player's position about the origin that a frame's keys
/// ask for, in the order in which they are to be carried out: `W` and `S`
/// about the world's X, against and with the right-hand rule; then `A` and `D`
/// about the world's Y, likewise. Keys held together each take their turn.
pub open spec fn turns_asked(keys: Keys) -> Seq<Turn> {
    let after_w = with_turn_if(Seq::empty(), keys.w, Turn::negative(Axis::X));
    let after_s = with_turn_if(after_w, keys.s, Turn::positive(Axis::X));
    let after_a = with_turn_if(after_s, keys.a, Turn::negative(Axis::Y));
    with_turn_if(after_a, keys.d, Turn::positive(Axis::Y))
}

/// The angle, in angle units, that `motion` millionths of a unit of mouse
/// travel turn the player by: a radian for every [`MOTION_PER_RADIAN`] units.
pub open spec fn look_angle(motion: int) -> int {
    motion * ANGLE_UNITS_PER_RADIAN / (MOTION_PER_RADIAN * STEPS_PER_UNIT)
}

/// The yaw that a mouse event asks for: about the player's Y, by its
/// horizontal travel.
pub open spec fn yaw_of(motion: MouseMotion) -> Turn {
    Turn { axis: Axis::Y, angle: look_angle(motion.dx as int) as i64 }
}

/// The pitch that a mouse event asks for: about the player's X, by its
/// vertical travel.
pub open spec fn pitch_of(motion: MouseMotion) -> Turn {
    Turn { axis: Axis::X, angle: look_angle(motion.dy as int) as i64 }
}

/// The turns that a frame's mouse events ask for, in the order in which they
/// are to be composed: for each event in turn its yaw, then its pitch.
pub open spec fn look_plan(motions: Seq<MouseMotion>) -> Seq<Turn> {
    Seq::new(
        2 * motions.len(),
        |i: int|
            if i % 2 == 0 {
                yaw_of(motions[i / 2])
            } else {
                pitch_of(motions[i / 2])
            },
    )
}

/// Where the camera stands for a player at `player` facing `forward`:
/// [`CAMERA_DISTANCE`] forward vectors on from the player, held to the grid.
pub open spec fn camera_spot(player: IntVec, forward: IntVec) -> IntVec {
    player.plus(forward.scaled(CAMERA_DISTANCE as int)).clamped()
}

/// Where a snowball thrown by a player at `player` facing `forward` appears:
/// one forward vector on from the player, held to the grid.
pub open spec fn snowball_spot(player: IntVec, forward: IntVec) -> IntVec {
    player.plus(forward).clamped()
}

/// The snowballs that a run of frames throws, by where they appear, oldest
/// first: one for each frame in which the key went down, where the player then
/// stood and faced.
pub open spec fn thrown(frames: Seq<ThrowFrame>) -> Seq<IntVec>
    decreases frames.len(),
{
    if frames.len() == 0 {
        Seq::empty()
    } else {
        let before = thrown(frames.drop_last());
        let frame = frames.last();
        if frame.pressed {
            before.push(snowball_spot(frame.player@, frame.forward@))
        } else {
            before
        }
    }
}

/// In how many of the frames the throw key went down.
pub open spec fn presses(frames: Seq<ThrowFrame>) -> nat
    decreases frames.len(),
{
    if frames.len() == 0 {
        0
    } else if frames.last().pressed {
        presses(frames.drop_last()) + 1
    } else {
        presses(frames.drop_last())
    }
}

/// Plans the player's move for one frame: the orbits of its position about
/// the origin, to be carried out in the order given.
pub fn move_circle(keys: Keys) -> (out: Vec<Turn>)
    ensures
        out@ == turns_asked(keys),
{
    let mut plan: Vec<Turn> = Vec::new();
    push_if(&mut plan, keys.w, Turn::negative(Axis::X));
    push_if(&mut plan, keys.s, Turn::positive(Axis::X));
    push_if(&mut plan, keys.a, Turn::negative(Axis::Y));
    push_if(&mut plan, keys.d, Turn::positive(Axis::Y));
    plan
}

/// An angle unit is the turn of one millionth of a unit of mouse travel, so
/// the angle of any travel is the travel itself, with nothing rounded away.
pub proof fn lemma_look_angle_is_exact(motion: i64)
    ensures
        look_angle(motion as int) == motion,
        ANGLE_UNITS_PER_RADIAN == MOTION_PER_RADIAN * STEPS_PER_UNIT,
{
}

/// Plans the turns of the player for a frame's mouse events. The caller
/// composes them onto the player's orientation in the order given, each about
/// the player's own axis.
pub fn look_turns(motions: &Vec<MouseMotion>) -> (out: Vec<Turn>)
    ensures
        out@ == look_plan(motions@),
{
    let mut out: Vec<Turn> = Vec::new();
    let mut i: usize = 0;
    while i < motions.len()
        invariant
            i <= motions.len(),
            out@ == look_plan(motions@.take(i as int)),
        decreases motions.len() - i,
    {
        let motion: MouseMotion = motions[i];
        proof {
            lemma_look_angle_is_exact(motion.dx);
            lemma_look_angle_is_exact(motion.dy);
        }
        out.push(Turn { axis: Axis::Y, angle: motion.dx });
        out.push(Turn { axis: Axis::X, angle: motion.dy });
        i += 1;
        assert(out@ =~= look_plan(motions@.take(i as int)));
    }
    assert(motions@.take(i as int) =~= motions@);
    out
}

/// Places the camera for a player at `player` whose facing is the unit vector
/// `forward`, and turns it to look at the player. The position is not held to
/// any range of distances.
pub fn sync_player_camera(player: GridVec, forward: GridVec) -> (out: CameraPose)
    ensures
        out.position@ == camera_spot(player@, forward@),
        player@.plus(forward@.scaled(CAMERA_DISTANCE as int)).on_grid() ==> out.position@
            == player@.plus(forward@.scaled(CAMERA_DISTANCE as int)),
        out.target == player,
{
    CameraPose { position: player.plus_scaled(forward, CAMERA_DISTANCE), target: player }
}

/// Throws a snowball if the throw key went down in this frame: `Some` with the
/// snowball, a small white sphere one forward vector ahead of the player. It
/// is neither turned nor scaled, and it stays where it appears. A key that is
/// merely still held throws nothing.
pub fn throw_snowball(pressed: bool, player: GridVec, forward: GridVec) -> (out: Option<Ball>)
    ensures
        pressed <==> out is Some,
        pressed ==> out->0.center@ == snowball_spot(player@, forward@),
        pressed && player@.plus(forward@).on_grid() ==> out->0.center@ == player@.plus(forward@),
        pressed ==> out->0.radius == SNOWBALL_RADIUS,
        pressed ==> out->0.subdivisions == SNOWBALL_SUBDIVISIONS,
        pressed ==> out->0.color == white(),
{
    if pressed {
        Some(
            Ball {
                center: player.plus(forward),
                radius: SNOWBALL_RADIUS,
                subdivisions: SNOWBALL_SUBDIVISIONS,
                color: Rgb { red: 255, green: 255, blue: 255 },
            },
        )
    } else {
        None
    }
}

/// A frame asks for one orbit for each key that is held.
pub proof fn lemma_one_turn_per_key(keys: Keys)
    ensures
        turns_asked(keys).len() == turns_for(keys.w) + turns_for(keys.s) + turns_for(keys.a)
            + turns_for(keys.d),
{
}

/// Holding `D` alone asks for one orbit: about the world's Y, by the fixed
/// angle, with the right-hand rule.
pub proof fn lemma_d_orbits_about_y()
    ensures
        ({
            let plan = turns_asked(Keys { w: false, s: false, a: false, d: true });
            &&& plan.len() == 1
            &&& plan[0].axis == Axis::Y
            &&& plan[0].angle == TURN_ANGLE
        }),
{
}

/// Every press throws exactly one snowball: a run of frames throws as many as
/// the frames in which the key went down.
pub proof fn lemma_one_snowball_per_press(frames: Seq<ThrowFrame>)
    ensures
        thrown(frames).len() == presses(frames),
    decreases frames.len(),
{
    if frames.len() > 0 {
        lemma_one_snowball_per_press(frames.drop_last());
    }
}

/// Each snowball appears where the player stood and faced when it was thrown:
/// the press in frame `i` throws the snowball numbered by the presses before
/// it, one forward vector ahead of that frame's player.
pub proof fn lemma_snowball_where_thrown(frames: Seq<ThrowFrame>, i: int)
    requires
        0 <= i < frames.len(),
        frames[i].pressed,
    ensures
        presses(frames.take(i)) < thrown(frames).len(),
        thrown(frames)[presses(frames.take(i)) as int] == snowball_spot(
            frames[i].player@,
            frames[i].forward@,
        ),
    decreases frames.len(),
{
    let before = frames.drop_last();
    lemma_one_snowball_per_press(frames);
    lemma_one_snowball_per_press(before);
    if i == frames.len() - 1 {
        assert(frames.take(i) =~= before);
    } else {
        lemma_snowball_where_thrown(before, i);
        assert(before.take(i) =~= frames.take(i));
    }
}

} // verus!
