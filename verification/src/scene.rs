//! The scene as it stands before the first frame: a planet at the origin, the
//! player resting on it, a lamp, and the camera.

use crate::vector::GridVec;
use vstd::prelude::*;

verus! {

/// Radius of the planet: four units.
pub const PLANET_RADIUS: i64 = 4_000_000;

/// Radius of the player: half a unit.
pub const PLAYER_RADIUS: i64 = 500_000;

/// How often the icospheres of planet and player are subdivided.
pub const SUBDIVISIONS: usize = 10;

/// Luminous power of the lamp, in lumens.
pub const LAMP_INTENSITY: u32 = 1500;

/// Seconds an idle window waits before it redraws, focused or not.
pub const IDLE_WAIT_SECONDS: u64 = 10;

/// How the player moves and the camera follows.
#[derive(Clone, Copy, Debug, PartialEq, Eq, Structural)]
pub enum Mode {
    /// Turns in the coordinate planes; the camera rides at a fixed offset and
    /// is never turned.
    Planar,
    /// Orbits about the world's axes, mouse look, a camera that faces the
    /// player, and snowballs.
    Orbital,
}

/// A colour in eight bits a channel.
#[derive(Clone, Copy, Debug, PartialEq, Eq, Structural)]
pub struct Rgb {
    pub red: u8,
    pub green: u8,
    pub blue: u8,
}

/// A sphere of one colour.
#[derive(Clone, Copy, Debug, PartialEq, Eq, Structural)]
pub struct Ball {
    pub center: GridVec,
    pub radius: i64,
    pub subdivisions: usize,
    pub color: Rgb,
}

/// A point light.
#[derive(Clone, Copy, Debug, PartialEq, Eq, Structural)]
pub struct Lamp {
    pub position: GridVec,
    pub intensity: u32,
    pub shadows: bool,
}

/// Where the camera stands and what it looks at. Up is the world's `+Y`.
#[derive(Clone, Copy, Debug, PartialEq, Eq, Structural)]
pub struct CameraPose {
    pub position: GridVec,
    pub target: GridVec,
}

/// Everything the scene starts with.
#[derive(Clone, Copy, Debug, PartialEq, Eq, Structural)]
pub struct Scene {
    /// The planet, which never moves.
    pub planet: Ball,
    /// The player, at its first position.
    pub player: Ball,
    /// The point the player first faces, with the world's `+Y` up.
    pub player_target: GridVec,
    pub lamp: Lamp,
    /// Where the camera first stands and looks.
    pub camera: CameraPose,
}

/// The colour of the planet, and of anything drawn with the default material.
pub open spec fn white() -> Rgb {
    Rgb { red: 255, green: 255, blue: 255 }
}

/// What the camera first looks at. In the planar mode, where the camera is
/// never turned again, that is the origin; in the orbital mode it is the point
/// one unit above the origin.
pub open spec fn first_target(mode: Mode) -> GridVec {
    match mode {
        Mode::Planar => GridVec { x: 0, y: 0, z: 0 },
        Mode::Orbital => GridVec { x: 0, y: 1_000_000, z: 0 },
    }
}

/// The scene before the first frame. The planet is white and sits at the
/// origin; the player rests on it where the Z axis leaves it, facing straight
/// up; the camera stands further out on the same axis and looks at
/// [`first_target`].
pub fn setup(mode: Mode) -> (out: Scene)
    ensures
        out.planet == (Ball {
            center: GridVec { x: 0, y: 0, z: 0 },
            radius: PLANET_RADIUS,
            subdivisions: SUBDIVISIONS,
            color: white(),
        }),
        out.player == (Ball {
            center: GridVec { x: 0, y: 0, z: 4_500_000 },
            radius: PLAYER_RADIUS,
            subdivisions: SUBDIVISIONS,
            color: Rgb { red: 124, green: 144, blue: 255 },
        }),
        out.player.center.z == out.planet.radius + out.player.radius,
        out.player_target == (GridVec { x: 0, y: 4_500_000, z: 4_500_000 }),
        out.lamp == (Lamp {
            position: GridVec { x: 4_000_000, y: 8_000_000, z: 4_000_000 },
            intensity: LAMP_INTENSITY,
            shadows: true,
        }),
        out.camera.position == (GridVec { x: 0, y: 0, z: 14_000_000 }),
        out.camera.target == first_target(mode),
        mode == Mode::Planar ==> out.camera.target == out.planet.center,
{
    let surface: i64 = PLANET_RADIUS + PLAYER_RADIUS;
    let target: GridVec = match mode {
        Mode::Planar => GridVec::new(0, 0, 0),
        Mode::Orbital => GridVec::new(0, 1_000_000, 0),
    };
    Scene {
        planet: Ball {
            center: GridVec::new(0, 0, 0),
            radius: PLANET_RADIUS,
            subdivisions: SUBDIVISIONS,
            color: Rgb { red: 255, green: 255, blue: 255 },
        },
        player: Ball {
            center: GridVec::new(0, 0, surface),
            radius: PLAYER_RADIUS,
            subdivisions: SUBDIVISIONS,
            color: Rgb { red: 124, green: 144, blue: 255 },
        },
        player_target: GridVec::new(0, surface, surface),
        lamp: Lamp {
            position: GridVec::new(4_000_000, 8_000_000, 4_000_000),
            intensity: LAMP_INTENSITY,
            shadows: true,
        },
        camera: CameraPose { position: GridVec::new(0, 0, 14_000_000), target },
    }
}

} // verus!
