//! The rules of a small scene: a planet at the origin, a player that circles
//! it under the keyboard, a camera that follows the player, and snowballs that
//! the player throws.
//!
//! The rules are what is decided without arithmetic on real numbers: which
//! turns a frame's keys and mouse events ask for, in what order and by what
//! angle ([`turn`]); where the camera goes and where a snowball appears, as
//! exact sums on a grid of millionths of a world unit ([`vector`],
//! [`scalar`]); and what the world starts with ([`scene`]).
//!
//! There are two modes of play. In [`planar`] the player turns in the
//! coordinate planes and the camera rides at a fixed offset. In [`orbital`] the
//! player orbits about the world's axes, the mouse turns it, the camera stands
//! off along the player's facing and looks at it, and a key throws snowballs.
//! [`input`] holds what a frame hands in.
//!
//! Windows, input devices, meshes, and carrying out a turn on a position or an
//! orientation belong to the engine that draws the scene. It reads the keys,
//! asks these rules what to do, and does it.

pub mod input;
pub mod orbital;
pub mod planar;
pub mod scalar;
pub mod scene;
pub mod turn;
pub mod vector;
