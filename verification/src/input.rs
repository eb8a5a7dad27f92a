//! What a frame hands to the movement rules: the movement keys that are held,
//! and the mouse motion that arrived since the frame before.

use vstd::prelude::*;

verus! {

/// The movement keys, each `true` while held down.
#[derive(Clone, Copy, Debug, PartialEq, Eq, Structural)]
pub struct Keys {
    pub w: bool,
    pub s: bool,
    pub a: bool,
    pub d: bool,
}

impl Keys {
    /// No key held.
    pub fn released() -> (out: Keys)
        ensures
            out == (Keys { w: false, s: false, a: false, d: false }),
    {
        Keys { w: false, s: false, a: false, d: false }
    }
}

/// One mouse-motion event: how far the pointer moved along the device's X and
/// Y, in millionths of the device's unit.
#[derive(Clone, Copy, Debug, PartialEq, Eq, Structural)]
pub struct MouseMotion {
    pub dx: i64,
    pub dy: i64,
}

} // verus!
