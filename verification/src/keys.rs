//! The keyboard as the program reads it: which keys it listens to and what is
//! held down.

use vstd::prelude::*;
use crate::camera::{axis, spec_axis};

verus! {

/// The keys that the program listens to.
#[derive(Clone, Copy, Debug, PartialEq, Eq, Structural)]
pub enum Key {
    A,
    S,
    D,
    W,
    Up,
    Down,
    Left,
    Right,
}

/// What is held down: the letter keys turn the camera, the arrow keys move it.
#[derive(Clone, Copy, Debug, Default, PartialEq, Eq, Structural)]
pub struct Inputs {
    pub left_rot: bool,
    pub right_rot: bool,
    pub up_rot: bool,
    pub down_rot: bool,
    pub left: bool,
    pub right: bool,
    pub up: bool,
    pub down: bool,
}

impl Inputs {
    /// The inputs after `key` was pressed or released.
    pub open spec fn with_key(self, key: Key, pressed: bool) -> Inputs {
        match key {
            Key::A => Inputs { left_rot: pressed, ..self },
            Key::S => Inputs { down_rot: pressed, ..self },
            Key::D => Inputs { right_rot: pressed, ..self },
            Key::W => Inputs { up_rot: pressed, ..self },
            Key::Up => Inputs { up: pressed, ..self },
            Key::Down => Inputs { down: pressed, ..self },
            Key::Left => Inputs { left: pressed, ..self },
            Key::Right => Inputs { right: pressed, ..self },
        }
    }

    /// Records that `key` was pressed or released. Every other key stays as it
    /// was.
    pub fn key(&mut self, key: Key, pressed: bool)
        ensures
            *final(self) == old(self).with_key(key, pressed),
    {
        match key {
            Key::A => {
                self.left_rot = pressed;
            },
            Key::S => {
                self.down_rot = pressed;
            },
            Key::D => {
                self.right_rot = pressed;
            },
            Key::W => {
                self.up_rot = pressed;
            },
            Key::Up => {
                self.up = pressed;
            },
            Key::Down => {
                self.down = pressed;
            },
            Key::Left => {
                self.left = pressed;
            },
            Key::Right => {
                self.right = pressed;
            },
        }
    }

    /// The way that the arrow keys point on the ground plane, as steps along x
    /// and z: right and up count up.
    pub fn translation(&self) -> (r: (i8, i8))
        ensures
            r.0 == spec_axis(self.right, self.left),
            r.1 == spec_axis(self.up, self.down),
    {
        (axis(self.right, self.left), axis(self.up, self.down))
    }

    /// The way that the letter keys turn the camera, as steps about the
    /// vertical and the horizontal axis: right and up count up.
    pub fn rotation(&self) -> (r: (i8, i8))
        ensures
            r.0 == spec_axis(self.right_rot, self.left_rot),
            r.1 == spec_axis(self.up_rot, self.down_rot),
    {
        (axis(self.right_rot, self.left_rot), axis(self.up_rot, self.down_rot))
    }
}

} // verus!
