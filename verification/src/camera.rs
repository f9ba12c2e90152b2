//! The part of camera control that is decided without arithmetic on reals:
//! which way the pressed keys point.

use vstd::prelude::*;

verus! {

/// The keys that move the camera, as they are held down.
#[derive(Clone, Copy, Debug, Default, PartialEq, Eq, Structural)]
pub struct Inputs {
    pub left: bool,
    pub right: bool,
    pub up: bool,
    pub down: bool,
    pub front: bool,
    pub back: bool,
}

/// Movement along one axis: towards `positive`, towards `negative`, or none
/// where neither key or both are held.
pub open spec fn spec_axis(positive: bool, negative: bool) -> int {
    (if positive {
        1int
    } else {
        0int
    }) - (if negative {
        1int
    } else {
        0int
    })
}

/// Movement along one axis: 1 towards `positive`, -1 towards `negative`, 0
/// where neither key or both are held.
pub fn axis(positive: bool, negative: bool) -> (r: i8)
    ensures
        r == spec_axis(positive, negative),
{
    if positive && negative {
        0
    } else if positive {
        1
    } else if negative {
        -1
    } else {
        0
    }
}

impl Inputs {
    /// The direction that the held keys point in, as steps along x, y and z:
    /// right and up count up, and so does back, since the camera looks down the
    /// negative z axis.
    pub fn direction(&self) -> (r: (i8, i8, i8))
        ensures
            r.0 == spec_axis(self.right, self.left),
            r.1 == spec_axis(self.up, self.down),
            r.2 == spec_axis(self.back, self.front),
    {
        (axis(self.right, self.left), axis(self.up, self.down), axis(self.back, self.front))
    }
}

} // verus!
