//! Where the arrow keys take the player's ship, and which of its animations shows.

use vstd::prelude::*;

verus! {

/// The animation of a ship that flies straight on.
pub const IDLE: usize = 0;

/// The animation of a ship that turns left.
pub const LEFT: usize = 1;

/// The animation of a ship that turns right.
pub const RIGHT: usize = 2;

/// The arrow keys that are down in a frame.
#[derive(Clone, Copy, PartialEq, Eq, Debug, Structural)]
pub struct ArrowKeys {
    pub left: bool,
    pub right: bool,
    pub up: bool,
    pub down: bool,
}

/// The direction in which the ship moves in a frame, in screen coordinates: `horizontal`
/// is -1 for left and 1 for right, `vertical` is -1 for up and 1 for down, and 0 is rest.
#[derive(Clone, Copy, PartialEq, Eq, Debug, Structural)]
pub struct Heading {
    pub horizontal: i32,
    pub vertical: i32,
}

/// The direction that the arrow keys ask for. Left wins over right, and up over down.
pub open spec fn heading_of(keys: ArrowKeys) -> Heading {
    Heading {
        horizontal: if keys.left {
            -1i32
        } else if keys.right {
            1i32
        } else {
            0i32
        },
        vertical: if keys.up {
            -1i32
        } else if keys.down {
            1i32
        } else {
            0i32
        },
    }
}

/// The animation that goes with a horizontal direction.
pub open spec fn animation_of(horizontal: i32) -> usize {
    if horizontal < 0 {
        LEFT
    } else if horizontal > 0 {
        RIGHT
    } else {
        IDLE
    }
}

/// The direction in which the ship moves while `keys` are down.
pub fn heading(keys: ArrowKeys) -> (heading: Heading)
    ensures
        heading == heading_of(keys),
{
    let horizontal: i32 = if keys.left {
        -1
    } else if keys.right {
        1
    } else {
        0
    };
    let vertical: i32 = if keys.up {
        -1
    } else if keys.down {
        1
    } else {
        0
    };
    Heading { horizontal, vertical }
}

/// The animation of a ship that moves in the horizontal direction `horizontal`.
pub fn ship_animation(horizontal: i32) -> (animation: usize)
    ensures
        animation == animation_of(horizontal),
{
    if horizontal < 0 {
        LEFT
    } else if horizontal > 0 {
        RIGHT
    } else {
        IDLE
    }
}

} // verus!
