//! When a new square enters the game: in each frame of a round a number is drawn, and a
//! square is added where it comes out high enough.

use vstd::prelude::*;

verus! {

/// The least number that may be drawn.
pub const ROLL_LOW: i32 = 0;

/// The limit of the numbers that may be drawn.
pub const ROLL_HIGH: i32 = 99;

/// A square is added where the number drawn is above this.
pub const SPAWN_ABOVE: i32 = 95;

/// Draws a number from the generator that the game framework keeps, by
/// `macroquad::rand::gen_range` on 32-bit integers.
///
/// Not proved: that the number lies between `low` and `high`, both included. The
/// generator scales a fraction below one to the width of the range in floating point, adds
/// `low` and cuts off the digits behind the point; where the range is narrow and far from
/// zero the sum can round up to `high` itself. Which number comes back depends on the state
/// of the generator, so nothing more is said of it.
#[verifier::external_body]
fn gen_range(low: i32, high: i32) -> (value: i32)
    requires
        low <= high,
    ensures
        low <= value <= high,
{
    macroquad::rand::gen_range(low, high)
}

/// Draws the number that decides whether this frame adds a square.
pub fn spawn_roll() -> (roll: i32)
    ensures
        ROLL_LOW <= roll <= ROLL_HIGH,
{
    gen_range(ROLL_LOW, ROLL_HIGH)
}

/// Whether a frame in which `roll` was drawn adds a square.
pub fn should_spawn(roll: i32) -> (spawn: bool)
    ensures
        spawn == (roll > SPAWN_ABOVE),
{
    roll > SPAWN_ABOVE
}

} // verus!
