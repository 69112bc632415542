//! A rectangular sprite on the screen.

use vstd::prelude::*;
use crate::app::WIDTH;

verus! {

/// The mathematical picture of a sprite: the rectangle it covers, edges included.
pub struct Region {
    pub x: int,
    pub y: int,
    pub width: int,
    pub height: int,
}

impl Region {
    /// Whether the point `(px, py)` lies in the rectangle. All four edges count as inside.
    pub open spec fn contains(self, px: int, py: int) -> bool {
        &&& self.x <= px <= self.x + self.width
        &&& self.y <= py <= self.y + self.height
    }

    /// Whether the rectangle lies between the left and the right edge of the screen.
    pub open spec fn on_screen(self) -> bool {
        0 <= self.x && 0 <= self.width && self.x + self.width <= WIDTH
    }

    /// The rectangle after a horizontal move by `dx`: shifted, then pushed back so that it
    /// neither leaves the screen on the left nor on the right.
    ///
    /// The position is taken as a signed 32-bit number, so a position beyond `i32::MAX`
    /// counts as a negative one, left of the screen. The shift itself never overflows. A
    /// rectangle wider than the screen is held at the left edge.
    pub open spec fn moved_by(self, dx: int) -> Region {
        Region { x: clamp_to(as_signed(self.x) + dx, 0, right_limit(self.width)), ..self }
    }
}

/// The number that the 32 bits of the unsigned number `value` stand for when they are read
/// as a signed number.
pub open spec fn as_signed(value: int) -> int {
    if value > i32::MAX {
        value - 0x1_0000_0000
    } else {
        value
    }
}

/// The rightmost position at which a rectangle of the given width still ends on the
/// screen; zero for one that is wider than the screen.
pub open spec fn right_limit(width: int) -> int {
    if 0 <= width <= WIDTH {
        WIDTH - width
    } else {
        0
    }
}

/// `v` raised to at least `low`, and the outcome lowered to at most `high`.
pub open spec fn clamp_to(v: int, low: int, high: int) -> int {
    let raised = if v < low { low } else { v };
    if raised > high { high } else { raised }
}

/// After a move the left edge of the rectangle is on the screen, wherever the rectangle
/// was, however wide it is and however far it was asked to go. A rectangle no wider than
/// the screen lies on the screen as a whole, and a wider one at the left edge. Nothing but
/// the horizontal position has changed.
pub proof fn lemma_move_stays_on_screen(region: Region, dx: int)
    ensures
        0 <= region.moved_by(dx).x <= WIDTH,
        0 <= region.width <= WIDTH ==> region.moved_by(dx).on_screen(),
        region.width > WIDTH ==> region.moved_by(dx).x == 0,
        region.moved_by(dx).y == region.y,
        region.moved_by(dx).width == region.width,
        region.moved_by(dx).height == region.height,
{
}

/// For a rectangle no wider than the screen, at a position that fits in 31 bits, a move
/// is the shift by `dx` held between the left edge and the last place at which the
/// rectangle still ends on the screen.
pub proof fn lemma_move_clamps(region: Region, dx: int)
    requires
        0 <= region.x <= i32::MAX,
        0 <= region.width <= WIDTH,
    ensures
        region.moved_by(dx).x == clamp_to(region.x + dx, 0, WIDTH - region.width),
{
}

/// A move that does not reach an edge of the screen shifts the rectangle by exactly `dx`.
pub proof fn lemma_move_within_screen(region: Region, dx: int)
    requires
        0 <= region.x + dx,
        0 <= region.x <= i32::MAX,
        0 <= region.width,
        region.x + dx + region.width <= WIDTH,
    ensures
        region.moved_by(dx).x == region.x + dx,
{
}

/// A sprite: the position of its top-left corner, and its size.
pub struct Sprite {
    x: u32,
    y: u32,
    width: u32,
    height: u32,
}

impl View for Sprite {
    type V = Region;

    closed spec fn view(&self) -> Region {
        Region {
            x: self.x as int,
            y: self.y as int,
            width: self.width as int,
            height: self.height as int,
        }
    }
}

impl Sprite {
    /// A sprite with its corner at `(x, y)` and the given size.
    pub fn new(x: u32, y: u32, width: u32, height: u32) -> (sprite: Sprite)
        ensures
            sprite@ == (Region { x: x as int, y: y as int, width: width as int, height: height as int }),
    {
        Sprite { x, y, width, height }
    }

    /// The horizontal position of the left edge.
    pub fn x(&self) -> (x: u32)
        ensures
            x == self@.x,
    {
        self.x
    }

    /// The vertical position of the top edge.
    pub fn y(&self) -> (y: u32)
        ensures
            y == self@.y,
    {
        self.y
    }

    /// The width.
    pub fn width(&self) -> (width: u32)
        ensures
            width == self@.width,
    {
        self.width
    }

    /// The height.
    pub fn height(&self) -> (height: u32)
        ensures
            height == self@.height,
    {
        self.height
    }

    /// Whether the pixel `(x, y)` belongs to the sprite.
    pub fn in_bounds(&self, x: u32, y: u32) -> (inside: bool)
        ensures
            inside == self@.contains(x as int, y as int),
    {
        let px: u64 = x as u64;
        let py: u64 = y as u64;
        px >= self.x as u64 && px <= self.x as u64 + self.width as u64 && py >= self.y as u64
            && py <= self.y as u64 + self.height as u64
    }

    /// Moves the sprite horizontally by `dx` and keeps it between the edges of the screen.
    pub fn move_by(&mut self, dx: i32)
        ensures
            final(self)@ == old(self)@.moved_by(dx as int),
        no_unwind
    {
        let shifted: i64 = signed(self.x) + dx as i64;
        let raised: i64 = if shifted < 0 { 0 } else { shifted };
        let limit: i64 = if self.width <= WIDTH { (WIDTH - self.width) as i64 } else { 0 };
        let clamped: i64 = if raised > limit { limit } else { raised };
        self.x = clamped as u32;
    }
}

/// Reads the 32 bits of `value` as a signed number.
fn signed(value: u32) -> (number: i64)
    ensures
        number == as_signed(value as int),
    no_unwind
{
    if value > 0x7fff_ffff {
        value as i64 - 0x1_0000_0000
    } else {
        value as i64
    }
}

} // verus!
