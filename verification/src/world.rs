//! The world that is drawn: for now, the player's sprite on a black background.

use vstd::prelude::*;
use crate::sprite::{Region, Sprite};

verus! {

/// The mathematical picture of a world: the rectangle that the player covers.
pub struct Scene {
    pub player: Region,
}

impl Scene {
    /// Whether some object of the world covers the pixel `(x, y)`.
    pub open spec fn occupied(self, x: int, y: int) -> bool {
        self.player.contains(x, y)
    }

    /// The four bytes of the pixel `(x, y)`: white where an object is, black elsewhere.
    pub open spec fn color_at(self, x: int, y: int) -> Seq<u8> {
        if self.occupied(x, y) {
            white()
        } else {
            black()
        }
    }
}

/// An opaque white pixel.
pub open spec fn white() -> Seq<u8> {
    seq![255u8, 255u8, 255u8, 255u8]
}

/// An opaque black pixel.
pub open spec fn black() -> Seq<u8> {
    seq![0u8, 0u8, 0u8, 255u8]
}

/// The game world.
pub struct World {
    player: Sprite,
}

impl View for World {
    type V = Scene;

    closed spec fn view(&self) -> Scene {
        Scene { player: self.player@ }
    }
}

impl World {
    /// The player's sprite.
    pub fn player(&self) -> (player: &Sprite)
        ensures
            player@ == self@.player,
    {
        &self.player
    }

    /// Writes the colour of the pixel `(x, y)` into the first four bytes of `pixel`: white
    /// if an object of the world occupies it, black otherwise. Further bytes are kept.
    pub fn set_pixel(&self, x: u32, y: u32, pixel: &mut [u8])
        requires
            old(pixel)@.len() >= 4,
        ensures
            final(pixel)@ == self@.color_at(x as int, y as int) + old(pixel)@.skip(4),
    {
        if self.player.in_bounds(x, y) {
            pixel[0] = 255;
            pixel[1] = 255;
            pixel[2] = 255;
            pixel[3] = 255;
        } else {
            pixel[0] = 0;
            pixel[1] = 0;
            pixel[2] = 0;
            pixel[3] = 255;
        }
        assert(pixel@ =~= self@.color_at(x as int, y as int) + old(pixel)@.skip(4));
    }

    /// Moves the player horizontally by `dx`, keeping it on the screen.
    pub fn move_player(&mut self, dx: i32)
        ensures
            final(self)@ == (Scene { player: old(self)@.player.moved_by(dx as int), ..old(self)@ }),
        no_unwind
    {
        self.player.move_by(dx);
    }
}

/// Collects the parts of a world and checks that none is missing.
pub struct WorldBuilder {
    player: Option<Sprite>,
}

impl View for WorldBuilder {
    type V = Option<Region>;

    closed spec fn view(&self) -> Option<Region> {
        match self.player {
            Some(sprite) => Some(sprite@),
            None => None,
        }
    }
}

impl WorldBuilder {
    /// A builder that holds nothing yet.
    pub fn new() -> (builder: WorldBuilder)
        ensures
            builder@ == None::<Region>,
    {
        WorldBuilder { player: None }
    }

    /// The same builder with `player` as the player's sprite, in place of an earlier one.
    pub fn with_player(self, player: Sprite) -> (builder: WorldBuilder)
        ensures
            builder@ == Some(player@),
    {
        WorldBuilder { player: Some(player) }
    }

    /// The world that was described, or `Err("Player is required")` if no player was given.
    pub fn build(self) -> (built: Result<World, String>)
        ensures
            match self@ {
                Some(player) => built is Ok && built->Ok_0@ == (Scene { player }),
                None => built is Err && built->Err_0@ == "Player is required"@,
            },
    {
        match self.player {
            Some(player) => Ok(World { player }),
            None => Err("Player is required".to_string()),
        }
    }
}

} // verus!
