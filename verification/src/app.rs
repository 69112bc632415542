//! The application state behind the window: the world and the keys held down.
//!
//! The window itself, its pixel buffer and the thread that asks for redraws belong to the
//! program. It hands each window event to `App::window_event`, and the frame buffer to
//! `App::draw` when a redraw is due.

use vstd::prelude::*;
use crate::keys::{after_key, steering_of, Key, KeyState, PressedKeys};
use crate::sprite::{Region, Sprite};
use crate::world::{Scene, World, WorldBuilder};

verus! {

/// Width of the picture, in pixels.
pub const WIDTH: u32 = 800;

/// Height of the picture, in pixels.
pub const HEIGHT: u32 = 600;

/// What the window reports, as far as the application tells events apart.
#[derive(Clone, Copy, PartialEq, Eq, Debug, Structural)]
pub enum WindowEvent {
    /// The user asked to close the window.
    CloseRequested,
    /// The window wants its contents drawn anew.
    RedrawRequested,
    /// A key went down or came up.
    KeyboardInput { key: Key, state: KeyState },
    /// Any other event.
    Other,
}

/// What the program has to do after an event.
#[derive(Clone, Copy, PartialEq, Eq, Debug, Structural)]
pub enum Response {
    /// Stop asking for redraws and leave the event loop.
    Close,
    /// Have the application draw into the frame buffer, and show it.
    Redraw,
    /// Nothing.
    Ignore,
}

/// The column of the `index`-th pixel of a frame buffer. Pixels are counted row by row,
/// in 32 bits.
pub open spec fn column_of(index: int) -> int {
    (index % 0x1_0000_0000) % (WIDTH as int)
}

/// The row of the `index`-th pixel of a frame buffer.
pub open spec fn row_of(index: int) -> int {
    (index % 0x1_0000_0000) / (WIDTH as int)
}

/// The frame buffer `frame` after `scene` was drawn into it: every complete group of four
/// bytes holds the colour of its pixel, and up to three bytes left over at the end are
/// kept.
pub open spec fn painted(scene: Scene, frame: Seq<u8>) -> Seq<u8> {
    Seq::new(
        frame.len(),
        |k: int|
            if k / 4 < frame.len() / 4 {
                scene.color_at(column_of(k / 4), row_of(k / 4))[k % 4]
            } else {
                frame[k]
            },
    )
}

/// What the program has to do after `event`.
pub open spec fn response_to(event: WindowEvent) -> Response {
    match event {
        WindowEvent::CloseRequested => Response::Close,
        WindowEvent::RedrawRequested => Response::Redraw,
        _ => Response::Ignore,
    }
}

/// The mathematical picture of the application.
pub struct AppView {
    pub world: Scene,
    pub pressed: Set<Key>,
}

impl AppView {
    /// The player is on the screen. This holds of every application.
    pub open spec fn player_on_screen(self) -> bool {
        self.world.player.on_screen()
    }

    /// The application after one update: the player has moved as the held keys ask.
    pub open spec fn after_update(self) -> AppView {
        AppView {
            world: Scene {
                player: self.world.player.moved_by(steering_of(self.pressed)),
                ..self.world
            },
            ..self
        }
    }

    /// The application after a key went down or came up.
    pub open spec fn after_keyboard_input(self, key: Key, state: KeyState) -> AppView {
        AppView { pressed: after_key(self.pressed, key, state), ..self }
    }

    /// The application after `event`: a redraw request brings one update, a key event
    /// changes the held keys, and nothing else changes anything.
    pub open spec fn after_event(self, event: WindowEvent) -> AppView {
        match event {
            WindowEvent::RedrawRequested => self.after_update(),
            WindowEvent::KeyboardInput { key, state } => self.after_keyboard_input(key, state),
            _ => self,
        }
    }
}

/// In a frame that holds at least the pixels up to column `x` of row `y`, the four bytes
/// of that pixel are white where the scene is occupied at `(x, y)` and black elsewhere.
pub proof fn lemma_painted_pixel(scene: Scene, frame: Seq<u8>, x: int, y: int)
    requires
        0 <= x < WIDTH,
        0 <= y,
        y * WIDTH + x < 0x1_0000_0000,
        4 * (y * WIDTH + x) + 4 <= frame.len(),
    ensures
        painted(scene, frame).subrange(4 * (y * WIDTH + x), 4 * (y * WIDTH + x) + 4)
            == scene.color_at(x, y),
{
    let index = y * WIDTH + x;
    let pixel = painted(scene, frame).subrange(4 * index, 4 * index + 4);
    assert(column_of(index) == x && row_of(index) == y);
    assert forall|k: int| 0 <= k < 4 implies pixel[k] == scene.color_at(x, y)[k] by {
        assert((4 * index + k) / 4 == index);
        assert((4 * index + k) % 4 == k);
    }
    assert(pixel =~= scene.color_at(x, y));
}

/// An update leaves the player on the screen, whatever keys are held.
pub proof fn lemma_update_keeps_player_on_screen(app: AppView)
    requires
        app.player_on_screen(),
    ensures
        app.after_update().player_on_screen(),
{
}

/// The world of an application. The player in it is on the screen at every moment.
struct Stage {
    world: World,
}

impl Stage {
    #[verifier::type_invariant]
    spec fn well_formed(self) -> bool {
        self.world@.player.on_screen()
    }

    /// The scene that the world shows.
    closed spec fn scene(self) -> Scene {
        self.world@
    }

    /// The world as it stands.
    fn world(&self) -> (world: &World)
        ensures
            world@ == self.scene(),
            self.scene().player.on_screen(),
    {
        proof {
            use_type_invariant(self);
        }
        &self.world
    }

    /// Moves the player horizontally by `dx`.
    fn move_player(&mut self, dx: i32)
        ensures
            final(self).scene() == (Scene {
                player: old(self).scene().player.moved_by(dx as int),
                ..old(self).scene()
            }),
            final(self).scene().player.on_screen(),
    {
        proof {
            use_type_invariant(&*self);
        }
        self.world.move_player(dx);
    }
}

/// The application: the world, and the keys that are held down.
pub struct App {
    stage: Stage,
    pressed_keys: PressedKeys,
}

impl View for App {
    type V = AppView;

    closed spec fn view(&self) -> AppView {
        AppView { world: self.stage.scene(), pressed: self.pressed_keys@ }
    }
}

impl App {
    /// The application at its start: the player is a square of 20 pixels at `(400, 500)`,
    /// and no key is held.
    pub fn new() -> (app: Result<App, String>)
        ensures
            app is Ok,
            app->Ok_0@ == (AppView {
                world: Scene { player: Region { x: 400, y: 500, width: 20, height: 20 } },
                pressed: Set::empty(),
            }),
    {
        let player_sprite = Sprite::new(400, 500, 20, 20);
        match WorldBuilder::new().with_player(player_sprite).build() {
            Ok(world) => Ok(App { stage: Stage { world }, pressed_keys: PressedKeys::new() }),
            Err(message) => Err(message),
        }
    }

    /// The world as it stands. The player is on the screen.
    pub fn world(&self) -> (world: &World)
        ensures
            world@ == self@.world,
            self@.player_on_screen(),
    {
        self.stage.world()
    }

    /// The keys that are held down.
    pub fn pressed_keys(&self) -> (keys: &PressedKeys)
        ensures
            keys@ == self@.pressed,
    {
        &self.pressed_keys
    }

    /// Draws the world into `frame`, four bytes for each pixel, row by row.
    pub fn draw(&self, frame: &mut [u8])
        ensures
            final(frame)@ == painted(self@.world, old(frame)@),
    {
        let world: &World = self.stage.world();
        let ghost before = frame@;
        let ghost target = final(frame)@;
        let count: usize = frame.len() / 4;
        let mut rest: &mut [u8] = frame;
        let mut i: usize = 0;
        let ghost mut done: Seq<u8> = Seq::empty();
        while i < count
            invariant
                i <= count,
                count == before.len() / 4,
                rest@ == before.skip(4 * i),
                world@ == self@.world,
                done == painted(self@.world, before).take(4 * i),
                target == done + final(rest)@,
            decreases count - i,
        {
            let (pixel, tail) = rest.split_at_mut(4);
            let index: u64 = i as u64;
            let wrapped: u32 = (index % 0x1_0000_0000) as u32;
            let x: u32 = wrapped % WIDTH;
            let y: u32 = wrapped / WIDTH;
            world.set_pixel(x, y, pixel);
            proof {
                done = done + pixel@;
            }
            rest = tail;
            i = i + 1;
        }
    }

    /// Records that `key` went down or came up.
    pub fn handle_keyboard_input(&mut self, key: Key, state: KeyState)
        ensures
            final(self)@ == old(self)@.after_keyboard_input(key, state),
    {
        match state {
            KeyState::Pressed => {
                self.pressed_keys.insert(key);
            },
            KeyState::Released => {
                self.pressed_keys.remove(key);
            },
        }
    }

    /// Moves the player as the held keys ask, keeping it on the screen.
    pub fn update(&mut self)
        ensures
            final(self)@ == old(self)@.after_update(),
            final(self)@.player_on_screen(),
    {
        let dx: i32 = self.pressed_keys.steering();
        self.stage.move_player(dx);
    }

    /// Takes in one event of the window and says what the program has to do.
    pub fn window_event(&mut self, event: WindowEvent) -> (response: Response)
        ensures
            final(self)@ == old(self)@.after_event(event),
            response == response_to(event),
    {
        match event {
            WindowEvent::CloseRequested => Response::Close,
            WindowEvent::RedrawRequested => {
                self.update();
                Response::Redraw
            },
            WindowEvent::KeyboardInput { key, state } => {
                self.handle_keyboard_input(key, state);
                Response::Ignore
            },
            WindowEvent::Other => Response::Ignore,
        }
    }
}

} // verus!
