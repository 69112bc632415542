//! The course of a game: main menu, play, pause and game over, with the score and the
//! high score.
//!
//! The program around the library runs one frame after another. For each frame it tells
//! the game which keys were pressed and whether the player was hit, and carries out what
//! the game answers.

use vstd::prelude::*;

verus! {

/// The state that selects what a frame does and shows.
#[derive(Clone, Copy, PartialEq, Eq, Debug, Structural)]
pub enum GameState {
    MainMenu,
    Playing,
    Paused,
    GameOver,
}

/// What happened during one frame.
#[derive(Clone, Copy, PartialEq, Eq, Debug, Structural)]
pub struct FrameInput {
    /// The escape key went down in this frame.
    pub escape_pressed: bool,
    /// The space key went down in this frame.
    pub space_pressed: bool,
    /// The player touches a falling square at the end of this frame. Only a frame that
    /// starts in `Playing` looks at this.
    pub player_hit: bool,
}

/// What the program has to do after a frame.
#[derive(Clone, Copy, PartialEq, Eq, Debug, Structural)]
pub enum FrameAction {
    /// Nothing beyond drawing the next frame.
    Continue,
    /// Leave the program.
    Exit,
    /// Start a new round: remove all squares and bullets and put the player back in the
    /// middle of the screen.
    Restart,
    /// The round ended with the score equal to the high score: store the given high score.
    SaveHighScore(u32),
}

/// The mathematical picture of a game.
pub struct GameView {
    pub state: GameState,
    pub score: nat,
    pub high_score: nat,
}

impl GameView {
    /// The score of the running round never exceeds the high score.
    pub open spec fn consistent(self) -> bool {
        self.score <= self.high_score
    }

    /// The state after a frame with the given input.
    ///
    /// In the main menu escape leaves the program, otherwise space starts a round. While
    /// playing, a hit ends the round, otherwise escape pauses it. Space resumes a paused
    /// round, and leads from game over back to the main menu.
    pub open spec fn next_state(self, input: FrameInput) -> GameState {
        match self.state {
            GameState::MainMenu => if !input.escape_pressed && input.space_pressed {
                GameState::Playing
            } else {
                GameState::MainMenu
            },
            GameState::Playing => if input.player_hit {
                GameState::GameOver
            } else if input.escape_pressed {
                GameState::Paused
            } else {
                GameState::Playing
            },
            GameState::Paused => if input.space_pressed {
                GameState::Playing
            } else {
                GameState::Paused
            },
            GameState::GameOver => if input.space_pressed {
                GameState::MainMenu
            } else {
                GameState::GameOver
            },
        }
    }

    /// What the program has to do after a frame with the given input.
    pub open spec fn action(self, input: FrameInput) -> FrameAction {
        match self.state {
            GameState::MainMenu => if input.escape_pressed {
                FrameAction::Exit
            } else if input.space_pressed {
                FrameAction::Restart
            } else {
                FrameAction::Continue
            },
            GameState::Playing => if input.player_hit && self.score == self.high_score {
                FrameAction::SaveHighScore(self.high_score as u32)
            } else {
                FrameAction::Continue
            },
            _ => FrameAction::Continue,
        }
    }

    /// The game after a frame with the given input. A round that starts has a score of zero.
    pub open spec fn after_frame(self, input: FrameInput) -> GameView {
        GameView {
            state: self.next_state(input),
            score: if self.action(input) == FrameAction::Restart {
                0
            } else {
                self.score
            },
            high_score: self.high_score,
        }
    }

    /// The game after `points` were won: they count for the score, and the high score
    /// follows the score where the score passes it.
    pub open spec fn with_points(self, points: nat) -> GameView {
        GameView {
            state: self.state,
            score: self.score + points,
            high_score: if self.score + points > self.high_score {
                self.score + points
            } else {
                self.high_score
            },
        }
    }
}

/// A frame keeps the game consistent and leaves the high score as it is.
pub proof fn lemma_frame_keeps_high_score(game: GameView, input: FrameInput)
    requires
        game.consistent(),
    ensures
        game.after_frame(input).consistent(),
        game.after_frame(input).high_score == game.high_score,
{
}

/// Points keep the game consistent, and the high score never falls.
pub proof fn lemma_points_raise_high_score(game: GameView, points: nat)
    requires
        game.consistent(),
    ensures
        game.with_points(points).consistent(),
        game.with_points(points).high_score >= game.high_score,
        game.with_points(points).high_score >= game.with_points(points).score,
{
}

/// A game: its state, the score of the running round, and the high score.
pub struct Game {
    state: GameState,
    score: u32,
    high_score: u32,
}

impl View for Game {
    type V = GameView;

    closed spec fn view(&self) -> GameView {
        GameView {
            state: self.state,
            score: self.score as nat,
            high_score: self.high_score as nat,
        }
    }
}

impl Game {
    #[verifier::type_invariant]
    spec fn well_formed(self) -> bool {
        self.score <= self.high_score
    }

    /// A game in the main menu, with no points yet and the given high score.
    pub fn new(high_score: u32) -> (game: Game)
        ensures
            game@ == (GameView { state: GameState::MainMenu, score: 0, high_score: high_score as nat }),
    {
        Game { state: GameState::MainMenu, score: 0, high_score }
    }

    /// The state of the game.
    pub fn state(&self) -> (state: GameState)
        ensures
            state == self@.state,
    {
        self.state
    }

    /// The score of the running round. It never exceeds the high score.
    pub fn score(&self) -> (score: u32)
        ensures
            score == self@.score,
            self@.consistent(),
    {
        proof {
            use_type_invariant(self);
        }
        self.score
    }

    /// The high score.
    pub fn high_score(&self) -> (high_score: u32)
        ensures
            high_score == self@.high_score,
            self@.consistent(),
    {
        proof {
            use_type_invariant(self);
        }
        self.high_score
    }

    /// Takes the game through one frame and says what the program has to do.
    pub fn frame(&mut self, input: FrameInput) -> (action: FrameAction)
        ensures
            final(self)@ == old(self)@.after_frame(input),
            action == old(self)@.action(input),
    {
        proof {
            use_type_invariant(&*self);
        }
        match self.state {
            GameState::MainMenu => {
                if input.escape_pressed {
                    FrameAction::Exit
                } else if input.space_pressed {
                    *self = Game {
                        state: GameState::Playing,
                        score: 0,
                        high_score: self.high_score,
                    };
                    FrameAction::Restart
                } else {
                    FrameAction::Continue
                }
            },
            GameState::Playing => {
                if input.player_hit {
                    self.state = GameState::GameOver;
                    if self.score == self.high_score {
                        FrameAction::SaveHighScore(self.high_score)
                    } else {
                        FrameAction::Continue
                    }
                } else {
                    if input.escape_pressed {
                        self.state = GameState::Paused;
                    }
                    FrameAction::Continue
                }
            },
            GameState::Paused => {
                if input.space_pressed {
                    self.state = GameState::Playing;
                }
                FrameAction::Continue
            },
            GameState::GameOver => {
                if input.space_pressed {
                    self.state = GameState::MainMenu;
                }
                FrameAction::Continue
            },
        }
    }

    /// Counts `points` for the score, and raises the high score to the score where the
    /// score passes it.
    pub fn add_points(&mut self, points: u32)
        requires
            old(self)@.score + points <= u32::MAX,
        ensures
            final(self)@ == old(self)@.with_points(points as nat),
    {
        proof {
            use_type_invariant(&*self);
        }
        let score: u32 = self.score + points;
        let high_score: u32 = if score > self.high_score { score } else { self.high_score };
        *self = Game { state: self.state, score, high_score };
    }
}

} // verus!
