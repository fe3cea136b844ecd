//! What one frame shows: the instructions that a renderer carries out.

use vstd::prelude::*;
use crate::game::{Game, GameState, Winner};
use crate::geometry::Vec2;
use crate::units::{WINDOW_HEIGHT, WINDOW_WIDTH};

verus! {

/// Red part of the background, in thousandths of full intensity.
pub const BACKGROUND_RED: u16 = 392;

/// Green part of the background, in thousandths of full intensity.
pub const BACKGROUND_GREEN: u16 = 584;

/// Blue part of the background, in thousandths of full intensity.
pub const BACKGROUND_BLUE: u16 = 929;

/// How far left of the middle of the window the closing text begins.
pub const END_TEXT_LEFT: i32 = 140_000;

/// How far above the middle of the window the closing text begins.
pub const END_TEXT_UP: i32 = 22_000;

/// A colour, each part in thousandths of full intensity.
#[derive(Clone, Copy, Debug, PartialEq, Eq, Structural)]
pub struct Rgb {
    pub red: u16,
    pub green: u16,
    pub blue: u16,
}

/// What is painted over the background.
#[derive(Clone, Copy, Debug, PartialEq, Eq, Structural)]
pub enum Scene {
    /// The match is over: only the closing text, with its top-left corner
    /// at `text_at`.
    Ended { winner: Winner, text_at: Vec2 },
    /// The match goes on: the three sprites, each at its top-left corner.
    Playing { player1: Vec2, player2: Vec2, ball: Vec2 },
}

/// One frame: the colour that the window is cleared to, and what is painted
/// over it.
#[derive(Clone, Copy, Debug, PartialEq, Eq, Structural)]
pub struct Frame {
    pub background: Rgb,
    pub scene: Scene,
}

/// The colour behind every frame.
pub open spec fn backdrop() -> Rgb {
    Rgb { red: BACKGROUND_RED, green: BACKGROUND_GREEN, blue: BACKGROUND_BLUE }
}

/// Where the closing text begins.
pub open spec fn end_text_corner() -> Vec2 {
    Vec2 {
        x: (WINDOW_WIDTH / 2 - END_TEXT_LEFT) as i32,
        y: (WINDOW_HEIGHT / 2 - END_TEXT_UP) as i32,
    }
}

impl Game {
    /// The frame that shows this match. Once the match is over the paddles
    /// and the ball are no longer shown.
    pub open spec fn frame(self) -> Frame {
        Frame {
            background: backdrop(),
            scene: match self.winner {
                Some(winner) => Scene::Ended { winner, text_at: end_text_corner() },
                None => Scene::Playing {
                    player1: self.player1.corner(),
                    player2: self.player2.corner(),
                    ball: self.ball.corner(),
                },
            },
        }
    }
}

impl GameState {
    /// Describes the frame that shows the match as it stands.
    pub fn draw(&self) -> (frame: Frame)
        ensures
            frame == self@.frame(),
    {
        let background = Rgb {
            red: BACKGROUND_RED,
            green: BACKGROUND_GREEN,
            blue: BACKGROUND_BLUE,
        };
        let scene = match self.winner {
            Some(winner) => Scene::Ended {
                winner,
                text_at: Vec2::new(WINDOW_WIDTH / 2 - END_TEXT_LEFT, WINDOW_HEIGHT / 2 - END_TEXT_UP),
            },
            None => Scene::Playing {
                player1: self.player1.position(),
                player2: self.player2.position(),
                ball: self.ball.position(),
            },
        };
        Frame { background, scene }
    }
}

} // verus!
