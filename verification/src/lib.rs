//! Two-player Pong as a verified, frame-by-frame state machine.
//!
//! Every length, position and speed is a fixed-point number counted in
//! thousandths of a pixel, so the arithmetic of the game is exact and each
//! rule can be stated over the integers. The host program polls the keyboard,
//! hands the four key states to [`GameState::update`] once per frame, and
//! paints what [`GameState::draw`] describes.

pub mod units;
pub mod geometry;
pub mod entity;
pub mod ball;
pub mod paddle;
pub mod game;
pub mod scene;
pub mod laws;

pub use crate::entity::{Body, Entity};
pub use crate::game::{Game, GameState, Input, Winner};
pub use crate::geometry::{Rectangle, SpriteSize, Vec2};
pub use crate::scene::{Frame, Rgb, Scene};
