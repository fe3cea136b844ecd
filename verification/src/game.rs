//! The match: two paddles, a ball, and who has won.

use vstd::prelude::*;
use crate::entity::{Body, Entity};
use crate::geometry::{SpriteSize, Vec2};
use crate::units::{BALL_SPEED, PADDLE_MARGIN, WINDOW_HEIGHT, WINDOW_WIDTH};

verus! {

/// The keys that are held down during one frame.
#[derive(Clone, Copy, Debug, PartialEq, Eq, Structural)]
pub struct Input {
    pub player1_up: bool,
    pub player1_down: bool,
    pub player2_up: bool,
    pub player2_down: bool,
}

/// The player who has won the match.
#[derive(Clone, Copy, Debug, PartialEq, Eq, Structural)]
pub enum Winner {
    Player1,
    Player2,
}

/// The mathematical content of a [`GameState`].
pub struct Game {
    pub player1: Body,
    pub player2: Body,
    pub ball: Body,
    pub winner: Option<Winner>,
}

/// The coordinate at which something of the given size sits in the middle
/// of a span that starts at zero.
pub open spec fn centred(span: int, size: int) -> int {
    (span - size) / 2
}

/// Who has won once the ball is where `ball` is: the second player when the
/// left edge of the ball is past the left side of the window, else the first
/// player when its right edge is past the right side, else nobody yet.
pub open spec fn verdict(ball: Body) -> Option<Winner> {
    if ball.x < 0 {
        Some(Winner::Player2)
    } else if ball.right() > WINDOW_WIDTH {
        Some(Winner::Player1)
    } else {
        None
    }
}

/// The ball after it has met whichever paddle it overlaps, the first
/// player's taking precedence.
pub open spec fn struck(ball: Body, player1: Body, player2: Body) -> Body {
    if ball.touches(player1) {
        ball.deflected(player1)
    } else if ball.touches(player2) {
        ball.deflected(player2)
    } else {
        ball
    }
}

impl Game {
    /// The start of a match: the paddles a margin away from their sides of
    /// the window and half way down, at rest; the ball in the middle of the
    /// window, heading for the first player.
    pub open spec fn kickoff(player1: SpriteSize, player2: SpriteSize, ball: SpriteSize) -> Game {
        let first = Body::of(player1, Vec2 { x: 0, y: 0 }, Vec2 { x: 0, y: 0 });
        let second = Body::of(player2, Vec2 { x: 0, y: 0 }, Vec2 { x: 0, y: 0 });
        let third = Body::of(ball, Vec2 { x: 0, y: 0 }, Vec2 { x: 0, y: 0 });
        Game {
            player1: Body {
                x: PADDLE_MARGIN as int,
                y: centred(WINDOW_HEIGHT as int, first.height),
                ..first
            },
            player2: Body {
                x: WINDOW_WIDTH - second.width - PADDLE_MARGIN,
                y: centred(WINDOW_HEIGHT as int, second.height),
                ..second
            },
            ball: Body {
                x: centred(WINDOW_WIDTH as int, third.width),
                y: centred(WINDOW_HEIGHT as int, third.height),
                vx: -BALL_SPEED,
                ..third
            },
            winner: None,
        }
    }

    /// Whether the match is over.
    pub open spec fn ended(self) -> bool {
        self.winner.is_some()
    }

    /// The match one frame later. A match that is over stays as it is.
    /// Otherwise the paddles follow their keys, the ball moves by its
    /// velocity, answers a paddle that it now overlaps, then the walls, and
    /// at last its position decides whether somebody has won.
    pub open spec fn step(self, input: Input) -> Game {
        if self.ended() {
            self
        } else {
            let player1 = self.player1.steered(input.player1_up, input.player1_down);
            let player2 = self.player2.steered(input.player2_up, input.player2_down);
            let ball = struck(self.ball.advanced(), player1, player2).bounced();
            Game { player1, player2, ball, winner: verdict(ball) }
        }
    }
}

impl Winner {
    /// The text that announces the winner.
    pub fn message(&self) -> (text: &'static str)
        ensures
            *self == Winner::Player1 ==> text@ == "Player 1 win!"@,
            *self == Winner::Player2 ==> text@ == "Player 2 win!"@,
    {
        match self {
            Winner::Player1 => "Player 1 win!",
            Winner::Player2 => "Player 2 win!",
        }
    }
}

/// A match in progress or decided.
#[derive(Clone, Copy, Debug, PartialEq, Eq)]
pub struct GameState {
    pub player1: Entity,
    pub player2: Entity,
    pub ball: Entity,
    pub winner: Option<Winner>,
}

impl View for GameState {
    type V = Game;

    open spec fn view(&self) -> Game {
        Game {
            player1: self.player1@,
            player2: self.player2@,
            ball: self.ball@,
            winner: self.winner,
        }
    }
}

/// Half of the room that is left beside something of the given size.
fn centre_in(span: i32, size: i32) -> (at: i32)
    requires
        0 <= span <= WINDOW_WIDTH,
        0 < size <= crate::entity::MAX_SIZE,
        span % 2 == 0,
        size % 2 == 0,
    ensures
        at == centred(span as int, size as int),
{
    (span - size) / 2
}

/// Who has won, judging by where the ball is.
pub fn referee(ball: &Entity) -> (winner: Option<Winner>)
    ensures
        winner == verdict(ball@),
{
    let left: i64 = ball.position().x as i64;
    if left < 0 {
        Some(Winner::Player2)
    } else if left + ball.width() as i64 > WINDOW_WIDTH as i64 {
        Some(Winner::Player1)
    } else {
        None
    }
}

impl GameState {
    /// A match at its start, for sprites of the given sizes, or nothing
    /// where one of the sprites has no pixel.
    pub fn new(player1: SpriteSize, player2: SpriteSize, ball: SpriteSize) -> (made: Option<
        GameState,
    >)
        ensures
            made.is_some() <==> player1.visible() && player2.visible() && ball.visible(),
            made matches Some(state) ==> state@ == Game::kickoff(player1, player2, ball),
    {
        if player1.width == 0 || player1.height == 0 || player2.width == 0 || player2.height == 0
            || ball.width == 0 || ball.height == 0 {
            return None;
        }
        let still: Vec2 = Vec2::zero();
        let origin: Vec2 = Vec2::zero();
        let mut first: Entity = Entity::new(player1, origin, still).unwrap();
        let mut second: Entity = Entity::new(player2, origin, still).unwrap();
        let mut third: Entity = Entity::new(ball, origin, Vec2::new(-BALL_SPEED, 0)).unwrap();
        let first_y: i32 = centre_in(WINDOW_HEIGHT, first.height());
        first.set_position(Vec2::new(PADDLE_MARGIN, first_y));
        let second_x: i32 = WINDOW_WIDTH - second.width() - PADDLE_MARGIN;
        let second_y: i32 = centre_in(WINDOW_HEIGHT, second.height());
        second.set_position(Vec2::new(second_x, second_y));
        let third_x: i32 = centre_in(WINDOW_WIDTH, third.width());
        let third_y: i32 = centre_in(WINDOW_HEIGHT, third.height());
        third.set_position(Vec2::new(third_x, third_y));
        Some(GameState { player1: first, player2: second, ball: third, winner: None })
    }

    /// Plays one frame with the given keys held down. A match that is over
    /// is left exactly as it is.
    pub fn update(&mut self, input: Input)
        ensures
            final(self)@ == old(self)@.step(input),
            old(self).winner.is_some() ==> *final(self) == *old(self),
    {
        if self.winner.is_some() {
            return;
        }
        self.player1.steer(input.player1_up, input.player1_down);
        self.player2.steer(input.player2_up, input.player2_down);
        self.ball.advance();
        if self.ball.touches(&self.player1) {
            self.ball.deflect(&self.player1);
        } else if self.ball.touches(&self.player2) {
            self.ball.deflect(&self.player2);
        }
        self.ball.bounce();
        self.winner = referee(&self.ball);
    }
}

} // verus!
