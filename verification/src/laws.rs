//! What holds of every match, proved from the rules of the game.

use vstd::prelude::*;
use crate::ball::rebound;
use crate::entity::Body;
use crate::game::{verdict, Game, Input, Winner};
use crate::units::{BALL_ACC, WINDOW_HEIGHT, WINDOW_WIDTH};

verus! {

/// The size of a number without its sign.
pub open spec fn magnitude(v: int) -> int {
    if v < 0 {
        -v
    } else {
        v
    }
}

impl Game {
    /// The match after one frame for each entry of `inputs`, in order.
    pub open spec fn run(self, inputs: Seq<Input>) -> Game
        decreases inputs.len(),
    {
        if inputs.len() == 0 {
            self
        } else {
            self.step(inputs[0]).run(inputs.subrange(1, inputs.len() as int))
        }
    }
}

/// A body no taller than the window lies wholly between the top and the
/// bottom of the window once it has been settled, wherever it was before.
pub proof fn settled_lies_inside_window(body: Body)
    requires
        body.height <= WINDOW_HEIGHT,
    ensures
        0 <= body.settled().y <= WINDOW_HEIGHT - body.height,
        body.settled().bottom() <= WINDOW_HEIGHT,
{
}

/// Settling changes nothing but the vertical position, and leaves a body
/// that is already inside the window where it is.
pub proof fn settled_keeps_the_rest(body: Body)
    ensures
        body.settled() == (Body { y: body.settled().y, ..body }),
        0 <= body.y <= WINDOW_HEIGHT - body.height ==> body.settled() == body,
{
}

/// Whatever keys are held, a paddle no taller than the window is inside the
/// window after its move.
pub proof fn steered_paddle_lies_inside_window(paddle: Body, up: bool, down: bool)
    requires
        paddle.height <= WINDOW_HEIGHT,
    ensures
        0 <= paddle.steered(up, down).y <= WINDOW_HEIGHT - paddle.height,
{
}

/// After every frame of a match that was not yet over, both paddles are
/// inside the window, provided neither is taller than the window.
pub proof fn paddles_stay_inside_window(game: Game, input: Input)
    requires
        !game.ended(),
        game.player1.height <= WINDOW_HEIGHT,
        game.player2.height <= WINDOW_HEIGHT,
    ensures
        0 <= game.step(input).player1.y <= WINDOW_HEIGHT - game.player1.height,
        0 <= game.step(input).player2.y <= WINDOW_HEIGHT - game.player2.height,
{
}

/// A ball leaves a paddle faster than it came. The one exception is a ball
/// that already moves left at the greatest speed that can be stored or one
/// unit below it: it cannot gain speed.
pub proof fn rebound_is_faster(vx: int)
    requires
        i32::MIN + 1 < vx <= i32::MAX,
    ensures
        magnitude(rebound(vx)) > magnitude(vx),
{
}

/// Short of the end of the stored range, the speed gained at a paddle is
/// exactly [`BALL_ACC`].
pub proof fn rebound_gains_the_fixed_step(vx: int)
    requires
        magnitude(vx) + BALL_ACC <= i32::MAX,
    ensures
        magnitude(rebound(vx)) == magnitude(vx) + BALL_ACC,
{
}

/// A ball leaves a paddle in the direction opposite to the one it came in.
/// A ball with no horizontal movement counts as moving right.
pub proof fn rebound_turns_round(vx: int)
    ensures
        vx >= 0 ==> rebound(vx) < 0,
        vx < 0 ==> rebound(vx) > 0,
{
}

/// In a frame in which the ball comes to overlap a paddle, its horizontal
/// velocity changes direction and, short of the end of the stored range,
/// grows in size.
pub proof fn paddle_contact_speeds_up_and_turns(game: Game, input: Input)
    requires
        !game.ended(),
        i32::MIN + 1 < game.ball.vx <= i32::MAX,
        ({
            let player1 = game.player1.steered(input.player1_up, input.player1_down);
            let player2 = game.player2.steered(input.player2_up, input.player2_down);
            game.ball.advanced().touches(player1) || game.ball.advanced().touches(player2)
        }),
    ensures
        game.step(input).ball.vx == rebound(game.ball.vx),
        magnitude(game.step(input).ball.vx) > magnitude(game.ball.vx),
        game.ball.vx >= 0 ==> game.step(input).ball.vx < 0,
        game.ball.vx < 0 ==> game.step(input).ball.vx > 0,
{
}

/// In a frame in which the ball overlaps neither paddle, its horizontal
/// velocity stays as it was.
pub proof fn free_flight_keeps_horizontal_velocity(game: Game, input: Input)
    requires
        !game.ended(),
        ({
            let player1 = game.player1.steered(input.player1_up, input.player1_down);
            let player2 = game.player2.steered(input.player2_up, input.player2_down);
            !game.ball.advanced().touches(player1) && !game.ball.advanced().touches(player2)
        }),
    ensures
        game.step(input).ball.vx == game.ball.vx,
{
}

/// At a wall the vertical velocity is reflected exactly and nothing else
/// changes; away from the walls nothing changes at all. The one velocity
/// that cannot be reflected is the lowest that can be stored.
pub proof fn wall_reflects_vertical_velocity(body: Body)
    requires
        i32::MIN < body.vy <= i32::MAX,
    ensures
        body.at_wall() ==> body.bounced() == (Body { vy: -body.vy, ..body }),
        !body.at_wall() ==> body.bounced() == body,
{
}

/// In a frame that takes the ball to a wall without it meeting a paddle,
/// the vertical velocity after the frame is the opposite of the one before.
pub proof fn wall_contact_reflects_in_step(game: Game, input: Input)
    requires
        !game.ended(),
        i32::MIN < game.ball.vy <= i32::MAX,
        game.ball.advanced().at_wall(),
        ({
            let player1 = game.player1.steered(input.player1_up, input.player1_down);
            let player2 = game.player2.steered(input.player2_up, input.player2_down);
            !game.ball.advanced().touches(player1) && !game.ball.advanced().touches(player2)
        }),
    ensures
        game.step(input).ball.vy == -game.ball.vy,
{
}

/// The frame in which the ball passes the left side of the window gives
/// the match to the second player; the frame in which it passes the right
/// side, without being past the left one, gives it to the first player; in
/// every other frame of a running match nobody wins.
pub proof fn winner_follows_the_ball(game: Game, input: Input)
    requires
        !game.ended(),
    ensures
        game.ball.advanced().x < 0 ==> game.step(input).winner == Some(Winner::Player2),
        game.ball.advanced().x >= 0 && game.ball.advanced().right() > WINDOW_WIDTH
            ==> game.step(input).winner == Some(Winner::Player1),
        game.ball.advanced().x >= 0 && game.ball.advanced().right() <= WINDOW_WIDTH
            ==> game.step(input).winner.is_none(),
        game.step(input).winner == verdict(game.step(input).ball),
{
}

/// A match that is over does not change in a frame, whatever keys are held.
pub proof fn ended_match_is_frozen(game: Game, input: Input)
    requires
        game.ended(),
    ensures
        game.step(input) == game,
{
}

/// A match that is over does not change in any number of frames.
pub proof fn ended_match_stays_frozen(game: Game, inputs: Seq<Input>)
    requires
        game.ended(),
    ensures
        game.run(inputs) == game,
    decreases inputs.len(),
{
    if inputs.len() > 0 {
        ended_match_stays_frozen(game, inputs.subrange(1, inputs.len() as int));
    }
}

/// The sizes of the sprites never change during a match.
pub proof fn sizes_are_fixed(game: Game, input: Input)
    ensures
        game.step(input).player1.width == game.player1.width,
        game.step(input).player1.height == game.player1.height,
        game.step(input).player2.width == game.player2.width,
        game.step(input).player2.height == game.player2.height,
        game.step(input).ball.width == game.ball.width,
        game.step(input).ball.height == game.ball.height,
{
}

} // verus!
