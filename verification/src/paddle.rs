//! How a paddle follows the two keys of its player.

use vstd::prelude::*;
use crate::entity::{Body, Entity};
use crate::units::PADDLE_SPEED;

verus! {

impl Body {
    /// The paddle after one frame in which its keys were held as given: up
    /// by [`PADDLE_SPEED`] for the one, down by as much for the other, then
    /// brought back inside the window.
    pub open spec fn steered(self, up: bool, down: bool) -> Body {
        let raised = if up {
            self.shifted(-PADDLE_SPEED)
        } else {
            self
        };
        let lowered = if down {
            raised.shifted(PADDLE_SPEED as int)
        } else {
            raised
        };
        lowered.settled()
    }
}

impl Entity {
    /// Moves the paddle for one frame according to the keys of its player.
    pub fn steer(&mut self, up: bool, down: bool)
        ensures
            final(self)@ == old(self)@.steered(up, down),
    {
        if up {
            self.shift(-PADDLE_SPEED);
        }
        if down {
            self.shift(PADDLE_SPEED);
        }
        self.fix_position();
    }
}

} // verus!
