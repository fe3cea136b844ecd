//! How the ball answers a paddle and the walls.

use vstd::prelude::*;
use crate::entity::{Body, Entity};
use crate::geometry::Vec2;
use crate::units::{
    divide, quotient, saturate, saturating, sign, BALL_ACC, PADDLE_SPIN, UNITS_PER_PIXEL,
    WINDOW_HEIGHT,
};

verus! {

/// The horizontal velocity with which a ball that met a paddle at `vx`
/// leaves it: faster by [`BALL_ACC`], and in the opposite direction.
pub open spec fn rebound(vx: int) -> int {
    saturate(-(vx + BALL_ACC * sign(vx)))
}

impl Body {
    /// How far the middle of this body lies above the middle of `paddle`, in
    /// thousandths of the paddle's height, rounded toward zero. A ball that
    /// overlaps the paddle lies between about -500 and 500.
    pub open spec fn offset_from(self, paddle: Body) -> int {
        quotient((paddle.centre_y() - self.centre_y()) * UNITS_PER_PIXEL, paddle.height)
    }

    /// The vertical speed that contact with `paddle` adds: [`PADDLE_SPIN`]
    /// pixels per frame for each whole paddle height of offset, directed away
    /// from the middle of the paddle.
    pub open spec fn spin_from(self, paddle: Body) -> int {
        PADDLE_SPIN * -self.offset_from(paddle)
    }

    /// The body after it has met `paddle`.
    pub open spec fn deflected(self, paddle: Body) -> Body {
        Body {
            vx: rebound(self.vx),
            vy: saturate(self.vy + self.spin_from(paddle)),
            ..self
        }
    }

    /// Whether the body reaches the top or the bottom of the window.
    pub open spec fn at_wall(self) -> bool {
        self.y <= 0 || self.bottom() >= WINDOW_HEIGHT
    }

    /// The body after the walls had their say: at a wall its vertical
    /// velocity is reversed, elsewhere nothing changes. The position is left
    /// as it is, also where the body has gone past the wall.
    pub open spec fn bounced(self) -> Body {
        if self.at_wall() {
            Body { vy: saturate(-self.vy), ..self }
        } else {
            self
        }
    }
}

impl Entity {
    /// How far the middle of this entity lies above the middle of `paddle`,
    /// in thousandths of the paddle's height. Its size is at most the
    /// greatest distance between two stored coordinates, in thousandths.
    pub fn contact_offset(&self, paddle: &Entity) -> (offset: i64)
        ensures
            offset == self@.offset_from(paddle@),
            -(u32::MAX * UNITS_PER_PIXEL) <= offset <= u32::MAX * UNITS_PER_PIXEL,
    {
        let gap: i64 = paddle.centre().y as i64 - self.centre().y as i64;
        let scale: i64 = UNITS_PER_PIXEL as i64;
        assert(gap * scale == gap * 1000);
        divide(gap * scale, paddle.height() as i64)
    }

    /// Sends the ball back from `paddle`, faster and with spin.
    pub fn deflect(&mut self, paddle: &Entity)
        ensures
            final(self)@ == old(self)@.deflected(paddle@),
    {
        let before: Vec2 = self.velocity();
        let gain: i64 = if before.x < 0 {
            -(BALL_ACC as i64)
        } else {
            BALL_ACC as i64
        };
        let vx: i32 = saturating(-(before.x as i64 + gain));
        let offset: i64 = self.contact_offset(paddle);
        let vy: i32 = saturating(before.y as i64 + (PADDLE_SPIN as i64) * -offset);
        self.set_velocity(Vec2::new(vx, vy));
    }

    /// Whether the entity reaches the top or the bottom of the window.
    pub fn at_wall(&self) -> (reached: bool)
        ensures
            reached == self@.at_wall(),
    {
        let top: i64 = self.position().y as i64;
        top <= 0 || top + self.height() as i64 >= WINDOW_HEIGHT as i64
    }

    /// Reverses the vertical velocity of an entity that is at a wall.
    pub fn bounce(&mut self)
        ensures
            final(self)@ == old(self)@.bounced(),
    {
        if self.at_wall() {
            let before: Vec2 = self.velocity();
            self.set_velocity(Vec2::new(before.x, saturating(-(before.y as i64))));
        }
    }
}

} // verus!
