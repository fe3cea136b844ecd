//! The moving objects of the game: the two paddles and the ball.

use vstd::prelude::*;
use crate::geometry::{Rectangle, SpriteSize, Vec2};
use crate::units::{saturate, saturating, UNITS_PER_PIXEL, WINDOW_HEIGHT};

verus! {

/// Largest width or height that a sprite can have.
pub const MAX_SIZE: i32 = 65_535_000;

/// The mathematical content of an [`Entity`]: the size of its sprite, the
/// position of its top-left corner, and its displacement per frame, all in
/// fixed-point units.
pub struct Body {
    pub width: int,
    pub height: int,
    pub x: int,
    pub y: int,
    pub vx: int,
    pub vy: int,
}

impl Body {
    /// What holds of the content of every [`Entity`].
    pub open spec fn wf(self) -> bool {
        &&& 0 < self.width <= MAX_SIZE
        &&& 0 < self.height <= MAX_SIZE
        &&& self.width % (UNITS_PER_PIXEL as int) == 0
        &&& self.height % (UNITS_PER_PIXEL as int) == 0
        &&& i32::MIN <= self.x <= i32::MAX
        &&& i32::MIN <= self.y <= i32::MAX
        &&& i32::MIN <= self.vx <= i32::MAX
        &&& i32::MIN <= self.vy <= i32::MAX
    }

    /// The body of a sprite of the given size at `position`, moving by
    /// `velocity` per frame.
    pub open spec fn of(size: SpriteSize, position: Vec2, velocity: Vec2) -> Body {
        Body {
            width: size.width as int * UNITS_PER_PIXEL as int,
            height: size.height as int * UNITS_PER_PIXEL as int,
            x: position.x as int,
            y: position.y as int,
            vx: velocity.x as int,
            vy: velocity.y as int,
        }
    }

    /// The top-left corner as a point.
    pub open spec fn corner(self) -> Vec2 {
        Vec2 { x: self.x as i32, y: self.y as i32 }
    }

    /// The coordinate of the right edge.
    pub open spec fn right(self) -> int {
        self.x + self.width
    }

    /// The coordinate of the bottom edge.
    pub open spec fn bottom(self) -> int {
        self.y + self.height
    }

    /// The lowest position at which the whole sprite is still above the
    /// bottom of the window.
    pub open spec fn max_y(self) -> int {
        WINDOW_HEIGHT - self.height
    }

    /// The horizontal coordinate of the middle of the sprite.
    pub open spec fn centre_x(self) -> int {
        saturate(self.x + self.width / 2)
    }

    /// The vertical coordinate of the middle of the sprite.
    pub open spec fn centre_y(self) -> int {
        saturate(self.y + self.height / 2)
    }

    /// The body brought back between the top and the bottom of the window.
    /// A position below the lowest admissible one is raised to it; otherwise
    /// a position above the top is lowered to the top.
    pub open spec fn settled(self) -> Body {
        if self.y > self.max_y() {
            Body { y: self.max_y(), ..self }
        } else if self.y < 0 {
            Body { y: 0, ..self }
        } else {
            self
        }
    }

    /// The body moved vertically by `dy`.
    pub open spec fn shifted(self, dy: int) -> Body {
        Body { y: saturate(self.y + dy), ..self }
    }

    /// The body after one frame of free movement.
    pub open spec fn advanced(self) -> Body {
        Body { x: saturate(self.x + self.vx), y: saturate(self.y + self.vy), ..self }
    }

    /// Whether the rectangles that the two bodies cover overlap.
    pub open spec fn touches(self, other: Body) -> bool {
        &&& self.x < other.right()
        &&& self.right() > other.x
        &&& self.y < other.bottom()
        &&& self.bottom() > other.y
    }
}

/// A sprite of fixed size with a position and a velocity.
#[derive(Clone, Copy, Debug, PartialEq, Eq)]
pub struct Entity {
    width: u16,
    height: u16,
    position: Vec2,
    velocity: Vec2,
}

impl View for Entity {
    type V = Body;

    closed spec fn view(&self) -> Body {
        Body {
            width: self.width as int * UNITS_PER_PIXEL as int,
            height: self.height as int * UNITS_PER_PIXEL as int,
            x: self.position.x as int,
            y: self.position.y as int,
            vx: self.velocity.x as int,
            vy: self.velocity.y as int,
        }
    }
}

impl Entity {
    #[verifier::type_invariant]
    spec fn sized(self) -> bool {
        self.width > 0 && self.height > 0
    }

    /// An entity drawn with a sprite of the given size, or nothing where the
    /// sprite has no pixel.
    pub fn new(size: SpriteSize, position: Vec2, velocity: Vec2) -> (made: Option<Entity>)
        ensures
            made.is_some() <==> size.visible(),
            made matches Some(e) ==> e@ == Body::of(size, position, velocity) && e@.wf(),
    {
        if size.width == 0 || size.height == 0 {
            None
        } else {
            Some(Entity { width: size.width, height: size.height, position, velocity })
        }
    }

    /// The width of the sprite.
    pub fn width(&self) -> (w: i32)
        ensures
            w == self@.width,
            self@.wf(),
    {
        proof {
            use_type_invariant(self);
        }
        let pixels: i32 = self.width as i32;
        pixels * UNITS_PER_PIXEL
    }

    /// The height of the sprite.
    pub fn height(&self) -> (h: i32)
        ensures
            h == self@.height,
            self@.wf(),
    {
        proof {
            use_type_invariant(self);
        }
        let pixels: i32 = self.height as i32;
        pixels * UNITS_PER_PIXEL
    }

    /// The position of the top-left corner.
    pub fn position(&self) -> (p: Vec2)
        ensures
            p.x == self@.x,
            p.y == self@.y,
            p == self@.corner(),
    {
        self.position
    }

    /// The displacement per frame.
    pub fn velocity(&self) -> (v: Vec2)
        ensures
            v.x == self@.vx,
            v.y == self@.vy,
    {
        self.velocity
    }

    /// Places the top-left corner at `position`.
    pub fn set_position(&mut self, position: Vec2)
        ensures
            final(self)@ == (Body { x: position.x as int, y: position.y as int, ..old(self)@ }),
    {
        proof {
            use_type_invariant(&*self);
        }
        self.position = position;
    }

    /// Replaces the displacement per frame.
    pub fn set_velocity(&mut self, velocity: Vec2)
        ensures
            final(self)@ == (Body { vx: velocity.x as int, vy: velocity.y as int, ..old(self)@ }),
    {
        proof {
            use_type_invariant(&*self);
        }
        self.velocity = velocity;
    }

    /// Brings the entity back between the top and the bottom of the window.
    /// Nothing is done about its horizontal position.
    pub fn fix_position(&mut self)
        ensures
            final(self)@ == old(self)@.settled(),
            old(self)@.height <= WINDOW_HEIGHT ==> 0 <= final(self)@.y <= WINDOW_HEIGHT
                - final(self)@.height,
    {
        proof {
            use_type_invariant(&*self);
        }
        let max_y: i32 = WINDOW_HEIGHT - self.height();
        if self.position.y > max_y {
            self.position.y = max_y;
        } else if self.position.y < 0 {
            self.position.y = 0;
        }
    }

    /// The rectangle that the sprite covers.
    pub fn bounds(&self) -> (r: Rectangle)
        ensures
            r.x == self@.x,
            r.y == self@.y,
            r.width == self@.width,
            r.height == self@.height,
    {
        Rectangle::new(self.position.x, self.position.y, self.width(), self.height())
    }

    /// The middle of the sprite.
    pub fn centre(&self) -> (c: Vec2)
        ensures
            c.x == self@.centre_x(),
            c.y == self@.centre_y(),
    {
        let half_width: i64 = (self.width() / 2) as i64;
        let half_height: i64 = (self.height() / 2) as i64;
        Vec2::new(
            saturating(self.position.x as i64 + half_width),
            saturating(self.position.y as i64 + half_height),
        )
    }

    /// Moves the entity vertically by `dy`, stopping at the end of the
    /// stored range.
    pub fn shift(&mut self, dy: i32)
        ensures
            final(self)@ == old(self)@.shifted(dy as int),
    {
        proof {
            use_type_invariant(&*self);
        }
        self.position.y = saturating(self.position.y as i64 + dy as i64);
    }

    /// Moves the entity by its velocity, each coordinate stopping at the end
    /// of the stored range.
    pub fn advance(&mut self)
        ensures
            final(self)@ == old(self)@.advanced(),
    {
        proof {
            use_type_invariant(&*self);
        }
        self.position.x = saturating(self.position.x as i64 + self.velocity.x as i64);
        self.position.y = saturating(self.position.y as i64 + self.velocity.y as i64);
    }

    /// Whether the sprites of the two entities overlap.
    pub fn touches(&self, other: &Entity) -> (hit: bool)
        ensures
            hit == self@.touches(other@),
    {
        self.bounds().intersects(&other.bounds())
    }
}

} // verus!
