//! Points and axis-aligned rectangles in fixed-point units.

use vstd::prelude::*;

verus! {

/// A point, or a displacement per frame, in fixed-point units.
#[derive(Clone, Copy, Debug, PartialEq, Eq, Structural)]
pub struct Vec2 {
    pub x: i32,
    pub y: i32,
}

/// An axis-aligned rectangle given by its top-left corner and its size.
#[derive(Clone, Copy, Debug, PartialEq, Eq, Structural)]
pub struct Rectangle {
    pub x: i32,
    pub y: i32,
    pub width: i32,
    pub height: i32,
}

/// The size of a sprite in whole pixels: what the game needs to know of the
/// picture that is drawn for an entity.
#[derive(Clone, Copy, Debug, PartialEq, Eq, Structural)]
pub struct SpriteSize {
    pub width: u16,
    pub height: u16,
}

impl SpriteSize {
    /// The size of a sprite `width` pixels wide and `height` pixels high.
    pub fn new(width: u16, height: u16) -> (s: SpriteSize)
        ensures
            s == (SpriteSize { width, height }),
    {
        SpriteSize { width, height }
    }

    /// Whether the sprite has at least one pixel.
    pub open spec fn visible(self) -> bool {
        self.width > 0 && self.height > 0
    }
}

impl Vec2 {
    /// The point with the given coordinates.
    pub fn new(x: i32, y: i32) -> (v: Vec2)
        ensures
            v == (Vec2 { x, y }),
    {
        Vec2 { x, y }
    }

    /// The origin, or no movement at all.
    pub fn zero() -> (v: Vec2)
        ensures
            v == (Vec2 { x: 0, y: 0 }),
    {
        Vec2 { x: 0, y: 0 }
    }
}

impl Rectangle {
    /// The coordinate of the right edge.
    pub open spec fn right(self) -> int {
        self.x + self.width
    }

    /// The coordinate of the bottom edge.
    pub open spec fn bottom(self) -> int {
        self.y + self.height
    }

    /// Two rectangles overlap when each begins strictly before the other
    /// ends, on both axes. Rectangles that only share an edge do not.
    pub open spec fn overlaps(self, other: Rectangle) -> bool {
        &&& self.x < other.right()
        &&& self.right() > other.x
        &&& self.y < other.bottom()
        &&& self.bottom() > other.y
    }

    /// The rectangle of the given size whose top-left corner is at `x`, `y`.
    pub fn new(x: i32, y: i32, width: i32, height: i32) -> (r: Rectangle)
        ensures
            r == (Rectangle { x, y, width, height }),
    {
        Rectangle { x, y, width, height }
    }

    /// Whether the two rectangles overlap. The edges are compared exactly,
    /// also where they lie beyond the range of a coordinate.
    pub fn intersects(&self, other: &Rectangle) -> (hit: bool)
        ensures
            hit == self.overlaps(*other),
    {
        let self_right: i64 = self.x as i64 + self.width as i64;
        let self_bottom: i64 = self.y as i64 + self.height as i64;
        let other_right: i64 = other.x as i64 + other.width as i64;
        let other_bottom: i64 = other.y as i64 + other.height as i64;
        (self.x as i64) < other_right && self_right > other.x as i64
            && (self.y as i64) < other_bottom && self_bottom > other.y as i64
    }
}

} // verus!
