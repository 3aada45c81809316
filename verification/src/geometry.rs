//! Points, offsets and axis-aligned rectangles over fixed-point coordinates.

use crate::fixed::Fixed;
use vstd::prelude::*;

verus! {

/// A position in desktop or screen space.
#[derive(Clone, Copy, Debug, PartialEq, Eq, Structural)]
pub struct Pos2 {
    pub x: Fixed,
    pub y: Fixed,
}

/// A displacement, or the size of a rectangle.
#[derive(Clone, Copy, Debug, PartialEq, Eq, Structural)]
pub struct Vec2 {
    pub x: Fixed,
    pub y: Fixed,
}

/// An axis-aligned rectangle given by its two corners. A point lies in it
/// when it is at or after `min` and strictly before `max` on both axes.
#[derive(Clone, Copy, Debug, PartialEq, Eq, Structural)]
pub struct Rect {
    pub min: Pos2,
    pub max: Pos2,
}

impl Pos2 {
    /// The origin.
    pub open spec fn spec_zero() -> Pos2 {
        Pos2 { x: Fixed::zero(), y: Fixed::zero() }
    }

    /// The origin.
    #[verifier::when_used_as_spec(spec_zero)]
    pub fn zero() -> (r: Pos2)
        ensures
            r == Self::spec_zero(),
    {
        Pos2 { x: Fixed::zero(), y: Fixed::zero() }
    }

    /// The position with the coordinates `x` and `y`.
    pub open spec fn spec_new(x: Fixed, y: Fixed) -> Pos2 {
        Pos2 { x, y }
    }

    /// The position moved by `offset`.
    pub open spec fn spec_plus(self, offset: Vec2) -> Pos2 {
        Pos2 { x: self.x.plus(offset.x), y: self.y.plus(offset.y) }
    }

    /// The displacement that leads from `origin` to this position.
    pub open spec fn spec_minus(self, origin: Pos2) -> Vec2 {
        Vec2 { x: self.x.minus(origin.x), y: self.y.minus(origin.y) }
    }

    /// The position with the coordinates `x` and `y`.
    #[verifier::when_used_as_spec(spec_new)]
    pub fn new(x: Fixed, y: Fixed) -> (r: Pos2)
        ensures
            r == Self::spec_new(x, y),
    {
        Pos2 { x, y }
    }

    /// The position moved by `offset`.
    #[verifier::when_used_as_spec(spec_plus)]
    pub fn plus(self, offset: Vec2) -> (r: Pos2)
        ensures
            r == self.spec_plus(offset),
    {
        Pos2 { x: self.x.plus(offset.x), y: self.y.plus(offset.y) }
    }

    /// The displacement that leads from `origin` to this position.
    #[verifier::when_used_as_spec(spec_minus)]
    pub fn minus(self, origin: Pos2) -> (r: Vec2)
        ensures
            r == self.spec_minus(origin),
    {
        Vec2 { x: self.x.minus(origin.x), y: self.y.minus(origin.y) }
    }
}

impl Vec2 {
    /// The empty displacement.
    pub open spec fn spec_zero() -> Vec2 {
        Vec2 { x: Fixed::zero(), y: Fixed::zero() }
    }

    /// The empty displacement.
    #[verifier::when_used_as_spec(spec_zero)]
    pub fn zero() -> (r: Vec2)
        ensures
            r == Self::spec_zero(),
    {
        Vec2 { x: Fixed::zero(), y: Fixed::zero() }
    }

    /// The displacement by `x` and `y`.
    pub open spec fn spec_new(x: Fixed, y: Fixed) -> Vec2 {
        Vec2 { x, y }
    }

    /// The sum of two displacements.
    pub open spec fn spec_plus(self, other: Vec2) -> Vec2 {
        Vec2 { x: self.x.plus(other.x), y: self.y.plus(other.y) }
    }

    /// The difference of two displacements.
    pub open spec fn spec_minus(self, other: Vec2) -> Vec2 {
        Vec2 { x: self.x.minus(other.x), y: self.y.minus(other.y) }
    }

    /// The displacement with both parts multiplied by `factor`.
    pub open spec fn spec_scaled(self, factor: Fixed) -> Vec2 {
        Vec2 { x: self.x.times(factor), y: self.y.times(factor) }
    }

    /// The displacement by `x` and `y`.
    #[verifier::when_used_as_spec(spec_new)]
    pub fn new(x: Fixed, y: Fixed) -> (r: Vec2)
        ensures
            r == Self::spec_new(x, y),
    {
        Vec2 { x, y }
    }

    /// The sum of two displacements.
    #[verifier::when_used_as_spec(spec_plus)]
    pub fn plus(self, other: Vec2) -> (r: Vec2)
        ensures
            r == self.spec_plus(other),
    {
        Vec2 { x: self.x.plus(other.x), y: self.y.plus(other.y) }
    }

    /// The difference of two displacements.
    #[verifier::when_used_as_spec(spec_minus)]
    pub fn minus(self, other: Vec2) -> (r: Vec2)
        ensures
            r == self.spec_minus(other),
    {
        Vec2 { x: self.x.minus(other.x), y: self.y.minus(other.y) }
    }

    /// The displacement with both parts multiplied by `factor`.
    #[verifier::when_used_as_spec(spec_scaled)]
    pub fn scaled(self, factor: Fixed) -> (r: Vec2)
        ensures
            r == self.spec_scaled(factor),
    {
        Vec2 { x: self.x.times(factor), y: self.y.times(factor) }
    }
}

impl Rect {
    /// The rectangle between the corners `min` and `max`.
    pub open spec fn spec_from_min_max(min: Pos2, max: Pos2) -> Rect {
        Rect { min, max }
    }

    /// The rectangle that starts at `min` and extends by `size`.
    pub open spec fn spec_from_min_size(min: Pos2, size: Vec2) -> Rect {
        Rect { min, max: Pos2 { x: min.x.plus(size.x), y: min.y.plus(size.y) } }
    }

    /// The horizontal extent, clamped to the representable range.
    pub open spec fn spec_width(&self) -> Fixed {
        self.max.x.minus(self.min.x)
    }

    /// The vertical extent, clamped to the representable range.
    pub open spec fn spec_height(&self) -> Fixed {
        self.max.y.minus(self.min.y)
    }

    /// Both extents.
    pub open spec fn spec_size(&self) -> Vec2 {
        Vec2 { x: self.width(), y: self.height() }
    }

    /// The point halfway between the two corners.
    pub open spec fn spec_center(&self) -> Pos2 {
        Pos2 { x: self.min.x.midpoint(self.max.x), y: self.min.y.midpoint(self.max.y) }
    }

    /// Whether `p` lies in the rectangle: `min` is inside, `max` is not.
    pub open spec fn spec_contains(&self, p: Pos2) -> bool {
        &&& self.min.x.raw <= p.x.raw < self.max.x.raw
        &&& self.min.y.raw <= p.y.raw < self.max.y.raw
    }

    /// The rectangle of the points that lie between the corners of both
    /// rectangles. Where the two do not meet, its corners are out of order.
    pub open spec fn spec_intersect(&self, other: Rect) -> Rect {
        Rect {
            min: Pos2 { x: self.min.x.max(other.min.x), y: self.min.y.max(other.min.y) },
            max: Pos2 { x: self.max.x.min(other.max.x), y: self.max.y.min(other.max.y) },
        }
    }

    /// Both extents are positive, so the rectangle holds at least one point.
    pub open spec fn is_positive(self) -> bool {
        self.min.x.raw < self.max.x.raw && self.min.y.raw < self.max.y.raw
    }

    /// The exact area, in squares of `1 / 65536`.
    pub open spec fn area(self) -> int {
        (self.max.x.raw - self.min.x.raw) * (self.max.y.raw - self.min.y.raw)
    }

    /// Every point of `other` lies between the corners of `self`.
    pub open spec fn covers(self, other: Rect) -> bool {
        &&& self.min.x.raw <= other.min.x.raw
        &&& self.min.y.raw <= other.min.y.raw
        &&& other.max.x.raw <= self.max.x.raw
        &&& other.max.y.raw <= self.max.y.raw
    }

    /// No point lies in both rectangles.
    pub open spec fn disjoint(self, other: Rect) -> bool {
        forall|p: Pos2| !(self.contains(p) && #[trigger] other.contains(p))
    }

    /// The rectangle between the corners `min` and `max`.
    #[verifier::when_used_as_spec(spec_from_min_max)]
    pub fn from_min_max(min: Pos2, max: Pos2) -> (r: Rect)
        ensures
            r == Self::spec_from_min_max(min, max),
    {
        Rect { min, max }
    }

    /// The rectangle that starts at `min` and extends by `size`.
    #[verifier::when_used_as_spec(spec_from_min_size)]
    pub fn from_min_size(min: Pos2, size: Vec2) -> (r: Rect)
        ensures
            r == Self::spec_from_min_size(min, size),
    {
        Rect { min, max: Pos2 { x: min.x.plus(size.x), y: min.y.plus(size.y) } }
    }

    /// The horizontal extent, clamped to the representable range.
    #[verifier::when_used_as_spec(spec_width)]
    pub fn width(&self) -> (r: Fixed)
        ensures
            r == self.spec_width(),
    {
        self.max.x.minus(self.min.x)
    }

    /// The vertical extent, clamped to the representable range.
    #[verifier::when_used_as_spec(spec_height)]
    pub fn height(&self) -> (r: Fixed)
        ensures
            r == self.spec_height(),
    {
        self.max.y.minus(self.min.y)
    }

    /// Both extents.
    #[verifier::when_used_as_spec(spec_size)]
    pub fn size(&self) -> (r: Vec2)
        ensures
            r == self.spec_size(),
    {
        Vec2 { x: self.width(), y: self.height() }
    }

    /// The point halfway between the two corners.
    #[verifier::when_used_as_spec(spec_center)]
    pub fn center(&self) -> (r: Pos2)
        ensures
            r == self.spec_center(),
    {
        Pos2 { x: self.min.x.midpoint(self.max.x), y: self.min.y.midpoint(self.max.y) }
    }

    /// The rectangle of the points that lie between the corners of both
    /// rectangles. Where the two do not meet, its corners are out of order.
    #[verifier::when_used_as_spec(spec_intersect)]
    pub fn intersect(&self, other: Rect) -> (r: Rect)
        ensures
            r == self.spec_intersect(other),
    {
        Rect {
            min: Pos2 { x: self.min.x.max(other.min.x), y: self.min.y.max(other.min.y) },
            max: Pos2 { x: self.max.x.min(other.max.x), y: self.max.y.min(other.max.y) },
        }
    }

    /// Whether `p` lies in the rectangle: `min` is inside, `max` is not.
    #[verifier::when_used_as_spec(spec_contains)]
    pub fn contains(&self, p: Pos2) -> (r: bool)
        ensures
            r == self.spec_contains(p),
    {
        self.min.x.raw <= p.x.raw && p.x.raw < self.max.x.raw && self.min.y.raw <= p.y.raw
            && p.y.raw < self.max.y.raw
    }
}

} // verus!
