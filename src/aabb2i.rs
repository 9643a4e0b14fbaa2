use vstd::prelude::*;
use vstd::math::abs;
use crate::vec2i::{fits_i32, Vec2i};

verus! {

/// The smaller of two integers.
pub open spec fn lo(a: i32, b: i32) -> i32 {
    if a <= b { a } else { b }
}

/// The larger of two integers.
pub open spec fn hi(a: i32, b: i32) -> i32 {
    if a <= b { b } else { a }
}

/// A half-open 2D range: `min` is inside, `max` is not.
#[derive(Copy, Clone, Debug, PartialEq, Eq, Hash, Structural)]
pub struct Aabb2i {
    pub min: Vec2i,
    pub max: Vec2i,
}

impl Aabb2i {
    /// The box spanned by two opposite corners, given in either order.
    pub open spec fn spanned(a: Vec2i, b: Vec2i) -> Aabb2i {
        Aabb2i {
            min: Vec2i { x: lo(a.x, b.x), y: lo(a.y, b.y) },
            max: Vec2i { x: hi(a.x, b.x), y: hi(a.y, b.y) },
        }
    }

    /// `min` is not above `max` on either axis.
    pub open spec fn wf(self) -> bool {
        self.min.x <= self.max.x && self.min.y <= self.max.y
    }

    /// No integer point lies inside.
    pub open spec fn spec_is_empty(self) -> bool {
        self.min.x >= self.max.x || self.min.y >= self.max.y
    }

    /// `p` lies in `[min, max)` on both axes.
    pub open spec fn spec_contains(self, p: Vec2i) -> bool {
        self.min.x <= p.x < self.max.x && self.min.y <= p.y < self.max.y
    }

    /// The bounding box of two boxes, where an empty box is the identity.
    pub open spec fn spec_union(self, rhs: Aabb2i) -> Aabb2i {
        if self.spec_is_empty() {
            rhs
        } else if rhs.spec_is_empty() {
            self
        } else {
            Aabb2i {
                min: Vec2i { x: lo(self.min.x, rhs.min.x), y: lo(self.min.y, rhs.min.y) },
                max: Vec2i { x: hi(self.max.x, rhs.max.x), y: hi(self.max.y, rhs.max.y) },
            }
        }
    }

    /// The extent of the box on both axes fits in `i32`.
    pub open spec fn size_fits(self) -> bool {
        fits_i32(self.max.x - self.min.x) && fits_i32(self.max.y - self.min.y)
    }

    pub fn new(a: Vec2i, b: Vec2i) -> (r: Aabb2i)
        ensures
            r == Aabb2i::spanned(a, b),
            r.wf(),
    {
        let min = Vec2i::new(a.x.min(b.x), a.y.min(b.y));
        let max = Vec2i::new(a.x.max(b.x), a.y.max(b.y));
        Aabb2i { min, max }
    }

    /// The empty box at the origin, same as `default()`.
    pub fn new_empty() -> (r: Aabb2i)
        ensures
            r.min == Vec2i::of(0, 0),
            r.max == Vec2i::of(0, 0),
            r.spec_is_empty(),
    {
        Aabb2i::default()
    }

    /// The box from `center - extents` to `center + extents`.
    pub fn around_point(center: Vec2i, extents: Vec2i) -> (r: Aabb2i)
        requires
            fits_i32(center.x - extents.x),
            fits_i32(center.y - extents.y),
            fits_i32(center.x + extents.x),
            fits_i32(center.y + extents.y),
        ensures
            r == Aabb2i::spanned(
                Vec2i::of(center.x - extents.x, center.y - extents.y),
                Vec2i::of(center.x + extents.x, center.y + extents.y),
            ),
    {
        Aabb2i::new(center - extents, center + extents)
    }

    /// The box from `min` to `min + size`; a negative `size` component flips that axis.
    pub fn from_min_point(min: Vec2i, size: Vec2i) -> (r: Aabb2i)
        requires
            fits_i32(min.x + size.x),
            fits_i32(min.y + size.y),
        ensures
            r == Aabb2i::spanned(min, Vec2i::of(min.x + size.x, min.y + size.y)),
    {
        Aabb2i::new(min, min + size)
    }

    /// Both corners multiplied by `factor`: a scaling about the origin.
    pub fn scale(&self, factor: i32) -> (r: Aabb2i)
        requires
            fits_i32(self.min.x * factor),
            fits_i32(self.min.y * factor),
            fits_i32(self.max.x * factor),
            fits_i32(self.max.y * factor),
        ensures
            r == Aabb2i::spanned(
                Vec2i::of(self.min.x * factor, self.min.y * factor),
                Vec2i::of(self.max.x * factor, self.max.y * factor),
            ),
    {
        Aabb2i::new(self.min * factor, self.max * factor)
    }

    /// The smallest box covering both; an empty operand yields the other one unchanged.
    pub fn union(&self, rhs: &Aabb2i) -> (r: Aabb2i)
        ensures
            r == self.spec_union(*rhs),
    {
        if self.is_empty() {
            return *rhs;
        }
        if rhs.is_empty() {
            return *self;
        }
        let min_rect = Aabb2i::new(self.min, rhs.min);
        let max_rect = Aabb2i::new(self.max, rhs.max);
        Aabb2i::new(min_rect.min, max_rect.max)
    }

    pub fn is_empty(&self) -> (r: bool)
        ensures
            r == self.spec_is_empty(),
    {
        self.min.x >= self.max.x || self.min.y >= self.max.y
    }

    /// Inclusive of `min`, exclusive of `max`.
    pub fn contains_point(&self, point: Vec2i) -> (r: bool)
        ensures
            r == self.spec_contains(point),
    {
        self.min.x <= point.x && point.x < self.max.x && self.min.y <= point.y && point.y
            < self.max.y
    }

    /// `max - min` on each axis.
    pub fn size(&self) -> (r: Vec2i)
        requires
            self.size_fits(),
        ensures
            r == Vec2i::of(self.max.x - self.min.x, self.max.y - self.min.y),
    {
        self.max - self.min
    }
}

impl Default for Aabb2i {
    fn default() -> (r: Aabb2i)
        ensures
            r.min == Vec2i::of(0, 0),
            r.max == Vec2i::of(0, 0),
    {
        Aabb2i { min: Vec2i::zero(), max: Vec2i::zero() }
    }
}

/// Building a box from two corners does not depend on their order.
pub proof fn lemma_new_order_independent(a: Vec2i, b: Vec2i)
    ensures
        Aabb2i::spanned(a, b) == Aabb2i::spanned(b, a),
{
}

/// The box spanned by `a` and `b` holds `a` exactly when `a` is below `b` on both axes,
/// whichever order the corners are given in.
pub proof fn lemma_new_contains_corner(a: Vec2i, b: Vec2i)
    ensures
        Aabb2i::spanned(a, b).spec_contains(a) <==> (a.x < b.x && a.y < b.y),
        Aabb2i::spanned(b, a).spec_contains(a) <==> (a.x < b.x && a.y < b.y),
{
}

/// No box holds a point that lies on its `max` on either axis.
pub proof fn lemma_max_edge_excluded(bx: Aabb2i, p: Vec2i)
    requires
        p.x == bx.max.x || p.y == bx.max.y,
    ensures
        !bx.spec_contains(p),
{
}

/// A box built from a corner and a size spans the absolute value of the size on each axis.
pub proof fn lemma_from_min_point_extent(min: Vec2i, size: Vec2i)
    requires
        fits_i32(min.x + size.x),
        fits_i32(min.y + size.y),
    ensures
        ({
            let r = Aabb2i::spanned(min, Vec2i::of(min.x + size.x, min.y + size.y));
            &&& r.max.x - r.min.x == abs(size.x as int)
            &&& r.max.y - r.min.y == abs(size.y as int)
        }),
{
}

/// An empty box is the identity of `union`, on either side of a box that is not empty.
pub proof fn lemma_union_identity(a: Aabb2i, e: Aabb2i)
    requires
        e.spec_is_empty(),
    ensures
        e.spec_union(a) == a,
        !a.spec_is_empty() ==> a.spec_union(e) == a,
{
}

/// `union` is commutative unless both operands are empty.
pub proof fn lemma_union_commutative(a: Aabb2i, b: Aabb2i)
    requires
        !a.spec_is_empty() || !b.spec_is_empty(),
    ensures
        a.spec_union(b) == b.spec_union(a),
{
}

/// `union` is associative.
pub proof fn lemma_union_associative(a: Aabb2i, b: Aabb2i, c: Aabb2i)
    ensures
        a.spec_union(b.spec_union(c)) == a.spec_union(b).spec_union(c),
{
}

/// The union holds every point of both operands.
pub proof fn lemma_union_covers(a: Aabb2i, b: Aabb2i, p: Vec2i)
    requires
        a.spec_contains(p) || b.spec_contains(p),
    ensures
        a.spec_union(b).spec_contains(p),
{
}

} // verus!
