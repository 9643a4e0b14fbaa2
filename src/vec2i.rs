use vstd::prelude::*;

verus! {

/// A 2D vector of `i32` components.
#[derive(Copy, Clone, Debug, PartialEq, Eq, Hash, Structural)]
pub struct Vec2i {
    pub x: i32,
    pub y: i32,
}

/// True when `v` lies in the range of `i32`.
pub open spec fn fits_i32(v: int) -> bool {
    i32::MIN <= v <= i32::MAX
}

/// Integer division rounding toward zero, as `/` on `i32` does.
pub open spec fn div_toward_zero(a: int, b: int) -> int {
    if a >= 0 {
        a / b
    } else {
        -((-a) / b)
    }
}

impl Vec2i {
    /// The vector with the given components, computed over unbounded integers.
    /// Meaningful only when both components fit in `i32`.
    pub open spec fn of(x: int, y: int) -> Vec2i {
        Vec2i { x: x as i32, y: y as i32 }
    }

    pub fn new(x: i32, y: i32) -> (r: Vec2i)
        ensures
            r.x == x,
            r.y == y,
    {
        Vec2i { x, y }
    }

    /// Both components equal to `x`.
    pub fn splat(x: i32) -> (r: Vec2i)
        ensures
            r.x == x,
            r.y == x,
    {
        Vec2i::new(x, x)
    }

    pub fn zero() -> (r: Vec2i)
        ensures
            r.x == 0,
            r.y == 0,
    {
        Vec2i::splat(0)
    }

    pub fn from_tuple(t: (i32, i32)) -> (r: Vec2i)
        ensures
            r.x == t.0,
            r.y == t.1,
    {
        Vec2i::new(t.0, t.1)
    }

    pub fn to_tuple(self) -> (r: (i32, i32))
        ensures
            r == (self.x, self.y),
    {
        (self.x, self.y)
    }

    pub fn to_array(self) -> (r: [i32; 2])
        ensures
            r@ == seq![self.x, self.y],
    {
        [self.x, self.y]
    }

    /// Swaps x and y.
    pub fn transpose(self) -> (r: Vec2i)
        ensures
            r.x == self.y,
            r.y == self.x,
    {
        Vec2i::new(self.y, self.x)
    }
}

impl core::ops::Add for Vec2i {
    type Output = Vec2i;

    fn add(self, rhs: Vec2i) -> (r: Vec2i) {
        Vec2i { x: self.x + rhs.x, y: self.y + rhs.y }
    }
}

impl vstd::std_specs::ops::AddSpecImpl for Vec2i {
    open spec fn obeys_add_spec() -> bool {
        true
    }

    open spec fn add_req(self, rhs: Vec2i) -> bool {
        fits_i32(self.x + rhs.x) && fits_i32(self.y + rhs.y)
    }

    open spec fn add_spec(self, rhs: Vec2i) -> Vec2i {
        Vec2i::of(self.x + rhs.x, self.y + rhs.y)
    }
}

impl core::ops::Sub for Vec2i {
    type Output = Vec2i;

    fn sub(self, rhs: Vec2i) -> (r: Vec2i) {
        Vec2i { x: self.x - rhs.x, y: self.y - rhs.y }
    }
}

impl vstd::std_specs::ops::SubSpecImpl for Vec2i {
    open spec fn obeys_sub_spec() -> bool {
        true
    }

    open spec fn sub_req(self, rhs: Vec2i) -> bool {
        fits_i32(self.x - rhs.x) && fits_i32(self.y - rhs.y)
    }

    open spec fn sub_spec(self, rhs: Vec2i) -> Vec2i {
        Vec2i::of(self.x - rhs.x, self.y - rhs.y)
    }
}

impl core::ops::Mul<i32> for Vec2i {
    type Output = Vec2i;

    fn mul(self, rhs: i32) -> (r: Vec2i) {
        Vec2i { x: self.x * rhs, y: self.y * rhs }
    }
}

impl vstd::std_specs::ops::MulSpecImpl<i32> for Vec2i {
    open spec fn obeys_mul_spec() -> bool {
        true
    }

    open spec fn mul_req(self, rhs: i32) -> bool {
        fits_i32(self.x * rhs) && fits_i32(self.y * rhs)
    }

    open spec fn mul_spec(self, rhs: i32) -> Vec2i {
        Vec2i::of(self.x * rhs, self.y * rhs)
    }
}

impl core::ops::Div<i32> for Vec2i {
    type Output = Vec2i;

    fn div(self, rhs: i32) -> (r: Vec2i) {
        Vec2i { x: self.x / rhs, y: self.y / rhs }
    }
}

impl vstd::std_specs::ops::DivSpecImpl<i32> for Vec2i {
    open spec fn obeys_div_spec() -> bool {
        true
    }

    open spec fn div_req(self, rhs: i32) -> bool {
        rhs != 0 && !(rhs == -1 && (self.x == i32::MIN || self.y == i32::MIN))
    }

    open spec fn div_spec(self, rhs: i32) -> Vec2i {
        Vec2i::of(div_toward_zero(self.x as int, rhs as int), div_toward_zero(self.y as int, rhs as int))
    }
}

impl From<[i32; 2]> for Vec2i {
    fn from(a: [i32; 2]) -> (r: Vec2i) {
        Vec2i { x: a[0], y: a[1] }
    }
}

impl vstd::std_specs::convert::FromSpecImpl<[i32; 2]> for Vec2i {
    open spec fn obeys_from_spec() -> bool {
        true
    }

    open spec fn from_spec(a: [i32; 2]) -> Vec2i {
        Vec2i { x: a@[0], y: a@[1] }
    }
}

impl From<(i32, i32)> for Vec2i {
    fn from(t: (i32, i32)) -> (r: Vec2i) {
        Vec2i { x: t.0, y: t.1 }
    }
}

impl vstd::std_specs::convert::FromSpecImpl<(i32, i32)> for Vec2i {
    open spec fn obeys_from_spec() -> bool {
        true
    }

    open spec fn from_spec(t: (i32, i32)) -> Vec2i {
        Vec2i { x: t.0, y: t.1 }
    }
}

} // verus!
