use vstd::prelude::*;

verus! {

/// A 3D vector of `i32` components.
#[derive(Copy, Clone, Debug, PartialEq, Eq, Hash, Structural)]
pub struct Vec3i {
    pub x: i32,
    pub y: i32,
    pub z: i32,
}

impl Vec3i {
    pub fn new(x: i32, y: i32, z: i32) -> (r: Vec3i)
        ensures
            r.x == x,
            r.y == y,
            r.z == z,
    {
        Vec3i { x, y, z }
    }

    /// All components equal to `x`.
    pub fn splat(x: i32) -> (r: Vec3i)
        ensures
            r.x == x,
            r.y == x,
            r.z == x,
    {
        Vec3i::new(x, x, x)
    }

    pub fn zero() -> (r: Vec3i)
        ensures
            r.x == 0,
            r.y == 0,
            r.z == 0,
    {
        Vec3i::splat(0)
    }

    pub fn from_tuple(t: (i32, i32, i32)) -> (r: Vec3i)
        ensures
            r.x == t.0,
            r.y == t.1,
            r.z == t.2,
    {
        Vec3i::new(t.0, t.1, t.2)
    }

    pub fn to_tuple(self) -> (r: (i32, i32, i32))
        ensures
            r == (self.x, self.y, self.z),
    {
        (self.x, self.y, self.z)
    }

    pub fn to_array(self) -> (r: [i32; 3])
        ensures
            r@ == seq![self.x, self.y, self.z],
    {
        [self.x, self.y, self.z]
    }
}

impl From<[i32; 3]> for Vec3i {
    fn from(a: [i32; 3]) -> (r: Vec3i) {
        Vec3i { x: a[0], y: a[1], z: a[2] }
    }
}

impl vstd::std_specs::convert::FromSpecImpl<[i32; 3]> for Vec3i {
    open spec fn obeys_from_spec() -> bool {
        true
    }

    open spec fn from_spec(a: [i32; 3]) -> Vec3i {
        Vec3i { x: a@[0], y: a@[1], z: a@[2] }
    }
}

impl From<(i32, i32, i32)> for Vec3i {
    fn from(t: (i32, i32, i32)) -> (r: Vec3i) {
        Vec3i { x: t.0, y: t.1, z: t.2 }
    }
}

impl vstd::std_specs::convert::FromSpecImpl<(i32, i32, i32)> for Vec3i {
    open spec fn obeys_from_spec() -> bool {
        true
    }

    open spec fn from_spec(t: (i32, i32, i32)) -> Vec3i {
        Vec3i { x: t.0, y: t.1, z: t.2 }
    }
}

} // verus!
