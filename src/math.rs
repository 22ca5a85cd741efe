use vstd::prelude::*;

verus! {

/// True when `v` is representable as an `i32`.
pub open spec fn fits_i32(v: int) -> bool {
    i32::MIN <= v <= i32::MAX
}

/// A two-component vector.
#[derive(Clone, Copy, Debug, PartialEq, Eq, Structural)]
pub struct Vector2<T> {
    pub x: T,
    pub y: T,
}

/// A three-component vector.
#[derive(Clone, Copy, Debug, PartialEq, Eq, Structural)]
pub struct Vector3<T> {
    pub x: T,
    pub y: T,
    pub z: T,
}

pub type Vec2i = Vector2<i32>;

pub type Vec3i = Vector3<i32>;

/// Mathematical dot product of two integer 2-vectors.
pub open spec fn dot2(a: Vec2i, b: Vec2i) -> int {
    a.x * b.x + a.y * b.y
}

/// Mathematical dot product of two integer 3-vectors.
pub open spec fn dot3(a: Vec3i, b: Vec3i) -> int {
    a.x * b.x + a.y * b.y + a.z * b.z
}

/// The dot product can be evaluated left to right in `i32` without overflow.
pub open spec fn dot2_fits(a: Vec2i, b: Vec2i) -> bool {
    &&& fits_i32(a.x * b.x)
    &&& fits_i32(a.y * b.y)
    &&& fits_i32(dot2(a, b))
}

/// The dot product can be evaluated left to right in `i32` without overflow.
pub open spec fn dot3_fits(a: Vec3i, b: Vec3i) -> bool {
    &&& fits_i32(a.x * b.x)
    &&& fits_i32(a.y * b.y)
    &&& fits_i32(a.z * b.z)
    &&& fits_i32(a.x * b.x + a.y * b.y)
    &&& fits_i32(dot3(a, b))
}

/// Components of the cross product `a × b`.
pub open spec fn cross_x(a: Vec3i, b: Vec3i) -> int {
    a.y * b.z - a.z * b.y
}

pub open spec fn cross_y(a: Vec3i, b: Vec3i) -> int {
    a.z * b.x - a.x * b.z
}

pub open spec fn cross_z(a: Vec3i, b: Vec3i) -> int {
    a.x * b.y - a.y * b.x
}

/// Every product and difference of the cross product fits in `i32`.
pub open spec fn cross_fits(a: Vec3i, b: Vec3i) -> bool {
    &&& fits_i32(a.y * b.z) && fits_i32(a.z * b.y) && fits_i32(cross_x(a, b))
    &&& fits_i32(a.z * b.x) && fits_i32(a.x * b.z) && fits_i32(cross_y(a, b))
    &&& fits_i32(a.x * b.y) && fits_i32(a.y * b.x) && fits_i32(cross_z(a, b))
}

/// The square of `a`.
pub fn sqr(a: i32) -> (r: i32)
    requires
        fits_i32(a * a),
    ensures
        r == a * a,
{
    a * a
}

pub fn vec2(x: i32, y: i32) -> (r: Vec2i)
    ensures
        r.x == x && r.y == y,
{
    Vector2::new(x, y)
}

/// A 2-vector with `a` in both coordinates.
pub fn vec2s(a: i32) -> (r: Vec2i)
    ensures
        r.x == a && r.y == a,
{
    Vector2::spread(a)
}

pub fn vec3(x: i32, y: i32, z: i32) -> (r: Vec3i)
    ensures
        r.x == x && r.y == y && r.z == z,
{
    Vector3::new(x, y, z)
}

/// A 3-vector with `a` in all coordinates.
pub fn vec3s(a: i32) -> (r: Vec3i)
    ensures
        r.x == a && r.y == a && r.z == a,
{
    Vector3::spread(a)
}

impl Vector2<i32> {
    pub fn new(x: i32, y: i32) -> (r: Vec2i)
        ensures
            r.x == x && r.y == y,
    {
        Vector2 { x, y }
    }

    /// Creates a vector with the given value in all coordinates.
    pub fn spread(a: i32) -> (r: Vec2i)
        ensures
            r.x == a && r.y == a,
    {
        Vector2 { x: a, y: a }
    }

    pub fn dot(&self, o: Vec2i) -> (r: i32)
        requires
            dot2_fits(*self, o),
        ensures
            r == dot2(*self, o),
    {
        (self.x * o.x) + (self.y * o.y)
    }
}

impl Vector3<i32> {
    pub fn new(x: i32, y: i32, z: i32) -> (r: Vec3i)
        ensures
            r.x == x && r.y == y && r.z == z,
    {
        Vector3 { x, y, z }
    }

    /// Creates a vector with the given value in all coordinates.
    pub fn spread(a: i32) -> (r: Vec3i)
        ensures
            r.x == a && r.y == a && r.z == a,
    {
        Vector3 { x: a, y: a, z: a }
    }

    /// The first two coordinates.
    pub fn get_xy(&self) -> (r: Vec2i)
        ensures
            r.x == self.x && r.y == self.y,
    {
        Vector2 { x: self.x, y: self.y }
    }

    /// The largest coordinate.
    pub fn max(&self) -> (r: i32)
        ensures
            r >= self.x && r >= self.y && r >= self.z,
            r == self.x || r == self.y || r == self.z,
    {
        let max_xy = if self.x < self.y {
            self.y
        } else {
            self.x
        };
        if max_xy < self.z {
            self.z
        } else {
            max_xy
        }
    }

    pub fn dot(&self, o: Vec3i) -> (r: i32)
        requires
            dot3_fits(*self, o),
        ensures
            r == dot3(*self, o),
    {
        (self.x * o.x) + (self.y * o.y) + (self.z * o.z)
    }

    /// The squared Euclidean length.
    pub fn length_sqr(self) -> (r: i32)
        requires
            dot3_fits(self, self),
        ensures
            r == dot3(self, self),
            r >= 0,
    {
        proof {
            assert(self.x * self.x >= 0) by (nonlinear_arith);
            assert(self.y * self.y >= 0) by (nonlinear_arith);
            assert(self.z * self.z >= 0) by (nonlinear_arith);
        }
        self.dot(self)
    }

    /// The cross product `self × o`.
    pub fn cross(&self, o: Vec3i) -> (r: Vec3i)
        requires
            cross_fits(*self, o),
        ensures
            r.x == cross_x(*self, o),
            r.y == cross_y(*self, o),
            r.z == cross_z(*self, o),
    {
        Vector3 {
            x: self.y * o.z - self.z * o.y,
            y: self.z * o.x - self.x * o.z,
            z: self.x * o.y - self.y * o.x,
        }
    }
}

} // verus!
