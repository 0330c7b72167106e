//! Euclidean vectors with `x`, `y` and `z` components.
//!
//! The structural operations are generic in the component type; the
//! arithmetic is offered on 64-bit integer components.

use vstd::prelude::*;

verus! {

/// A Euclidean vector, holding components for one, two or three
/// dimensions.
#[derive(Debug, Copy, Clone, PartialEq)]
pub struct Vector<T> {
    /// X magnitude.
    pub x: T,
    /// Y magnitude.
    pub y: T,
    /// Z magnitude.
    pub z: T,
}

impl<T> Vector<T> {
    /// Constructs a vector from its components.
    pub fn new(x: T, y: T, z: T) -> (v: Vector<T>)
        ensures
            v == (Vector { x, y, z }),
    {
        Vector { x, y, z }
    }

    /// A copy of the vector.
    pub fn copy(&self) -> (v: Vector<T>)
        where
            T: Copy,
        ensures
            v == *self,
    {
        Vector { x: self.x, y: self.y, z: self.z }
    }

    /// The components as `[x, y, z]`.
    pub fn get(&self) -> (r: [T; 3])
        where
            T: Copy,
        ensures
            r@ == seq![self.x, self.y, self.z],
    {
        let r = [self.x, self.y, self.z];
        proof {
            assert(r@ =~= seq![self.x, self.y, self.z]);
        }
        r
    }

    /// Overwrites the components with those of `v`.
    pub fn set(&mut self, v: Vector<T>)
        ensures
            *final(self) == v,
    {
        let Vector { x, y, z } = v;
        self.x = x;
        self.y = y;
        self.z = z;
    }

    /// The components as a list `[x, y, z]`.
    pub fn to_vec(&self) -> (r: Vec<T>)
        where
            T: Copy,
        ensures
            r@ == seq![self.x, self.y, self.z],
    {
        let mut r: Vec<T> = Vec::new();
        r.push(self.x);
        r.push(self.y);
        r.push(self.z);
        proof {
            assert(r@ =~= seq![self.x, self.y, self.z]);
        }
        r
    }
}

impl Vector<i64> {
    /// The components stay small enough for products of pairs to fit.
    pub open spec fn bounded(&self) -> bool {
        &&& -0x4000_0000 <= self.x <= 0x4000_0000
        &&& -0x4000_0000 <= self.y <= 0x4000_0000
        &&& -0x4000_0000 <= self.z <= 0x4000_0000
    }

    /// The squared magnitude `x*x + y*y + z*z`.
    pub fn mag_sq(&self) -> (r: i64)
        requires
            self.bounded(),
        ensures
            r == self.x * self.x + self.y * self.y + self.z * self.z,
    {
        proof {
            lemma_component_product(self.x as int, self.x as int);
            lemma_component_product(self.y as int, self.y as int);
            lemma_component_product(self.z as int, self.z as int);
        }
        self.x * self.x + self.y * self.y + self.z * self.z
    }

    /// The dot product with `v`.
    pub fn dot(&self, v: Vector<i64>) -> (r: i64)
        requires
            self.bounded(),
            v.bounded(),
        ensures
            r == self.x * v.x + self.y * v.y + self.z * v.z,
    {
        proof {
            lemma_component_product(self.x as int, v.x as int);
            lemma_component_product(self.y as int, v.y as int);
            lemma_component_product(self.z as int, v.z as int);
        }
        self.x * v.x + self.y * v.y + self.z * v.z
    }

    /// The cross product with `v`.
    pub fn cross(&self, v: Vector<i64>) -> (r: Vector<i64>)
        requires
            self.bounded(),
            v.bounded(),
        ensures
            r.x == self.y * v.z - self.z * v.y,
            r.y == self.z * v.x - self.x * v.z,
            r.z == self.x * v.y - self.y * v.x,
    {
        proof {
            lemma_component_product(self.x as int, v.y as int);
            lemma_component_product(self.x as int, v.z as int);
            lemma_component_product(self.y as int, v.x as int);
            lemma_component_product(self.y as int, v.z as int);
            lemma_component_product(self.z as int, v.x as int);
            lemma_component_product(self.z as int, v.y as int);
        }
        Vector {
            x: self.y * v.z - self.z * v.y,
            y: self.z * v.x - self.x * v.z,
            z: self.x * v.y - self.y * v.x,
        }
    }

    /// Wraps the vector around a `width` by `height` area with a margin
    /// of `size`: a component passing one edge by more than the margin
    /// reappears at the opposite edge.
    pub fn wrap_2d(&mut self, width: i64, height: i64, size: i64)
        requires
            old(self).bounded(),
            0 <= width <= 0x2000_0000,
            0 <= height <= 0x2000_0000,
            0 <= size <= 0x2000_0000,
        ensures
            final(self).x == (if old(self).x > width + size {
                -size
            } else if old(self).x < -size {
                width + size
            } else {
                old(self).x as int
            }),
            final(self).y == (if old(self).y > height + size {
                -size
            } else if old(self).y < -size {
                height + size
            } else {
                old(self).y as int
            }),
            final(self).z == old(self).z,
    {
        if self.x > width + size {
            self.x = -size;
        } else if self.x < -size {
            self.x = width + size;
        }
        if self.y > height + size {
            self.y = -size;
        } else if self.y < -size {
            self.y = height + size;
        }
    }
}

/// The product of two bounded components fits comfortably in an `i64`.
proof fn lemma_component_product(a: int, b: int)
    requires
        -0x4000_0000 <= a <= 0x4000_0000,
        -0x4000_0000 <= b <= 0x4000_0000,
    ensures
        -0x1000_0000_0000_0000 <= a * b <= 0x1000_0000_0000_0000,
{
    assert(-0x1000_0000_0000_0000 <= a * b <= 0x1000_0000_0000_0000) by (nonlinear_arith)
        requires
            -0x4000_0000 <= a <= 0x4000_0000,
            -0x4000_0000 <= b <= 0x4000_0000,
    ;
}

/// Converts `T` to a vector with every component equal to it.
impl<T: Copy> From<T> for Vector<T> {
    fn from(v: T) -> (r: Vector<T>)
        ensures
            r == (Vector { x: v, y: v, z: v }),
    {
        Vector { x: v, y: v, z: v }
    }
}

impl<T: Copy> vstd::std_specs::convert::FromSpecImpl<T> for Vector<T> {
    open spec fn obeys_from_spec() -> bool {
        true
    }

    open spec fn from_spec(v: T) -> Vector<T> {
        Vector { x: v, y: v, z: v }
    }
}

/// Converts `(x, y)` to a vector whose `z` is the component default.
impl<T: Default> From<(T, T)> for Vector<T> {
    fn from(v: (T, T)) -> (r: Vector<T>)
        ensures
            r.x == v.0,
            r.y == v.1,
            call_ensures(T::default, (), r.z),
    {
        let (x, y) = v;
        Vector { x, y, z: T::default() }
    }
}

impl<T: Default> vstd::std_specs::convert::FromSpecImpl<(T, T)> for Vector<T> {
    open spec fn obeys_from_spec() -> bool {
        false
    }

    open spec fn from_spec(v: (T, T)) -> Vector<T> {
        Vector { x: v.0, y: v.1, z: vstd::pervasive::arbitrary() }
    }
}

/// Converts `(x, y, z)` to a vector.
impl<T> From<(T, T, T)> for Vector<T> {
    fn from(v: (T, T, T)) -> (r: Vector<T>)
        ensures
            r == (Vector { x: v.0, y: v.1, z: v.2 }),
    {
        let (x, y, z) = v;
        Vector { x, y, z }
    }
}

impl<T> vstd::std_specs::convert::FromSpecImpl<(T, T, T)> for Vector<T> {
    open spec fn obeys_from_spec() -> bool {
        true
    }

    open spec fn from_spec(v: (T, T, T)) -> Vector<T> {
        Vector { x: v.0, y: v.1, z: v.2 }
    }
}

/// Converts `[x]` to a vector whose `y` and `z` are the component
/// default.
impl<T: Default + Copy> From<[T; 1]> for Vector<T> {
    fn from(v: [T; 1]) -> (r: Vector<T>)
        ensures
            r.x == v@[0],
            call_ensures(T::default, (), r.y),
            call_ensures(T::default, (), r.z),
    {
        Vector { x: v[0], y: T::default(), z: T::default() }
    }
}

impl<T: Default + Copy> vstd::std_specs::convert::FromSpecImpl<[T; 1]> for Vector<T> {
    open spec fn obeys_from_spec() -> bool {
        false
    }

    open spec fn from_spec(v: [T; 1]) -> Vector<T> {
        Vector { x: v@[0], y: vstd::pervasive::arbitrary(), z: vstd::pervasive::arbitrary() }
    }
}

/// Converts `[x, y]` to a vector whose `z` is the component default.
impl<T: Default + Copy> From<[T; 2]> for Vector<T> {
    fn from(v: [T; 2]) -> (r: Vector<T>)
        ensures
            r.x == v@[0],
            r.y == v@[1],
            call_ensures(T::default, (), r.z),
    {
        Vector { x: v[0], y: v[1], z: T::default() }
    }
}

impl<T: Default + Copy> vstd::std_specs::convert::FromSpecImpl<[T; 2]> for Vector<T> {
    open spec fn obeys_from_spec() -> bool {
        false
    }

    open spec fn from_spec(v: [T; 2]) -> Vector<T> {
        Vector { x: v@[0], y: v@[1], z: vstd::pervasive::arbitrary() }
    }
}

/// Converts `[x, y, z]` to a vector.
impl<T: Copy> From<[T; 3]> for Vector<T> {
    fn from(v: [T; 3]) -> (r: Vector<T>)
        ensures
            r == (Vector { x: v@[0], y: v@[1], z: v@[2] }),
    {
        Vector { x: v[0], y: v[1], z: v[2] }
    }
}

impl<T: Copy> vstd::std_specs::convert::FromSpecImpl<[T; 3]> for Vector<T> {
    open spec fn obeys_from_spec() -> bool {
        true
    }

    open spec fn from_spec(v: [T; 3]) -> Vector<T> {
        Vector { x: v@[0], y: v@[1], z: v@[2] }
    }
}

} // verus!
