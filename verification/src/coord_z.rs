use vstd::prelude::*;

use crate::numeric::CoordNum;

verus! {

/// A single location on the three-dimensional Cartesian grid.
///
/// A bare value type: it has no identity, and equality is component-wise
/// equality on the scalar type.  The scalar type is unconstrained for
/// storage; the vector-space operations below ask for the numeric
/// capability.
#[derive(Clone, Copy, PartialEq, Debug)]
pub struct CoordZ<T> {
    pub x: T,
    pub y: T,
    pub z: T,
}

impl<T: Copy> CoordZ<T> {
    /// The three components, in x, y, z order.
    pub fn x_y_z(&self) -> (r: (T, T, T))
        ensures
            r == (self.x, self.y, self.z),
    {
        (self.x, self.y, self.z)
    }
}

impl<T: CoordNum> CoordZ<T> {
    /// The coordinate at the origin.
    pub fn zero() -> (r: Self)
        ensures
            r == (CoordZ { x: T::zero_spec(), y: T::zero_spec(), z: T::zero_spec() }),
    {
        CoordZ { x: T::zero(), y: T::zero(), z: T::zero() }
    }

    /// Component-wise negation.
    pub fn neg(self) -> (r: Self)
        requires
            self.x.neg_ok(),
            self.y.neg_ok(),
            self.z.neg_ok(),
        ensures
            r == (CoordZ { x: self.x.neg_spec(), y: self.y.neg_spec(), z: self.z.neg_spec() }),
    {
        CoordZ { x: self.x.neg(), y: self.y.neg(), z: self.z.neg() }
    }

    /// Component-wise addition.
    pub fn add(self, rhs: Self) -> (r: Self)
        requires
            self.x.add_ok(rhs.x),
            self.y.add_ok(rhs.y),
            self.z.add_ok(rhs.z),
        ensures
            r == (CoordZ {
                x: self.x.add_spec(rhs.x),
                y: self.y.add_spec(rhs.y),
                z: self.z.add_spec(rhs.z),
            }),
    {
        CoordZ { x: self.x.add(rhs.x), y: self.y.add(rhs.y), z: self.z.add(rhs.z) }
    }

    /// Component-wise subtraction.
    pub fn sub(self, rhs: Self) -> (r: Self)
        requires
            self.x.sub_ok(rhs.x),
            self.y.sub_ok(rhs.y),
            self.z.sub_ok(rhs.z),
        ensures
            r == (CoordZ {
                x: self.x.sub_spec(rhs.x),
                y: self.y.sub_spec(rhs.y),
                z: self.z.sub_spec(rhs.z),
            }),
    {
        CoordZ { x: self.x.sub(rhs.x), y: self.y.sub(rhs.y), z: self.z.sub(rhs.z) }
    }

    /// Scalar multiplication, component by component.
    pub fn mul(self, rhs: T) -> (r: Self)
        requires
            self.x.mul_ok(rhs),
            self.y.mul_ok(rhs),
            self.z.mul_ok(rhs),
        ensures
            r == (CoordZ {
                x: self.x.mul_spec(rhs),
                y: self.y.mul_spec(rhs),
                z: self.z.mul_spec(rhs),
            }),
    {
        CoordZ { x: self.x.mul(rhs), y: self.y.mul(rhs), z: self.z.mul(rhs) }
    }

    /// Scalar division, component by component.
    pub fn div(self, rhs: T) -> (r: Self)
        requires
            self.x.div_ok(rhs),
            self.y.div_ok(rhs),
            self.z.div_ok(rhs),
        ensures
            r == (CoordZ {
                x: self.x.div_spec(rhs),
                y: self.y.div_spec(rhs),
                z: self.z.div_spec(rhs),
            }),
    {
        CoordZ { x: self.x.div(rhs), y: self.y.div(rhs), z: self.z.div(rhs) }
    }

    /// Whether every component equals zero.
    pub fn is_zero(&self) -> (r: bool)
        ensures
            r == (self.x == T::zero_spec() && self.y == T::zero_spec() && self.z
                == T::zero_spec()),
    {
        self.x.eq_val(T::zero()) && self.y.eq_val(T::zero()) && self.z.eq_val(T::zero())
    }

    /// Component-wise equality through the numeric capability.
    pub fn eq_coord(&self, other: &Self) -> (r: bool)
        ensures
            r == (*self == *other),
    {
        self.x.eq_val(other.x) && self.y.eq_val(other.y) && self.z.eq_val(other.z)
    }
}

} // verus!
