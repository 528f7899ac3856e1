use vstd::prelude::*;

use crate::coord_z::CoordZ;
use crate::numeric::CoordNum;

verus! {

/// A single point in three-dimensional space: exactly one coordinate.
///
/// A point cannot be empty in either interchange format; the decoders
/// enforce that, not this type.
#[derive(Clone, Copy, PartialEq, Debug)]
pub struct PointZ<T>(pub CoordZ<T>);

impl<T: Copy> PointZ<T> {
    /// A point from its three components.
    pub fn new(x: T, y: T, z: T) -> (r: Self)
        ensures
            r == PointZ(CoordZ { x, y, z }),
    {
        PointZ(CoordZ { x, y, z })
    }

    /// A point wrapping the given coordinate.
    pub fn from_coord(c: CoordZ<T>) -> (r: Self)
        ensures
            r == PointZ(c),
    {
        PointZ(c)
    }

    /// The horizontal component.
    pub fn x(self) -> (r: T)
        ensures
            r == self.0.x,
    {
        self.0.x
    }

    /// The vertical component.
    pub fn y(self) -> (r: T)
        ensures
            r == self.0.y,
    {
        self.0.y
    }

    /// The elevation component.
    pub fn z(self) -> (r: T)
        ensures
            r == self.0.z,
    {
        self.0.z
    }

    /// Replaces the horizontal component.
    pub fn set_x(&mut self, x: T)
        ensures
            *final(self) == PointZ(CoordZ { x, y: old(self).0.y, z: old(self).0.z }),
    {
        self.0.x = x;
    }

    /// Replaces the vertical component.
    pub fn set_y(&mut self, y: T)
        ensures
            *final(self) == PointZ(CoordZ { x: old(self).0.x, y, z: old(self).0.z }),
    {
        self.0.y = y;
    }

    /// Replaces the elevation component.
    pub fn set_z(&mut self, z: T)
        ensures
            *final(self) == PointZ(CoordZ { x: old(self).0.x, y: old(self).0.y, z }),
    {
        self.0.z = z;
    }

    /// The three components, in x, y, z order.
    pub fn x_y_z(self) -> (r: (T, T, T))
        ensures
            r == (self.0.x, self.0.y, self.0.z),
    {
        (self.0.x, self.0.y, self.0.z)
    }

    /// The longitude reading of the point: its horizontal component.
    pub fn lng(self) -> (r: T)
        ensures
            r == self.0.x,
    {
        self.0.x
    }

    /// Replaces the longitude reading: the horizontal component.
    pub fn set_lng(&mut self, lng: T)
        ensures
            *final(self) == PointZ(CoordZ { x: lng, y: old(self).0.y, z: old(self).0.z }),
    {
        self.set_x(lng)
    }

    /// The latitude reading of the point: its vertical component.
    pub fn lat(self) -> (r: T)
        ensures
            r == self.0.y,
    {
        self.0.y
    }

    /// Replaces the latitude reading: the vertical component.
    pub fn set_lat(&mut self, lat: T)
        ensures
            *final(self) == PointZ(CoordZ { x: old(self).0.x, y: lat, z: old(self).0.z }),
    {
        self.set_y(lat)
    }

    /// The altitude reading of the point: its elevation component.
    pub fn alt(self) -> (r: T)
        ensures
            r == self.0.z,
    {
        self.0.z
    }

    /// Replaces the altitude reading: the elevation component.
    pub fn set_alt(&mut self, alt: T)
        ensures
            *final(self) == PointZ(CoordZ { x: old(self).0.x, y: old(self).0.y, z: alt }),
    {
        self.set_z(alt)
    }
}

impl<T: CoordNum> PointZ<T> {
    /// The mathematical dot product of two points.
    pub open spec fn dot_spec(self, other: Self) -> T {
        self.0.x.mul_spec(other.0.x).add_spec(self.0.y.mul_spec(other.0.y)).add_spec(
            self.0.z.mul_spec(other.0.z),
        )
    }

    /// Dot product: `x1*x2 + y1*y2 + z1*z2`.
    pub fn dot(self, other: Self) -> (r: T)
        requires
            self.0.x.mul_ok(other.0.x),
            self.0.y.mul_ok(other.0.y),
            self.0.z.mul_ok(other.0.z),
            self.0.x.mul_spec(other.0.x).add_ok(self.0.y.mul_spec(other.0.y)),
            self.0.x.mul_spec(other.0.x).add_spec(self.0.y.mul_spec(other.0.y)).add_ok(
                self.0.z.mul_spec(other.0.z),
            ),
        ensures
            r == self.dot_spec(other),
    {
        let xy = self.0.x.mul(other.0.x).add(self.0.y.mul(other.0.y));
        xy.add(self.0.z.mul(other.0.z))
    }

    /// The planar cross product of three points, on the x/y components.
    pub open spec fn cross_prod_spec(self, b: Self, c: Self) -> T {
        (b.0.x.sub_spec(self.0.x)).mul_spec(c.0.y.sub_spec(self.0.y)).sub_spec(
            (b.0.y.sub_spec(self.0.y)).mul_spec(c.0.x.sub_spec(self.0.x)),
        )
    }

    /// Cross product of three points; positive means `self` → `b` → `c`
    /// turns counter-clockwise in the x/y plane.
    pub fn cross_prod(self, b: Self, c: Self) -> (r: T)
        requires
            b.0.x.sub_ok(self.0.x),
            c.0.y.sub_ok(self.0.y),
            b.0.y.sub_ok(self.0.y),
            c.0.x.sub_ok(self.0.x),
            (b.0.x.sub_spec(self.0.x)).mul_ok(c.0.y.sub_spec(self.0.y)),
            (b.0.y.sub_spec(self.0.y)).mul_ok(c.0.x.sub_spec(self.0.x)),
            (b.0.x.sub_spec(self.0.x)).mul_spec(c.0.y.sub_spec(self.0.y)).sub_ok(
                (b.0.y.sub_spec(self.0.y)).mul_spec(c.0.x.sub_spec(self.0.x)),
            ),
        ensures
            r == self.cross_prod_spec(b, c),
    {
        let left = b.0.x.sub(self.0.x).mul(c.0.y.sub(self.0.y));
        let right = b.0.y.sub(self.0.y).mul(c.0.x.sub(self.0.x));
        left.sub(right)
    }
}

} // verus!
