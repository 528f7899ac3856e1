use vstd::prelude::*;

use crate::coord_z::CoordZ;
use crate::numeric::CoordNum;
use crate::point_z::PointZ;

verus! {

/// A line segment between exactly two coordinates.
#[derive(Clone, Copy, PartialEq, Debug)]
pub struct LineZ<T> {
    pub start: CoordZ<T>,
    pub end: CoordZ<T>,
}

impl<T: Copy> LineZ<T> {
    /// The segment from `start` to `end`.
    pub fn new(start: CoordZ<T>, end: CoordZ<T>) -> (r: Self)
        ensures
            r == (LineZ { start, end }),
    {
        LineZ { start, end }
    }

    /// The start, as a point.
    pub fn start_point(&self) -> (r: PointZ<T>)
        ensures
            r == PointZ(self.start),
    {
        PointZ(self.start)
    }

    /// The end, as a point.
    pub fn end_point(&self) -> (r: PointZ<T>)
        ensures
            r == PointZ(self.end),
    {
        PointZ(self.end)
    }

    /// Both endpoints, as points, in start/end order.
    pub fn points(&self) -> (r: (PointZ<T>, PointZ<T>))
        ensures
            r == (PointZ(self.start), PointZ(self.end)),
    {
        (PointZ(self.start), PointZ(self.end))
    }
}

impl<T: CoordNum> LineZ<T> {
    /// Whether the component-wise difference `end - start` is defined.
    pub open spec fn delta_ok(self) -> bool {
        &&& self.end.x.sub_ok(self.start.x)
        &&& self.end.y.sub_ok(self.start.y)
        &&& self.end.z.sub_ok(self.start.z)
    }

    /// The component-wise difference `end - start`.
    pub open spec fn delta_spec(self) -> CoordZ<T> {
        CoordZ {
            x: self.end.x.sub_spec(self.start.x),
            y: self.end.y.sub_spec(self.start.y),
            z: self.end.z.sub_spec(self.start.z),
        }
    }

    /// The difference between the end and the start coordinate.
    pub fn delta(&self) -> (r: CoordZ<T>)
        requires
            self.delta_ok(),
        ensures
            r == self.delta_spec(),
    {
        self.end.sub(self.start)
    }

    /// The horizontal span `end.x - start.x`.
    pub fn dx(&self) -> (r: T)
        requires
            self.end.x.sub_ok(self.start.x),
        ensures
            r == self.end.x.sub_spec(self.start.x),
    {
        self.end.x.sub(self.start.x)
    }

    /// The vertical span `end.y - start.y`.
    pub fn dy(&self) -> (r: T)
        requires
            self.end.y.sub_ok(self.start.y),
        ensures
            r == self.end.y.sub_spec(self.start.y),
    {
        self.end.y.sub(self.start.y)
    }

    /// The slope `dy / dx` of the segment's x/y shadow.
    pub fn slope(&self) -> (r: T)
        requires
            self.end.x.sub_ok(self.start.x),
            self.end.y.sub_ok(self.start.y),
            self.end.y.sub_spec(self.start.y).div_ok(self.end.x.sub_spec(self.start.x)),
        ensures
            r == self.end.y.sub_spec(self.start.y).div_spec(self.end.x.sub_spec(self.start.x)),
    {
        let dy = self.end.y.sub(self.start.y);
        let dx = self.end.x.sub(self.start.x);
        dy.div(dx)
    }

    /// The determinant `start.x * end.y - start.y * end.x`.
    pub fn determinant(&self) -> (r: T)
        requires
            self.start.x.mul_ok(self.end.y),
            self.start.y.mul_ok(self.end.x),
            self.start.x.mul_spec(self.end.y).sub_ok(self.start.y.mul_spec(self.end.x)),
        ensures
            r == self.start.x.mul_spec(self.end.y).sub_spec(self.start.y.mul_spec(self.end.x)),
    {
        self.start.x.mul(self.end.y).sub(self.start.y.mul(self.end.x))
    }
}

} // verus!
