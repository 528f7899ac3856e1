use vstd::prelude::*;

use crate::coord_z::CoordZ;
use crate::line_string_z::LineStringZ;
use crate::polygon_z::PolygonZ;

verus! {

/// A three-vertex shape.  It is a derived form: for exchange it becomes a
/// polygon whose single ring is the three vertices with the first one
/// appended again to close the ring.
#[derive(Clone, Copy, PartialEq, Debug)]
pub struct Triangle<T>(pub CoordZ<T>, pub CoordZ<T>, pub CoordZ<T>);

impl<T: Copy> Triangle<T> {
    /// The polygon form of the triangle: one explicitly closed ring, no
    /// interiors.
    pub fn to_polygon(&self) -> (r: PolygonZ<T>)
        ensures
            r@.exterior == seq![self.0, self.1, self.2, self.0],
            r@.interiors == Seq::<Seq<CoordZ<T>>>::empty(),
    {
        let mut ring: Vec<CoordZ<T>> = Vec::new();
        ring.push(self.0);
        ring.push(self.1);
        ring.push(self.2);
        ring.push(self.0);
        proof {
            assert(ring@ =~= seq![self.0, self.1, self.2, self.0]);
        }
        let exterior = LineStringZ::new(ring);
        let mut rings: Vec<LineStringZ<T>> = Vec::new();
        rings.push(exterior);
        let r = PolygonZ::from_rings(rings);
        proof {
            assert(r@.interiors =~= Seq::<Seq<CoordZ<T>>>::empty());
        }
        r
    }
}

} // verus!
