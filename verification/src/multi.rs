use vstd::prelude::*;

use crate::coord_z::CoordZ;
use crate::line_string_z::LineStringZ;
use crate::point_z::PointZ;
use crate::polygon_z::PolygonZ;
use crate::polygon_z::PolygonZView;

verus! {

/// An ordered, possibly empty collection of points.  Order is significant
/// and preserved through every conversion.
#[derive(Clone, PartialEq, Debug)]
pub struct MultiPointZ<T>(pub Vec<PointZ<T>>);

impl<T> View for MultiPointZ<T> {
    type V = Seq<PointZ<T>>;

    open spec fn view(&self) -> Seq<PointZ<T>> {
        self.0@
    }
}

impl<T> MultiPointZ<T> {
    /// The collection over the given points, in order.
    pub fn new(points: Vec<PointZ<T>>) -> (r: Self)
        ensures
            r@ == points@,
    {
        MultiPointZ(points)
    }

    /// The empty collection.
    pub fn empty() -> (r: Self)
        ensures
            r@ == Seq::<PointZ<T>>::empty(),
    {
        MultiPointZ(Vec::new())
    }

    /// How many points the collection holds.
    pub fn len(&self) -> (r: usize)
        ensures
            r == self@.len(),
    {
        self.0.len()
    }

    /// Whether the collection holds no point.
    pub fn is_empty(&self) -> (r: bool)
        ensures
            r == (self@.len() == 0),
    {
        self.0.len() == 0
    }
}

impl<T: Copy> MultiPointZ<T> {
    /// The point at the given index.
    pub fn get(&self, i: usize) -> (r: PointZ<T>)
        requires
            i < self@.len(),
        ensures
            r == self@[i as int],
    {
        self.0[i]
    }
}

/// An ordered, possibly empty collection of line strings.
#[derive(Clone, PartialEq, Debug)]
pub struct MultiLineStringZ<T>(pub Vec<LineStringZ<T>>);

impl<T> View for MultiLineStringZ<T> {
    type V = Seq<Seq<CoordZ<T>>>;

    open spec fn view(&self) -> Seq<Seq<CoordZ<T>>> {
        Seq::new(self.0@.len(), |i: int| self.0@[i]@)
    }
}

impl<T> MultiLineStringZ<T> {
    /// The collection over the given line strings, in order.
    pub fn new(line_strings: Vec<LineStringZ<T>>) -> (r: Self)
        ensures
            r@ == Seq::new(line_strings@.len(), |i: int| line_strings@[i]@),
    {
        MultiLineStringZ(line_strings)
    }

    /// The empty collection.
    pub fn empty() -> (r: Self)
        ensures
            r@ == Seq::<Seq<CoordZ<T>>>::empty(),
    {
        let r = MultiLineStringZ(Vec::new());
        proof {
            assert(r@ =~= Seq::<Seq<CoordZ<T>>>::empty());
        }
        r
    }

    /// How many line strings the collection holds.
    pub fn len(&self) -> (r: usize)
        ensures
            r == self@.len(),
    {
        self.0.len()
    }

    /// Whether the collection holds no line string.
    pub fn is_empty(&self) -> (r: bool)
        ensures
            r == (self@.len() == 0),
    {
        self.0.len() == 0
    }
}

/// An ordered, possibly empty collection of polygons.
#[derive(Clone, PartialEq, Debug)]
pub struct MultiPolygonZ<T>(pub Vec<PolygonZ<T>>);

impl<T> View for MultiPolygonZ<T> {
    type V = Seq<PolygonZView<T>>;

    open spec fn view(&self) -> Seq<PolygonZView<T>> {
        Seq::new(self.0@.len(), |i: int| self.0@[i]@)
    }
}

impl<T> MultiPolygonZ<T> {
    /// The collection over the given polygons, in order.
    pub fn new(polygons: Vec<PolygonZ<T>>) -> (r: Self)
        ensures
            r@ == Seq::new(polygons@.len(), |i: int| polygons@[i]@),
    {
        MultiPolygonZ(polygons)
    }

    /// The empty collection.
    pub fn empty() -> (r: Self)
        ensures
            r@ == Seq::<PolygonZView<T>>::empty(),
    {
        let r = MultiPolygonZ(Vec::new());
        proof {
            assert(r@ =~= Seq::<PolygonZView<T>>::empty());
        }
        r
    }

    /// How many polygons the collection holds.
    pub fn len(&self) -> (r: usize)
        ensures
            r == self@.len(),
    {
        self.0.len()
    }

    /// Whether the collection holds no polygon.
    pub fn is_empty(&self) -> (r: bool)
        ensures
            r == (self@.len() == 0),
    {
        self.0.len() == 0
    }
}

} // verus!
