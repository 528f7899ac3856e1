use vstd::prelude::*;

verus! {

/// A single location on the two-axis Cartesian plane.  The two-axis types
/// in this module are the legacy counterparts of the three-axis entities,
/// kept for interoperability with two-axis producers and consumers.
#[derive(Clone, Copy, PartialEq, Debug)]
pub struct Coord<T> {
    pub x: T,
    pub y: T,
}

/// A single two-axis point.
#[derive(Clone, Copy, PartialEq, Debug)]
pub struct Point<T>(pub Coord<T>);

/// A two-axis line segment between two coordinates.
#[derive(Clone, Copy, PartialEq, Debug)]
pub struct Line<T> {
    pub start: Coord<T>,
    pub end: Coord<T>,
}

/// An ordered run of two-axis coordinates.
#[derive(Clone, PartialEq, Debug)]
pub struct LineString<T>(pub Vec<Coord<T>>);

impl<T> View for LineString<T> {
    type V = Seq<Coord<T>>;

    open spec fn view(&self) -> Seq<Coord<T>> {
        self.0@
    }
}

/// A two-axis polygon: an exterior ring and interior rings.
#[derive(Clone, PartialEq, Debug)]
pub struct Polygon<T> {
    pub exterior: LineString<T>,
    pub interiors: Vec<LineString<T>>,
}

/// The mathematical shape of a two-axis polygon.
#[verifier::ext_equal]
pub struct PolygonView<T> {
    pub exterior: Seq<Coord<T>>,
    pub interiors: Seq<Seq<Coord<T>>>,
}

impl<T> View for Polygon<T> {
    type V = PolygonView<T>;

    open spec fn view(&self) -> PolygonView<T> {
        PolygonView {
            exterior: self.exterior@,
            interiors: Seq::new(self.interiors@.len(), |i: int| self.interiors@[i]@),
        }
    }
}

/// An ordered collection of two-axis points.
#[derive(Clone, PartialEq, Debug)]
pub struct MultiPoint<T>(pub Vec<Point<T>>);

impl<T> View for MultiPoint<T> {
    type V = Seq<Point<T>>;

    open spec fn view(&self) -> Seq<Point<T>> {
        self.0@
    }
}

/// An ordered collection of two-axis line strings.
#[derive(Clone, PartialEq, Debug)]
pub struct MultiLineString<T>(pub Vec<LineString<T>>);

impl<T> View for MultiLineString<T> {
    type V = Seq<Seq<Coord<T>>>;

    open spec fn view(&self) -> Seq<Seq<Coord<T>>> {
        Seq::new(self.0@.len(), |i: int| self.0@[i]@)
    }
}

/// An ordered collection of two-axis polygons.
#[derive(Clone, PartialEq, Debug)]
pub struct MultiPolygon<T>(pub Vec<Polygon<T>>);

impl<T> View for MultiPolygon<T> {
    type V = Seq<PolygonView<T>>;

    open spec fn view(&self) -> Seq<PolygonView<T>> {
        Seq::new(self.0@.len(), |i: int| self.0@[i]@)
    }
}

/// An axis-aligned two-axis box, held as its two corner coordinates.
#[derive(Clone, Copy, PartialEq, Debug)]
pub struct Rect<T> {
    pub min: Coord<T>,
    pub max: Coord<T>,
}

} // verus!
