use vstd::prelude::*;

use crate::coord_z::CoordZ;
use crate::error::Error;
use crate::error::GeometryKind;
use crate::line_string_z::LineStringZ;
use crate::line_z::LineZ;
use crate::multi::MultiLineStringZ;
use crate::multi::MultiPointZ;
use crate::multi::MultiPolygonZ;
use crate::point_z::PointZ;
use crate::polygon_z::PolygonZ;
use crate::polygon_z::PolygonZView;
use crate::two_d::Coord;
use crate::two_d::Line;
use crate::two_d::LineString;
use crate::two_d::MultiLineString;
use crate::two_d::MultiPoint;
use crate::two_d::MultiPolygon;
use crate::two_d::Point;
use crate::two_d::Polygon;
use crate::two_d::PolygonView;
use crate::two_d::Rect;

verus! {

/// The closed variant set over every geometry this library models: the
/// three-axis entities, their legacy two-axis counterparts kept for
/// interoperability, the axis-aligned box, and the recursive heterogeneous
/// collection.
#[derive(PartialEq, Debug)]
pub enum Geometry<T> {
    Point(Point<T>),
    PointZ(PointZ<T>),
    Line(Line<T>),
    LineZ(LineZ<T>),
    LineString(LineString<T>),
    LineStringZ(LineStringZ<T>),
    Polygon(Polygon<T>),
    PolygonZ(PolygonZ<T>),
    MultiPoint(MultiPoint<T>),
    MultiPointZ(MultiPointZ<T>),
    MultiLineString(MultiLineString<T>),
    MultiLineStringZ(MultiLineStringZ<T>),
    MultiPolygon(MultiPolygon<T>),
    MultiPolygonZ(MultiPolygonZ<T>),
    GeometryCollection(GeometryCollection<T>),
    Rect(Rect<T>),
}

/// An ordered, possibly empty collection of geometries of any variant,
/// itself a geometry.
#[derive(PartialEq, Debug)]
pub struct GeometryCollection<T>(pub Vec<Geometry<T>>);

/// The mathematical shape of a geometry, with every ordered run of values
/// as a sequence.
#[verifier::ext_equal]
pub enum GeometryView<T> {
    Point(Point<T>),
    PointZ(PointZ<T>),
    Line(Line<T>),
    LineZ(LineZ<T>),
    LineString(Seq<Coord<T>>),
    LineStringZ(Seq<CoordZ<T>>),
    Polygon(PolygonView<T>),
    PolygonZ(PolygonZView<T>),
    MultiPoint(Seq<Point<T>>),
    MultiPointZ(Seq<PointZ<T>>),
    MultiLineString(Seq<Seq<Coord<T>>>),
    MultiLineStringZ(Seq<Seq<CoordZ<T>>>),
    MultiPolygon(Seq<PolygonView<T>>),
    MultiPolygonZ(Seq<PolygonZView<T>>),
    GeometryCollection(Seq<GeometryView<T>>),
    Rect(Rect<T>),
}

/// The shape of a geometry value.
pub open spec fn geometry_view<T>(g: Geometry<T>) -> GeometryView<T>
    decreases g,
{
    match g {
        Geometry::Point(p) => GeometryView::Point(p),
        Geometry::PointZ(p) => GeometryView::PointZ(p),
        Geometry::Line(l) => GeometryView::Line(l),
        Geometry::LineZ(l) => GeometryView::LineZ(l),
        Geometry::LineString(ls) => GeometryView::LineString(ls@),
        Geometry::LineStringZ(ls) => GeometryView::LineStringZ(ls@),
        Geometry::Polygon(p) => GeometryView::Polygon(p@),
        Geometry::PolygonZ(p) => GeometryView::PolygonZ(p@),
        Geometry::MultiPoint(mp) => GeometryView::MultiPoint(mp@),
        Geometry::MultiPointZ(mp) => GeometryView::MultiPointZ(mp@),
        Geometry::MultiLineString(mls) => GeometryView::MultiLineString(mls@),
        Geometry::MultiLineStringZ(mls) => GeometryView::MultiLineStringZ(mls@),
        Geometry::MultiPolygon(mp) => GeometryView::MultiPolygon(mp@),
        Geometry::MultiPolygonZ(mp) => GeometryView::MultiPolygonZ(mp@),
        Geometry::GeometryCollection(gc) => GeometryView::GeometryCollection(
            geometry_seq_view(gc.0@),
        ),
        Geometry::Rect(r) => GeometryView::Rect(r),
    }
}

/// The shapes of an ordered run of geometries, in order.
pub open spec fn geometry_seq_view<T>(s: Seq<Geometry<T>>) -> Seq<GeometryView<T>>
    decreases s,
{
    if s.len() == 0 {
        Seq::empty()
    } else {
        geometry_seq_view(s.drop_last()).push(geometry_view(s.last()))
    }
}

impl<T> View for Geometry<T> {
    type V = GeometryView<T>;

    open spec fn view(&self) -> GeometryView<T> {
        geometry_view(*self)
    }
}

impl<T> View for GeometryCollection<T> {
    type V = Seq<GeometryView<T>>;

    open spec fn view(&self) -> Seq<GeometryView<T>> {
        geometry_seq_view(self.0@)
    }
}

/// Unrolls the shape of a run of geometries one element at a time.
pub proof fn lemma_geometry_seq_view<T>(s: Seq<Geometry<T>>)
    ensures
        geometry_seq_view(s).len() == s.len(),
        forall|i: int|
            0 <= i < s.len() ==> geometry_seq_view(s)[i] == geometry_view(s[i]),
    decreases s,
{
    if s.len() > 0 {
        lemma_geometry_seq_view(s.drop_last());
    }
}

impl<T> GeometryView<T> {
    /// The identifier of the variant this shape holds.
    pub open spec fn kind_spec(self) -> GeometryKind {
        match self {
            GeometryView::Point(_) => GeometryKind::Point,
            GeometryView::PointZ(_) => GeometryKind::PointZ,
            GeometryView::Line(_) => GeometryKind::Line,
            GeometryView::LineZ(_) => GeometryKind::LineZ,
            GeometryView::LineString(_) => GeometryKind::LineString,
            GeometryView::LineStringZ(_) => GeometryKind::LineStringZ,
            GeometryView::Polygon(_) => GeometryKind::Polygon,
            GeometryView::PolygonZ(_) => GeometryKind::PolygonZ,
            GeometryView::MultiPoint(_) => GeometryKind::MultiPoint,
            GeometryView::MultiPointZ(_) => GeometryKind::MultiPointZ,
            GeometryView::MultiLineString(_) => GeometryKind::MultiLineString,
            GeometryView::MultiLineStringZ(_) => GeometryKind::MultiLineStringZ,
            GeometryView::MultiPolygon(_) => GeometryKind::MultiPolygon,
            GeometryView::MultiPolygonZ(_) => GeometryKind::MultiPolygonZ,
            GeometryView::GeometryCollection(_) => GeometryKind::GeometryCollection,
            GeometryView::Rect(_) => GeometryKind::Rect,
        }
    }
}

impl<T> Geometry<T> {
    /// The identifier of the variant this geometry holds.
    pub fn kind(&self) -> (k: GeometryKind)
        ensures
            k == self@.kind_spec(),
    {
        match self {
            Geometry::Point(_) => GeometryKind::Point,
            Geometry::PointZ(_) => GeometryKind::PointZ,
            Geometry::Line(_) => GeometryKind::Line,
            Geometry::LineZ(_) => GeometryKind::LineZ,
            Geometry::LineString(_) => GeometryKind::LineString,
            Geometry::LineStringZ(_) => GeometryKind::LineStringZ,
            Geometry::Polygon(_) => GeometryKind::Polygon,
            Geometry::PolygonZ(_) => GeometryKind::PolygonZ,
            Geometry::MultiPoint(_) => GeometryKind::MultiPoint,
            Geometry::MultiPointZ(_) => GeometryKind::MultiPointZ,
            Geometry::MultiLineString(_) => GeometryKind::MultiLineString,
            Geometry::MultiLineStringZ(_) => GeometryKind::MultiLineStringZ,
            Geometry::MultiPolygon(_) => GeometryKind::MultiPolygon,
            Geometry::MultiPolygonZ(_) => GeometryKind::MultiPolygonZ,
            Geometry::GeometryCollection(_) => GeometryKind::GeometryCollection,
            Geometry::Rect(_) => GeometryKind::Rect,
        }
    }

    /// The point this geometry holds, if it holds the `PointZ` variant.
    pub fn into_point(self) -> (r: Option<PointZ<T>>)
        ensures
            match r {
                Some(p) => self@ == GeometryView::PointZ(p),
                None => !(self@ is PointZ),
            },
    {
        if let Geometry::PointZ(p) = self {
            Some(p)
        } else {
            None
        }
    }

    /// The line string this geometry holds, if it holds the `LineStringZ`
    /// variant.
    pub fn into_line_string(self) -> (r: Option<LineStringZ<T>>)
        ensures
            match r {
                Some(ls) => self@ == GeometryView::LineStringZ(ls@),
                None => !(self@ is LineStringZ),
            },
    {
        if let Geometry::LineStringZ(ls) = self {
            Some(ls)
        } else {
            None
        }
    }

    /// The two-axis line this geometry holds, if it holds the `Line`
    /// variant.
    pub fn into_line(self) -> (r: Option<Line<T>>)
        ensures
            match r {
                Some(l) => self@ == GeometryView::Line(l),
                None => !(self@ is Line),
            },
    {
        if let Geometry::Line(l) = self {
            Some(l)
        } else {
            None
        }
    }

    /// The polygon this geometry holds, if it holds the `PolygonZ` variant.
    pub fn into_polygon(self) -> (r: Option<PolygonZ<T>>)
        ensures
            match r {
                Some(p) => self@ == GeometryView::PolygonZ(p@),
                None => !(self@ is PolygonZ),
            },
    {
        if let Geometry::PolygonZ(p) = self {
            Some(p)
        } else {
            None
        }
    }

    /// The multi-point this geometry holds, if it holds the `MultiPointZ`
    /// variant.
    pub fn into_multi_point(self) -> (r: Option<MultiPointZ<T>>)
        ensures
            match r {
                Some(mp) => self@ == GeometryView::MultiPointZ(mp@),
                None => !(self@ is MultiPointZ),
            },
    {
        if let Geometry::MultiPointZ(mp) = self {
            Some(mp)
        } else {
            None
        }
    }

    /// The multi-line-string this geometry holds, if it holds the
    /// `MultiLineStringZ` variant.
    pub fn into_multi_line_string(self) -> (r: Option<MultiLineStringZ<T>>)
        ensures
            match r {
                Some(mls) => self@ == GeometryView::MultiLineStringZ(mls@),
                None => !(self@ is MultiLineStringZ),
            },
    {
        if let Geometry::MultiLineStringZ(mls) = self {
            Some(mls)
        } else {
            None
        }
    }

    /// The multi-polygon this geometry holds, if it holds the
    /// `MultiPolygonZ` variant.
    pub fn into_multi_polygon(self) -> (r: Option<MultiPolygonZ<T>>)
        ensures
            match r {
                Some(mp) => self@ == GeometryView::MultiPolygonZ(mp@),
                None => !(self@ is MultiPolygonZ),
            },
    {
        if let Geometry::MultiPolygonZ(mp) = self {
            Some(mp)
        } else {
            None
        }
    }
}

impl<T> GeometryCollection<T> {
    /// The collection over the given geometries, in order.
    pub fn new(geometries: Vec<Geometry<T>>) -> (r: Self)
        ensures
            r@ == geometry_seq_view(geometries@),
    {
        GeometryCollection(geometries)
    }

    /// The empty collection.
    pub fn empty() -> (r: Self)
        ensures
            r@ == Seq::<GeometryView<T>>::empty(),
    {
        GeometryCollection(Vec::new())
    }

    /// How many geometries the collection holds.
    pub fn len(&self) -> (r: usize)
        ensures
            r == self@.len(),
    {
        proof {
            lemma_geometry_seq_view(self.0@);
        }
        self.0.len()
    }

    /// Whether the collection holds no geometry.
    pub fn is_empty(&self) -> (r: bool)
        ensures
            r == (self@.len() == 0),
    {
        proof {
            lemma_geometry_seq_view(self.0@);
        }
        self.0.len() == 0
    }
}

impl<T> Default for GeometryCollection<T> {
    /// The empty collection.
    fn default() -> (r: Self)
        ensures
            r@ == Seq::<GeometryView<T>>::empty(),
    {
        GeometryCollection(Vec::new())
    }
}


/// What downcasting a geometry to the point variant yields.
pub open spec fn point_z_downcast_spec<T>(g: GeometryView<T>) -> Result<PointZ<T>, Error> {
    match g {
        GeometryView::PointZ(p) => Ok(p),
        _ => Err(Error::MismatchedGeometry { expected: GeometryKind::PointZ, found: g.kind_spec() }),
    }
}

/// What downcasting a geometry to the two-axis line variant yields.
pub open spec fn line_downcast_spec<T>(g: GeometryView<T>) -> Result<Line<T>, Error> {
    match g {
        GeometryView::Line(l) => Ok(l),
        _ => Err(Error::MismatchedGeometry { expected: GeometryKind::Line, found: g.kind_spec() }),
    }
}

/// What downcasting a geometry to the line string variant yields.
pub open spec fn line_string_z_downcast_spec<T>(g: GeometryView<T>) -> Result<
    Seq<CoordZ<T>>,
    Error,
> {
    match g {
        GeometryView::LineStringZ(s) => Ok(s),
        _ => Err(
            Error::MismatchedGeometry {
                expected: GeometryKind::LineStringZ,
                found: g.kind_spec(),
            },
        ),
    }
}

/// What downcasting a geometry to the polygon variant yields.
pub open spec fn polygon_z_downcast_spec<T>(g: GeometryView<T>) -> Result<
    PolygonZView<T>,
    Error,
> {
    match g {
        GeometryView::PolygonZ(p) => Ok(p),
        _ => Err(
            Error::MismatchedGeometry { expected: GeometryKind::PolygonZ, found: g.kind_spec() },
        ),
    }
}

/// What downcasting a geometry to the multi-point variant yields.
pub open spec fn multi_point_z_downcast_spec<T>(g: GeometryView<T>) -> Result<
    Seq<PointZ<T>>,
    Error,
> {
    match g {
        GeometryView::MultiPointZ(s) => Ok(s),
        _ => Err(
            Error::MismatchedGeometry {
                expected: GeometryKind::MultiPointZ,
                found: g.kind_spec(),
            },
        ),
    }
}

/// What downcasting a geometry to the multi-line-string variant yields.
pub open spec fn multi_line_string_z_downcast_spec<T>(g: GeometryView<T>) -> Result<
    Seq<Seq<CoordZ<T>>>,
    Error,
> {
    match g {
        GeometryView::MultiLineStringZ(s) => Ok(s),
        _ => Err(
            Error::MismatchedGeometry {
                expected: GeometryKind::MultiLineStringZ,
                found: g.kind_spec(),
            },
        ),
    }
}

/// What downcasting a geometry to the multi-polygon variant yields.
pub open spec fn multi_polygon_z_downcast_spec<T>(g: GeometryView<T>) -> Result<
    Seq<PolygonZView<T>>,
    Error,
> {
    match g {
        GeometryView::MultiPolygonZ(s) => Ok(s),
        _ => Err(
            Error::MismatchedGeometry {
                expected: GeometryKind::MultiPolygonZ,
                found: g.kind_spec(),
            },
        ),
    }
}

/// Law: downcasting a geometry into a variant it does not hold always
/// fails, and the error names the requested variant and the variant the
/// geometry actually holds — for every pair of distinct variants.
pub proof fn lemma_downcast_mismatch<T>(g: GeometryView<T>)
    ensures
        !(g is PointZ) ==> point_z_downcast_spec(g) == Err::<PointZ<T>, Error>(
            Error::MismatchedGeometry { expected: GeometryKind::PointZ, found: g.kind_spec() },
        ),
        !(g is Line) ==> line_downcast_spec(g) == Err::<Line<T>, Error>(
            Error::MismatchedGeometry { expected: GeometryKind::Line, found: g.kind_spec() },
        ),
        !(g is LineStringZ) ==> line_string_z_downcast_spec(g) == Err::<Seq<CoordZ<T>>, Error>(
            Error::MismatchedGeometry {
                expected: GeometryKind::LineStringZ,
                found: g.kind_spec(),
            },
        ),
        !(g is PolygonZ) ==> polygon_z_downcast_spec(g) == Err::<PolygonZView<T>, Error>(
            Error::MismatchedGeometry { expected: GeometryKind::PolygonZ, found: g.kind_spec() },
        ),
        !(g is MultiPointZ) ==> multi_point_z_downcast_spec(g) == Err::<Seq<PointZ<T>>, Error>(
            Error::MismatchedGeometry {
                expected: GeometryKind::MultiPointZ,
                found: g.kind_spec(),
            },
        ),
        !(g is MultiLineStringZ) ==> multi_line_string_z_downcast_spec(g) == Err::<
            Seq<Seq<CoordZ<T>>>,
            Error,
        >(
            Error::MismatchedGeometry {
                expected: GeometryKind::MultiLineStringZ,
                found: g.kind_spec(),
            },
        ),
        !(g is MultiPolygonZ) ==> multi_polygon_z_downcast_spec(g) == Err::<
            Seq<PolygonZView<T>>,
            Error,
        >(
            Error::MismatchedGeometry {
                expected: GeometryKind::MultiPolygonZ,
                found: g.kind_spec(),
            },
        ),
{
}

impl<T> PointZ<T> {
    /// Downcast: the point a geometry holds.  Fails, naming both variants,
    /// whenever the geometry holds any other variant.
    pub fn try_from_geometry(g: Geometry<T>) -> (r: Result<Self, Error>)
        ensures
            r == point_z_downcast_spec(g@),
    {
        match g {
            Geometry::PointZ(p) => Ok(p),
            other => Err(
                Error::MismatchedGeometry {
                    expected: GeometryKind::PointZ,
                    found: other.kind(),
                },
            ),
        }
    }
}

impl<T> Line<T> {
    /// Downcast: the two-axis line a geometry holds.  Fails, naming both
    /// variants, whenever the geometry holds any other variant.
    pub fn try_from_geometry(g: Geometry<T>) -> (r: Result<Self, Error>)
        ensures
            r == line_downcast_spec(g@),
    {
        match g {
            Geometry::Line(l) => Ok(l),
            other => Err(
                Error::MismatchedGeometry { expected: GeometryKind::Line, found: other.kind() },
            ),
        }
    }
}

impl<T> LineStringZ<T> {
    /// Downcast: the line string a geometry holds.  Fails, naming both
    /// variants, whenever the geometry holds any other variant.
    pub fn try_from_geometry(g: Geometry<T>) -> (r: Result<Self, Error>)
        ensures
            match r {
                Ok(ls) => line_string_z_downcast_spec(g@) == Ok::<_, Error>(ls@),
                Err(e) => line_string_z_downcast_spec(g@) == Err::<Seq<CoordZ<T>>, Error>(e),
            },
    {
        match g {
            Geometry::LineStringZ(ls) => Ok(ls),
            other => Err(
                Error::MismatchedGeometry {
                    expected: GeometryKind::LineStringZ,
                    found: other.kind(),
                },
            ),
        }
    }
}

impl<T> PolygonZ<T> {
    /// Downcast: the polygon a geometry holds.  Fails, naming both
    /// variants, whenever the geometry holds any other variant.
    pub fn try_from_geometry(g: Geometry<T>) -> (r: Result<Self, Error>)
        ensures
            match r {
                Ok(p) => polygon_z_downcast_spec(g@) == Ok::<_, Error>(p@),
                Err(e) => polygon_z_downcast_spec(g@) == Err::<PolygonZView<T>, Error>(e),
            },
    {
        match g {
            Geometry::PolygonZ(p) => Ok(p),
            other => Err(
                Error::MismatchedGeometry {
                    expected: GeometryKind::PolygonZ,
                    found: other.kind(),
                },
            ),
        }
    }
}

impl<T> MultiPointZ<T> {
    /// Downcast: the multi-point a geometry holds.  Fails, naming both
    /// variants, whenever the geometry holds any other variant.
    pub fn try_from_geometry(g: Geometry<T>) -> (r: Result<Self, Error>)
        ensures
            match r {
                Ok(mp) => multi_point_z_downcast_spec(g@) == Ok::<_, Error>(mp@),
                Err(e) => multi_point_z_downcast_spec(g@) == Err::<Seq<PointZ<T>>, Error>(e),
            },
    {
        match g {
            Geometry::MultiPointZ(mp) => Ok(mp),
            other => Err(
                Error::MismatchedGeometry {
                    expected: GeometryKind::MultiPointZ,
                    found: other.kind(),
                },
            ),
        }
    }
}

impl<T> MultiLineStringZ<T> {
    /// Downcast: the multi-line-string a geometry holds.  Fails, naming
    /// both variants, whenever the geometry holds any other variant.
    pub fn try_from_geometry(g: Geometry<T>) -> (r: Result<Self, Error>)
        ensures
            match r {
                Ok(mls) => multi_line_string_z_downcast_spec(g@) == Ok::<_, Error>(mls@),
                Err(e) => multi_line_string_z_downcast_spec(g@) == Err::<
                    Seq<Seq<CoordZ<T>>>,
                    Error,
                >(e),
            },
    {
        match g {
            Geometry::MultiLineStringZ(mls) => Ok(mls),
            other => Err(
                Error::MismatchedGeometry {
                    expected: GeometryKind::MultiLineStringZ,
                    found: other.kind(),
                },
            ),
        }
    }
}

impl<T> MultiPolygonZ<T> {
    /// Downcast: the multi-polygon a geometry holds.  Fails, naming both
    /// variants, whenever the geometry holds any other variant.
    pub fn try_from_geometry(g: Geometry<T>) -> (r: Result<Self, Error>)
        ensures
            match r {
                Ok(mp) => multi_polygon_z_downcast_spec(g@) == Ok::<_, Error>(mp@),
                Err(e) => multi_polygon_z_downcast_spec(g@) == Err::<
                    Seq<PolygonZView<T>>,
                    Error,
                >(e),
            },
    {
        match g {
            Geometry::MultiPolygonZ(mp) => Ok(mp),
            other => Err(
                Error::MismatchedGeometry {
                    expected: GeometryKind::MultiPolygonZ,
                    found: other.kind(),
                },
            ),
        }
    }
}

} // verus!
