use vstd::prelude::*;
use vstd::string::StringExecFns;

verus! {

/// Identifier of a `Geometry` variant, used by the downcast error so that a
/// failed downcast can name both the variant that was requested and the
/// variant that the value actually holds.
#[derive(Clone, Copy, PartialEq, Eq, Structural, Debug)]
pub enum GeometryKind {
    Point,
    PointZ,
    Line,
    LineZ,
    LineString,
    LineStringZ,
    Polygon,
    PolygonZ,
    MultiPoint,
    MultiPointZ,
    MultiLineString,
    MultiLineStringZ,
    MultiPolygon,
    MultiPolygonZ,
    GeometryCollection,
    Rect,
}

impl GeometryKind {
    pub open spec fn name_spec(self) -> Seq<char> {
        match self {
            GeometryKind::Point => "Point"@,
            GeometryKind::PointZ => "PointZ"@,
            GeometryKind::Line => "Line"@,
            GeometryKind::LineZ => "LineZ"@,
            GeometryKind::LineString => "LineString"@,
            GeometryKind::LineStringZ => "LineStringZ"@,
            GeometryKind::Polygon => "Polygon"@,
            GeometryKind::PolygonZ => "PolygonZ"@,
            GeometryKind::MultiPoint => "MultiPoint"@,
            GeometryKind::MultiPointZ => "MultiPointZ"@,
            GeometryKind::MultiLineString => "MultiLineString"@,
            GeometryKind::MultiLineStringZ => "MultiLineStringZ"@,
            GeometryKind::MultiPolygon => "MultiPolygon"@,
            GeometryKind::MultiPolygonZ => "MultiPolygonZ"@,
            GeometryKind::GeometryCollection => "GeometryCollection"@,
            GeometryKind::Rect => "Rect"@,
        }
    }

    /// The identifier under which this variant is reported in error messages.
    pub fn name(self) -> (r: &'static str)
        ensures
            r@ == self.name_spec(),
    {
        match self {
            GeometryKind::Point => "Point",
            GeometryKind::PointZ => "PointZ",
            GeometryKind::Line => "Line",
            GeometryKind::LineZ => "LineZ",
            GeometryKind::LineString => "LineString",
            GeometryKind::LineStringZ => "LineStringZ",
            GeometryKind::Polygon => "Polygon",
            GeometryKind::PolygonZ => "PolygonZ",
            GeometryKind::MultiPoint => "MultiPoint",
            GeometryKind::MultiPointZ => "MultiPointZ",
            GeometryKind::MultiLineString => "MultiLineString",
            GeometryKind::MultiLineStringZ => "MultiLineStringZ",
            GeometryKind::MultiPolygon => "MultiPolygon",
            GeometryKind::MultiPolygonZ => "MultiPolygonZ",
            GeometryKind::GeometryCollection => "GeometryCollection",
            GeometryKind::Rect => "Rect",
        }
    }
}

/// Kind tag of an interchange value, used by the import error so that a
/// rejected import can name both the kind that was requested and the kind
/// that the value declares.
#[derive(Clone, Copy, PartialEq, Eq, Structural, Debug)]
pub enum ValueKind {
    Point,
    MultiPoint,
    LineString,
    MultiLineString,
    Polygon,
    MultiPolygon,
    GeometryCollection,
}

impl ValueKind {
    pub open spec fn name_spec(self) -> Seq<char> {
        match self {
            ValueKind::Point => "Point"@,
            ValueKind::MultiPoint => "MultiPoint"@,
            ValueKind::LineString => "LineString"@,
            ValueKind::MultiLineString => "MultiLineString"@,
            ValueKind::Polygon => "Polygon"@,
            ValueKind::MultiPolygon => "MultiPolygon"@,
            ValueKind::GeometryCollection => "GeometryCollection"@,
        }
    }

    /// The kind tag's name as it appears in error messages.
    pub fn name(self) -> (r: &'static str)
        ensures
            r@ == self.name_spec(),
    {
        match self {
            ValueKind::Point => "Point",
            ValueKind::MultiPoint => "MultiPoint",
            ValueKind::LineString => "LineString",
            ValueKind::MultiLineString => "MultiLineString",
            ValueKind::Polygon => "Polygon",
            ValueKind::MultiPolygon => "MultiPolygon",
            ValueKind::GeometryCollection => "GeometryCollection",
        }
    }
}

/// Every failure of this library is one of these values.
///
/// - `MismatchedGeometry`: a downcast of a `Geometry` asked for a variant
///   that the value does not hold.
/// - `InvalidGeometryConversion`: an interchange value's kind tag does not
///   match the concrete type requested by an import.
/// - `FeatureHasNoGeometry`: a feature lacking geometry was imported where
///   geometry is mandatory.
/// - `MalformedPosition`: a position with fewer than three ordinates was
///   imported.  The third axis is mandatory here by design: a missing axis
///   is rejected rather than silently defaulted.
/// - `InvalidWkt`: a geometry literal violates the literal grammar
///   (including `POINT EMPTY`); `offset` is where reading stopped.
#[derive(Clone, Copy, PartialEq, Eq, Structural, Debug)]
pub enum Error {
    MismatchedGeometry { expected: GeometryKind, found: GeometryKind },
    InvalidGeometryConversion { expected_type: ValueKind, found_type: ValueKind },
    FeatureHasNoGeometry,
    MalformedPosition { length: usize },
    InvalidWkt { offset: usize },
}

impl Error {
    pub open spec fn message_spec(self) -> Seq<char> {
        match self {
            Error::MismatchedGeometry { expected, found } => "Expected a "@
                + expected.name_spec() + ", but found a "@ + found.name_spec(),
            Error::InvalidGeometryConversion { expected_type, found_type } => "Expected type: `"@
                + expected_type.name_spec() + "`, but found `"@ + found_type.name_spec() + "`"@,
            Error::FeatureHasNoGeometry => "Feature does not have a geometry"@,
            Error::MalformedPosition { length } => "A position needs three ordinates"@,
            Error::InvalidWkt { offset } => "Invalid geometry literal"@,
        }
    }

    /// The fixed display text of this error.
    pub fn message(&self) -> (r: String)
        ensures
            r@ == self.message_spec(),
    {
        match self {
            Error::MismatchedGeometry { expected, found } => {
                let mut s = String::new();
                s.append("Expected a ");
                s.append(expected.name());
                s.append(", but found a ");
                s.append(found.name());
                proof {
                    assert(s@ =~= self.message_spec());
                }
                s
            },
            Error::InvalidGeometryConversion { expected_type, found_type } => {
                let mut s = String::new();
                s.append("Expected type: `");
                s.append(expected_type.name());
                s.append("`, but found `");
                s.append(found_type.name());
                s.append("`");
                proof {
                    assert(s@ =~= self.message_spec());
                }
                s
            },
            Error::FeatureHasNoGeometry => {
                let mut s = String::new();
                s.append("Feature does not have a geometry");
                proof {
                    assert(s@ =~= self.message_spec());
                }
                s
            },
            Error::MalformedPosition { length: _ } => {
                let mut s = String::new();
                s.append("A position needs three ordinates");
                proof {
                    assert(s@ =~= self.message_spec());
                }
                s
            },
            Error::InvalidWkt { offset: _ } => {
                let mut s = String::new();
                s.append("Invalid geometry literal");
                proof {
                    assert(s@ =~= self.message_spec());
                }
                s
            },
        }
    }
}

} // verus!
