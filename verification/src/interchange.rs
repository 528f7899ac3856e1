use vstd::prelude::*;

use crate::error::ValueKind;

verus! {

/// An interchange geometry value: the JSON-like exchange shape.  A
/// position is a run of ordinates (two or three of them in well-formed
/// data); the nesting of the other variants follows the interchange
/// format.  The scalar type is generic; turning ordinates into 64-bit
/// floats is the business of the unverified boundary around this library.
#[derive(PartialEq, Debug)]
pub enum Value<T> {
    Point(Vec<T>),
    MultiPoint(Vec<Vec<T>>),
    LineString(Vec<Vec<T>>),
    MultiLineString(Vec<Vec<Vec<T>>>),
    Polygon(Vec<Vec<Vec<T>>>),
    MultiPolygon(Vec<Vec<Vec<Vec<T>>>>),
    GeometryCollection(Vec<Value<T>>),
}

/// The mathematical shape of an interchange value.
#[verifier::ext_equal]
pub enum ValueView<T> {
    Point(Seq<T>),
    MultiPoint(Seq<Seq<T>>),
    LineString(Seq<Seq<T>>),
    MultiLineString(Seq<Seq<Seq<T>>>),
    Polygon(Seq<Seq<Seq<T>>>),
    MultiPolygon(Seq<Seq<Seq<Seq<T>>>>),
    GeometryCollection(Seq<ValueView<T>>),
}

/// The shape of a list of positions.
pub open spec fn positions_view<T>(v: Seq<Vec<T>>) -> Seq<Seq<T>> {
    Seq::new(v.len(), |i: int| v[i]@)
}

/// The shape of a list of rings (or of line strings).
pub open spec fn rings_view<T>(v: Seq<Vec<Vec<T>>>) -> Seq<Seq<Seq<T>>> {
    Seq::new(v.len(), |i: int| positions_view(v[i]@))
}

/// The shape of a list of ring lists.
pub open spec fn polygons_view<T>(v: Seq<Vec<Vec<Vec<T>>>>) -> Seq<Seq<Seq<Seq<T>>>> {
    Seq::new(v.len(), |i: int| rings_view(v[i]@))
}

/// The shape of an interchange value.
pub open spec fn value_view<T>(v: Value<T>) -> ValueView<T>
    decreases v,
{
    match v {
        Value::Point(p) => ValueView::Point(p@),
        Value::MultiPoint(ps) => ValueView::MultiPoint(positions_view(ps@)),
        Value::LineString(ps) => ValueView::LineString(positions_view(ps@)),
        Value::MultiLineString(ls) => ValueView::MultiLineString(rings_view(ls@)),
        Value::Polygon(rs) => ValueView::Polygon(rings_view(rs@)),
        Value::MultiPolygon(ms) => ValueView::MultiPolygon(polygons_view(ms@)),
        Value::GeometryCollection(gs) => ValueView::GeometryCollection(value_seq_view(gs@)),
    }
}

/// The shapes of an ordered run of interchange values, in order.
pub open spec fn value_seq_view<T>(s: Seq<Value<T>>) -> Seq<ValueView<T>>
    decreases s,
{
    if s.len() == 0 {
        Seq::empty()
    } else {
        value_seq_view(s.drop_last()).push(value_view(s.last()))
    }
}

/// Unrolls the shape of a run of interchange values one element at a time.
pub proof fn lemma_value_seq_view<T>(s: Seq<Value<T>>)
    ensures
        value_seq_view(s).len() == s.len(),
        forall|i: int| 0 <= i < s.len() ==> value_seq_view(s)[i] == value_view(s[i]),
    decreases s,
{
    if s.len() > 0 {
        lemma_value_seq_view(s.drop_last());
    }
}

impl<T> View for Value<T> {
    type V = ValueView<T>;

    open spec fn view(&self) -> ValueView<T> {
        value_view(*self)
    }
}

impl<T> ValueView<T> {
    /// The kind tag this shape declares.
    pub open spec fn kind_spec(self) -> ValueKind {
        match self {
            ValueView::Point(_) => ValueKind::Point,
            ValueView::MultiPoint(_) => ValueKind::MultiPoint,
            ValueView::LineString(_) => ValueKind::LineString,
            ValueView::MultiLineString(_) => ValueKind::MultiLineString,
            ValueView::Polygon(_) => ValueKind::Polygon,
            ValueView::MultiPolygon(_) => ValueKind::MultiPolygon,
            ValueView::GeometryCollection(_) => ValueKind::GeometryCollection,
        }
    }
}

impl<T> Value<T> {
    /// The kind tag this value declares.
    pub fn kind(&self) -> (k: ValueKind)
        ensures
            k == self@.kind_spec(),
    {
        match self {
            Value::Point(_) => ValueKind::Point,
            Value::MultiPoint(_) => ValueKind::MultiPoint,
            Value::LineString(_) => ValueKind::LineString,
            Value::MultiLineString(_) => ValueKind::MultiLineString,
            Value::Polygon(_) => ValueKind::Polygon,
            Value::MultiPolygon(_) => ValueKind::MultiPolygon,
            Value::GeometryCollection(_) => ValueKind::GeometryCollection,
        }
    }
}

/// One feature of an interchange document: a geometry that may be absent.
/// Properties carry no geometric meaning and are not modelled.
#[derive(PartialEq, Debug)]
pub struct Feature<T> {
    pub geometry: Option<Value<T>>,
}

/// The mathematical shape of a feature.
#[verifier::ext_equal]
pub struct FeatureView<T> {
    pub geometry: Option<ValueView<T>>,
}

impl<T> View for Feature<T> {
    type V = FeatureView<T>;

    open spec fn view(&self) -> FeatureView<T> {
        FeatureView {
            geometry: match self.geometry {
                Option::Some(v) => Option::Some(value_view(v)),
                Option::None => Option::None,
            },
        }
    }
}

/// The shapes of an ordered run of features, in order.
pub open spec fn feature_seq_view<T>(s: Seq<Feature<T>>) -> Seq<FeatureView<T>>
    decreases s,
{
    if s.len() == 0 {
        Seq::empty()
    } else {
        feature_seq_view(s.drop_last()).push(s.last()@)
    }
}

/// Unrolls the shape of a run of features one element at a time.
pub proof fn lemma_feature_seq_view<T>(s: Seq<Feature<T>>)
    ensures
        feature_seq_view(s).len() == s.len(),
        forall|i: int| 0 <= i < s.len() ==> feature_seq_view(s)[i] == s[i]@,
    decreases s,
{
    if s.len() > 0 {
        lemma_feature_seq_view(s.drop_last());
    }
}

/// A whole interchange document: a bare geometry value, a single feature,
/// or a feature collection.
#[derive(PartialEq, Debug)]
pub enum GeoJson<T> {
    Geometry(Value<T>),
    Feature(Feature<T>),
    FeatureCollection(Vec<Feature<T>>),
}

/// The mathematical shape of an interchange document.
#[verifier::ext_equal]
pub enum GeoJsonView<T> {
    Geometry(ValueView<T>),
    Feature(FeatureView<T>),
    FeatureCollection(Seq<FeatureView<T>>),
}

impl<T> View for GeoJson<T> {
    type V = GeoJsonView<T>;

    open spec fn view(&self) -> GeoJsonView<T> {
        match self {
            GeoJson::Geometry(v) => GeoJsonView::Geometry(value_view(*v)),
            GeoJson::Feature(f) => GeoJsonView::Feature(f@),
            GeoJson::FeatureCollection(fs) => GeoJsonView::FeatureCollection(
                feature_seq_view(fs@),
            ),
        }
    }
}

} // verus!
