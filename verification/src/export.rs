use vstd::prelude::*;

use crate::coord_z::CoordZ;
use crate::geometry::geometry_seq_view;
use crate::geometry::lemma_geometry_seq_view;
use crate::geometry::Geometry;
use crate::geometry::GeometryCollection;
use crate::geometry::GeometryView;
use crate::interchange::lemma_feature_seq_view;
use crate::interchange::lemma_value_seq_view;
use crate::interchange::feature_seq_view;
use crate::interchange::polygons_view;
use crate::interchange::positions_view;
use crate::interchange::rings_view;
use crate::interchange::value_seq_view;
use crate::interchange::Feature;
use crate::interchange::FeatureView;
use crate::interchange::Value;
use crate::interchange::ValueView;
use crate::line_string_z::LineStringZ;
use crate::line_z::LineZ;
use crate::multi::MultiLineStringZ;
use crate::multi::MultiPointZ;
use crate::multi::MultiPolygonZ;
use crate::point_z::PointZ;
use crate::polygon_z::PolygonZ;
use crate::polygon_z::PolygonZView;
use crate::triangle::Triangle;
use crate::two_d::Coord;
use crate::two_d::PolygonView;
use crate::two_d::Rect;

verus! {

/// The position a three-axis coordinate exports to: its three ordinates.
pub open spec fn export_coord_z<T>(c: CoordZ<T>) -> Seq<T> {
    seq![c.x, c.y, c.z]
}

/// The position a legacy two-axis coordinate exports to: its two
/// ordinates.
pub open spec fn export_coord<T>(c: Coord<T>) -> Seq<T> {
    seq![c.x, c.y]
}

/// The position list a run of three-axis coordinates exports to, order
/// preserved.
pub open spec fn export_ring_z<T>(s: Seq<CoordZ<T>>) -> Seq<Seq<T>> {
    Seq::new(s.len(), |i: int| export_coord_z(s[i]))
}

/// The position list a run of two-axis coordinates exports to.
pub open spec fn export_ring<T>(s: Seq<Coord<T>>) -> Seq<Seq<T>> {
    Seq::new(s.len(), |i: int| export_coord(s[i]))
}

/// The ring list a polygon exports to: the exterior ring first (even when
/// it is empty), then the interiors in order.
pub open spec fn export_polygon_z<T>(p: PolygonZView<T>) -> Seq<Seq<Seq<T>>> {
    seq![export_ring_z(p.exterior)] + Seq::new(
        p.interiors.len(),
        |i: int| export_ring_z(p.interiors[i]),
    )
}

/// The ring list a legacy two-axis polygon exports to.
pub open spec fn export_polygon<T>(p: PolygonView<T>) -> Seq<Seq<Seq<T>>> {
    seq![export_ring(p.exterior)] + Seq::new(
        p.interiors.len(),
        |i: int| export_ring(p.interiors[i]),
    )
}

/// The single closed ring an axis-aligned box exports to.
pub open spec fn export_rect_ring<T>(r: Rect<T>) -> Seq<Seq<T>> {
    seq![
        seq![r.min.x, r.min.y],
        seq![r.max.x, r.min.y],
        seq![r.max.x, r.max.y],
        seq![r.min.x, r.max.y],
        seq![r.min.x, r.min.y],
    ]
}

/// The interchange value each geometry variant exports to.  Total: every
/// variant has an image, order is preserved everywhere, and a collection
/// exports its members recursively.
pub open spec fn export_geometry_spec<T>(g: GeometryView<T>) -> ValueView<T>
    decreases g,
{
    match g {
        GeometryView::Point(p) => ValueView::Point(export_coord(p.0)),
        GeometryView::PointZ(p) => ValueView::Point(export_coord_z(p.0)),
        GeometryView::Line(l) => ValueView::LineString(
            seq![export_coord(l.start), export_coord(l.end)],
        ),
        GeometryView::LineZ(l) => ValueView::LineString(
            seq![export_coord_z(l.start), export_coord_z(l.end)],
        ),
        GeometryView::LineString(s) => ValueView::LineString(export_ring(s)),
        GeometryView::LineStringZ(s) => ValueView::LineString(export_ring_z(s)),
        GeometryView::Polygon(p) => ValueView::Polygon(export_polygon(p)),
        GeometryView::PolygonZ(p) => ValueView::Polygon(export_polygon_z(p)),
        GeometryView::MultiPoint(s) => ValueView::MultiPoint(
            Seq::new(s.len(), |i: int| export_coord(s[i].0)),
        ),
        GeometryView::MultiPointZ(s) => ValueView::MultiPoint(
            Seq::new(s.len(), |i: int| export_coord_z(s[i].0)),
        ),
        GeometryView::MultiLineString(s) => ValueView::MultiLineString(
            Seq::new(s.len(), |i: int| export_ring(s[i])),
        ),
        GeometryView::MultiLineStringZ(s) => ValueView::MultiLineString(
            Seq::new(s.len(), |i: int| export_ring_z(s[i])),
        ),
        GeometryView::MultiPolygon(s) => ValueView::MultiPolygon(
            Seq::new(s.len(), |i: int| export_polygon(s[i])),
        ),
        GeometryView::MultiPolygonZ(s) => ValueView::MultiPolygon(
            Seq::new(s.len(), |i: int| export_polygon_z(s[i])),
        ),
        GeometryView::GeometryCollection(s) => ValueView::GeometryCollection(
            export_geometries_spec(s),
        ),
        GeometryView::Rect(r) => ValueView::Polygon(seq![export_rect_ring(r)]),
    }
}

/// The interchange values an ordered run of geometries exports to, in
/// order.
pub open spec fn export_geometries_spec<T>(s: Seq<GeometryView<T>>) -> Seq<ValueView<T>>
    decreases s,
{
    if s.len() == 0 {
        Seq::empty()
    } else {
        export_geometries_spec(s.drop_last()).push(export_geometry_spec(s.last()))
    }
}

/// Unrolls the export of a run of geometries one element at a time.
pub proof fn lemma_export_geometries_spec<T>(s: Seq<GeometryView<T>>)
    ensures
        export_geometries_spec(s).len() == s.len(),
        forall|i: int|
            0 <= i < s.len() ==> export_geometries_spec(s)[i] == export_geometry_spec(s[i]),
    decreases s,
{
    if s.len() > 0 {
        lemma_export_geometries_spec(s.drop_last());
    }
}

/// The features an ordered run of geometries exports to: one feature per
/// geometry, each carrying its exported value.
pub open spec fn export_features_spec<T>(s: Seq<GeometryView<T>>) -> Seq<FeatureView<T>>
    decreases s,
{
    if s.len() == 0 {
        Seq::empty()
    } else {
        export_features_spec(s.drop_last()).push(
            FeatureView { geometry: Option::Some(export_geometry_spec(s.last())) },
        )
    }
}

/// Unrolls the export of a run of geometries to features.
pub proof fn lemma_export_features_spec<T>(s: Seq<GeometryView<T>>)
    ensures
        export_features_spec(s).len() == s.len(),
        forall|i: int|
            0 <= i < s.len() ==> export_features_spec(s)[i] == (FeatureView {
                geometry: Option::Some(export_geometry_spec(s[i])),
            }),
    decreases s,
{
    if s.len() > 0 {
        lemma_export_features_spec(s.drop_last());
    }
}

/// The position of a three-axis point: its three ordinates, as
/// `[x, y, z]`.
pub fn create_point_type<T: Copy>(point: &PointZ<T>) -> (r: Vec<T>)
    ensures
        r@ == export_coord_z(point.0),
{
    let mut out: Vec<T> = Vec::new();
    out.push(point.0.x);
    out.push(point.0.y);
    out.push(point.0.z);
    proof {
        assert(out@ =~= export_coord_z(point.0));
    }
    out
}

/// The position of a legacy two-axis coordinate: `[x, y]`.
pub fn create_legacy_point_type<T: Copy>(c: &Coord<T>) -> (r: Vec<T>)
    ensures
        r@ == export_coord(*c),
{
    let mut out: Vec<T> = Vec::new();
    out.push(c.x);
    out.push(c.y);
    proof {
        assert(out@ =~= export_coord(*c));
    }
    out
}

/// The position list of a line string, order preserved.
pub fn create_line_string_type<T: Copy>(line_string: &LineStringZ<T>) -> (r: Vec<Vec<T>>)
    ensures
        positions_view(r@) == export_ring_z(line_string@),
{
    let mut out: Vec<Vec<T>> = Vec::new();
    let mut i: usize = 0;
    while i < line_string.len()
        invariant
            i <= line_string@.len(),
            out@.len() == i,
            forall|j: int| 0 <= j < i ==> out@[j]@ == export_coord_z(line_string@[j]),
        decreases line_string@.len() - i,
    {
        out.push(create_point_type(&PointZ(line_string.get(i))));
        i = i + 1;
    }
    proof {
        assert(positions_view(out@) =~= export_ring_z(line_string@));
    }
    out
}

/// The two-position list of a line segment: its start, then its end.
pub fn create_from_line_type<T: Copy>(line: &LineZ<T>) -> (r: Vec<Vec<T>>)
    ensures
        positions_view(r@) == seq![export_coord_z(line.start), export_coord_z(line.end)],
{
    let mut out: Vec<Vec<T>> = Vec::new();
    out.push(create_point_type(&line.start_point()));
    out.push(create_point_type(&line.end_point()));
    proof {
        assert(positions_view(out@) =~= seq![
            export_coord_z(line.start),
            export_coord_z(line.end),
        ]);
    }
    out
}

/// The ring list of a polygon: the exterior ring first, even when empty,
/// then the interiors in order.
pub fn create_polygon_type<T: Copy>(polygon: &PolygonZ<T>) -> (r: Vec<Vec<Vec<T>>>)
    ensures
        rings_view(r@) == export_polygon_z(polygon@),
{
    let mut out: Vec<Vec<Vec<T>>> = Vec::new();
    out.push(create_line_string_type(polygon.exterior()));
    let interiors = polygon.interiors();
    let mut i: usize = 0;
    while i < interiors.len()
        invariant
            i <= interiors@.len(),
            interiors@.len() == polygon@.interiors.len(),
            forall|j: int| 0 <= j < interiors@.len() ==> interiors@[j]@ == polygon@.interiors[j],
            out@.len() == i + 1,
            positions_view(out@[0]@) == export_ring_z(polygon@.exterior),
            forall|j: int|
                0 <= j < i ==> positions_view(out@[j + 1]@) == export_ring_z(
                    polygon@.interiors[j],
                ),
        decreases interiors@.len() - i,
    {
        out.push(create_line_string_type(&interiors[i]));
        i = i + 1;
    }
    proof {
        assert(rings_view(out@) =~= export_polygon_z(polygon@));
    }
    out
}

/// The ring list of a triangle: one ring holding its three vertices with
/// the first one appended again to close it.
pub fn create_from_triangle_type<T: Copy>(triangle: &Triangle<T>) -> (r: Vec<Vec<Vec<T>>>)
    ensures
        rings_view(r@) == seq![export_ring_z(
            seq![triangle.0, triangle.1, triangle.2, triangle.0],
        )],
{
    let polygon = triangle.to_polygon();
    let r = create_polygon_type(&polygon);
    proof {
        assert(rings_view(r@) =~= seq![export_ring_z(
            seq![triangle.0, triangle.1, triangle.2, triangle.0],
        )]);
    }
    r
}

/// The position lists of a multi-line-string, order preserved.
pub fn create_multi_line_string_type<T: Copy>(
    multi_line_string: &MultiLineStringZ<T>,
) -> (r: Vec<Vec<Vec<T>>>)
    ensures
        rings_view(r@) == Seq::new(
            multi_line_string@.len(),
            |i: int| export_ring_z(multi_line_string@[i]),
        ),
{
    let mut out: Vec<Vec<Vec<T>>> = Vec::new();
    let mut i: usize = 0;
    while i < multi_line_string.0.len()
        invariant
            i <= multi_line_string.0@.len(),
            multi_line_string@.len() == multi_line_string.0@.len(),
            forall|j: int|
                0 <= j < multi_line_string.0@.len() ==> multi_line_string@[j]
                    == multi_line_string.0@[j]@,
            out@.len() == i,
            forall|j: int|
                0 <= j < i ==> positions_view(out@[j]@) == export_ring_z(multi_line_string@[j]),
        decreases multi_line_string.0@.len() - i,
    {
        out.push(create_line_string_type(&multi_line_string.0[i]));
        i = i + 1;
    }
    proof {
        assert(rings_view(out@) =~= Seq::new(
            multi_line_string@.len(),
            |i: int| export_ring_z(multi_line_string@[i]),
        ));
    }
    out
}

/// The ring lists of a multi-polygon, order preserved.
pub fn create_multi_polygon_type<T: Copy>(
    multi_polygon: &MultiPolygonZ<T>,
) -> (r: Vec<Vec<Vec<Vec<T>>>>)
    ensures
        polygons_view(r@) == Seq::new(
            multi_polygon@.len(),
            |i: int| export_polygon_z(multi_polygon@[i]),
        ),
{
    let mut out: Vec<Vec<Vec<Vec<T>>>> = Vec::new();
    let mut i: usize = 0;
    while i < multi_polygon.0.len()
        invariant
            i <= multi_polygon.0@.len(),
            multi_polygon@.len() == multi_polygon.0@.len(),
            forall|j: int|
                0 <= j < multi_polygon.0@.len() ==> multi_polygon@[j] == multi_polygon.0@[j]@,
            out@.len() == i,
            forall|j: int|
                0 <= j < i ==> rings_view(out@[j]@) == export_polygon_z(multi_polygon@[j]),
        decreases multi_polygon.0@.len() - i,
    {
        out.push(create_polygon_type(&multi_polygon.0[i]));
        i = i + 1;
    }
    proof {
        assert(polygons_view(out@) =~= Seq::new(
            multi_polygon@.len(),
            |i: int| export_polygon_z(multi_polygon@[i]),
        ));
    }
    out
}

/// The position list of a multi-point, order preserved.
pub fn create_multi_point_type<T: Copy>(multi_point: &MultiPointZ<T>) -> (r: Vec<Vec<T>>)
    ensures
        positions_view(r@) == Seq::new(
            multi_point@.len(),
            |i: int| export_coord_z(multi_point@[i].0),
        ),
{
    let mut out: Vec<Vec<T>> = Vec::new();
    let mut i: usize = 0;
    while i < multi_point.0.len()
        invariant
            i <= multi_point.0@.len(),
            multi_point@ == multi_point.0@,
            out@.len() == i,
            forall|j: int| 0 <= j < i ==> out@[j]@ == export_coord_z(multi_point@[j].0),
        decreases multi_point.0@.len() - i,
    {
        out.push(create_point_type(&multi_point.0[i]));
        i = i + 1;
    }
    proof {
        assert(positions_view(out@) =~= Seq::new(
            multi_point@.len(),
            |i: int| export_coord_z(multi_point@[i].0),
        ));
    }
    out
}

/// The interchange value of any geometry.  Total over every variant;
/// collections are exported member by member, in order.
#[verifier::loop_isolation(false)]
pub fn value_of_geometry<T: Copy>(geometry: &Geometry<T>) -> (r: Value<T>)
    ensures
        r@ == export_geometry_spec(geometry@),
    decreases geometry,
{
    match geometry {
        Geometry::Point(p) => Value::Point(create_legacy_point_type(&p.0)),
        Geometry::PointZ(p) => Value::Point(create_point_type(p)),
        Geometry::Line(l) => {
            let mut out: Vec<Vec<T>> = Vec::new();
            out.push(create_legacy_point_type(&l.start));
            out.push(create_legacy_point_type(&l.end));
            let r = Value::LineString(out);
            proof {
                assert(r@->LineString_0 =~= export_geometry_spec(
                    geometry@,
                )->LineString_0);
            }
            r
        },
        Geometry::LineZ(l) => {
            let r = Value::LineString(create_from_line_type(l));
            r
        },
        Geometry::LineString(ls) => {
            let mut out: Vec<Vec<T>> = Vec::new();
            let mut i: usize = 0;
            while i < ls.0.len()
                invariant
                    i <= ls.0@.len(),
                    out@.len() == i,
                    forall|j: int| 0 <= j < i ==> out@[j]@ == export_coord(ls.0@[j]),
                decreases ls.0@.len() - i,
            {
                out.push(create_legacy_point_type(&ls.0[i]));
                i = i + 1;
            }
            let r = Value::LineString(out);
            proof {
                assert(positions_view(out@) =~= export_ring(ls@));
            }
            r
        },
        Geometry::LineStringZ(ls) => Value::LineString(create_line_string_type(ls)),
        Geometry::Polygon(p) => {
            let mut out: Vec<Vec<Vec<T>>> = Vec::new();
            let mut ring: Vec<Vec<T>> = Vec::new();
            let mut i: usize = 0;
            while i < p.exterior.0.len()
                invariant
                    i <= p.exterior.0@.len(),
                    ring@.len() == i,
                    forall|j: int| 0 <= j < i ==> ring@[j]@ == export_coord(p.exterior.0@[j]),
                decreases p.exterior.0@.len() - i,
            {
                ring.push(create_legacy_point_type(&p.exterior.0[i]));
                i = i + 1;
            }
            proof {
                assert(positions_view(ring@) =~= export_ring(p@.exterior));
            }
            out.push(ring);
            let mut k: usize = 0;
            while k < p.interiors.len()
                invariant
                    k <= p.interiors@.len(),
                    out@.len() == k + 1,
                    positions_view(out@[0]@) == export_ring(p@.exterior),
                    forall|j: int|
                        0 <= j < k ==> positions_view(out@[j + 1]@) == export_ring(
                            p@.interiors[j],
                        ),
                decreases p.interiors@.len() - k,
            {
                let mut interior: Vec<Vec<T>> = Vec::new();
                let mut i: usize = 0;
                while i < p.interiors[k].0.len()
                    invariant
                        k < p.interiors@.len(),
                        i <= p.interiors@[k as int].0@.len(),
                        interior@.len() == i,
                        forall|j: int|
                            0 <= j < i ==> interior@[j]@ == export_coord(
                                p.interiors@[k as int].0@[j],
                            ),
                    decreases p.interiors@[k as int].0@.len() - i,
                {
                    interior.push(create_legacy_point_type(&p.interiors[k].0[i]));
                    i = i + 1;
                }
                proof {
                    assert(positions_view(interior@) =~= export_ring(p@.interiors[k as int]));
                }
                out.push(interior);
                k = k + 1;
            }
            let r = Value::Polygon(out);
            proof {
                assert(rings_view(out@) =~= export_polygon(p@));
            }
            r
        },
        Geometry::PolygonZ(p) => Value::Polygon(create_polygon_type(p)),
        Geometry::MultiPoint(mp) => {
            let mut out: Vec<Vec<T>> = Vec::new();
            let mut i: usize = 0;
            while i < mp.0.len()
                invariant
                    i <= mp.0@.len(),
                    out@.len() == i,
                    forall|j: int| 0 <= j < i ==> out@[j]@ == export_coord(mp.0@[j].0),
                decreases mp.0@.len() - i,
            {
                out.push(create_legacy_point_type(&mp.0[i].0));
                i = i + 1;
            }
            let r = Value::MultiPoint(out);
            proof {
                assert(positions_view(out@) =~= Seq::new(
                    mp@.len(),
                    |i: int| export_coord(mp@[i].0),
                ));
            }
            r
        },
        Geometry::MultiPointZ(mp) => Value::MultiPoint(create_multi_point_type(mp)),
        Geometry::MultiLineString(mls) => {
            let mut out: Vec<Vec<Vec<T>>> = Vec::new();
            let mut k: usize = 0;
            while k < mls.0.len()
                invariant
                    k <= mls.0@.len(),
                    out@.len() == k,
                    forall|j: int|
                        0 <= j < k ==> positions_view(out@[j]@) == export_ring(mls.0@[j]@),
                decreases mls.0@.len() - k,
            {
                let mut ring: Vec<Vec<T>> = Vec::new();
                let mut i: usize = 0;
                while i < mls.0[k].0.len()
                    invariant
                        k < mls.0@.len(),
                        i <= mls.0@[k as int].0@.len(),
                        ring@.len() == i,
                        forall|j: int|
                            0 <= j < i ==> ring@[j]@ == export_coord(mls.0@[k as int].0@[j]),
                    decreases mls.0@[k as int].0@.len() - i,
                {
                    ring.push(create_legacy_point_type(&mls.0[k].0[i]));
                    i = i + 1;
                }
                proof {
                    assert(positions_view(ring@) =~= export_ring(mls.0@[k as int]@));
                }
                out.push(ring);
                k = k + 1;
            }
            let r = Value::MultiLineString(out);
            proof {
                assert(rings_view(out@) =~= Seq::new(
                    mls@.len(),
                    |i: int| export_ring(mls@[i]),
                ));
            }
            r
        },
        Geometry::MultiLineStringZ(mls) => Value::MultiLineString(
            create_multi_line_string_type(mls),
        ),
        Geometry::MultiPolygon(mp) => {
            let mut out: Vec<Vec<Vec<Vec<T>>>> = Vec::new();
            let mut n: usize = 0;
            while n < mp.0.len()
                invariant
                    n <= mp.0@.len(),
                    out@.len() == n,
                    forall|j: int|
                        0 <= j < n ==> rings_view(out@[j]@) == export_polygon(mp.0@[j]@),
                decreases mp.0@.len() - n,
            {
                let p = &mp.0[n];
                let mut rings: Vec<Vec<Vec<T>>> = Vec::new();
                let mut ring: Vec<Vec<T>> = Vec::new();
                let mut i: usize = 0;
                while i < p.exterior.0.len()
                    invariant
                        i <= p.exterior.0@.len(),
                        ring@.len() == i,
                        forall|j: int| 0 <= j < i ==> ring@[j]@ == export_coord(p.exterior.0@[j]),
                    decreases p.exterior.0@.len() - i,
                {
                    ring.push(create_legacy_point_type(&p.exterior.0[i]));
                    i = i + 1;
                }
                proof {
                    assert(positions_view(ring@) =~= export_ring(p@.exterior));
                }
                rings.push(ring);
                let mut k: usize = 0;
                while k < p.interiors.len()
                    invariant
                        k <= p.interiors@.len(),
                        rings@.len() == k + 1,
                        positions_view(rings@[0]@) == export_ring(p@.exterior),
                        forall|j: int|
                            0 <= j < k ==> positions_view(rings@[j + 1]@) == export_ring(
                                p@.interiors[j],
                            ),
                    decreases p.interiors@.len() - k,
                {
                    let mut interior: Vec<Vec<T>> = Vec::new();
                    let mut i: usize = 0;
                    while i < p.interiors[k].0.len()
                        invariant
                            k < p.interiors@.len(),
                            i <= p.interiors@[k as int].0@.len(),
                            interior@.len() == i,
                            forall|j: int|
                                0 <= j < i ==> interior@[j]@ == export_coord(
                                    p.interiors@[k as int].0@[j],
                                ),
                        decreases p.interiors@[k as int].0@.len() - i,
                    {
                        interior.push(create_legacy_point_type(&p.interiors[k].0[i]));
                        i = i + 1;
                    }
                    proof {
                        assert(positions_view(interior@) =~= export_ring(
                            p@.interiors[k as int],
                        ));
                    }
                    rings.push(interior);
                    k = k + 1;
                }
                proof {
                    assert(rings_view(rings@) =~= export_polygon(p@));
                }
                out.push(rings);
                n = n + 1;
            }
            let r = Value::MultiPolygon(out);
            proof {
                assert(polygons_view(out@) =~= Seq::new(
                    mp@.len(),
                    |i: int| export_polygon(mp@[i]),
                ));
            }
            r
        },
        Geometry::MultiPolygonZ(mp) => Value::MultiPolygon(create_multi_polygon_type(mp)),
        Geometry::GeometryCollection(gc) => {
            let mut out: Vec<Value<T>> = Vec::new();
            let mut i: usize = 0;
            proof {
                lemma_geometry_seq_view(gc.0@);
            }
            while i < gc.0.len()
                invariant
                    i <= gc.0@.len(),
                    out@.len() == i,
                    geometry_seq_view(gc.0@).len() == gc.0@.len(),
                    forall|j: int|
                        0 <= j < gc.0@.len() ==> geometry_seq_view(gc.0@)[j] == gc.0@[j]@,
                    forall|j: int|
                        0 <= j < i ==> out@[j]@ == export_geometry_spec(gc.0@[j]@),
                decreases gc.0@.len() - i,
            {
                proof {
                    assert(decreases_to!(*geometry => geometry->GeometryCollection_0));
                    assert(geometry->GeometryCollection_0 == *gc);
                    assert(decreases_to!(*gc => gc.0));
                    assert(decreases_to!(gc.0 => gc.0@));
                    assert(decreases_to!(gc.0@ => gc.0@[i as int]));
                }
                out.push(value_of_geometry(&gc.0[i]));
                i = i + 1;
            }
            let r = Value::GeometryCollection(out);
            proof {
                lemma_value_seq_view(out@);
                lemma_export_geometries_spec(geometry_seq_view(gc.0@));
                assert(value_seq_view(out@) =~= export_geometries_spec(geometry_seq_view(gc.0@)));
            }
            r
        },
        Geometry::Rect(rect) => {
            let mut ring: Vec<Vec<T>> = Vec::new();
            ring.push(create_legacy_point_type(&rect.min));
            let mut c: Vec<T> = Vec::new();
            c.push(rect.max.x);
            c.push(rect.min.y);
            ring.push(c);
            ring.push(create_legacy_point_type(&rect.max));
            let mut c2: Vec<T> = Vec::new();
            c2.push(rect.min.x);
            c2.push(rect.max.y);
            ring.push(c2);
            ring.push(create_legacy_point_type(&rect.min));
            let mut out: Vec<Vec<Vec<T>>> = Vec::new();
            out.push(ring);
            let r = Value::Polygon(out);
            proof {
                assert(rings_view(out@) =~~= seq![export_rect_ring(*rect)]);
            }
            r
        },
    }
}

/// The interchange value of a geometry collection: the tagged collection
/// value over the members' exports, in order.
pub fn value_of_geometry_collection<T: Copy>(gc: &GeometryCollection<T>) -> (r: Value<T>)
    ensures
        r@ == ValueView::GeometryCollection(export_geometries_spec(gc@)),
{
    let mut out: Vec<Value<T>> = Vec::new();
    let mut i: usize = 0;
    proof {
        lemma_geometry_seq_view(gc.0@);
    }
    while i < gc.0.len()
        invariant
            i <= gc.0@.len(),
            out@.len() == i,
            geometry_seq_view(gc.0@).len() == gc.0@.len(),
            forall|j: int| 0 <= j < gc.0@.len() ==> geometry_seq_view(gc.0@)[j] == gc.0@[j]@,
            forall|j: int| 0 <= j < i ==> out@[j]@ == export_geometry_spec(gc.0@[j]@),
        decreases gc.0@.len() - i,
    {
        out.push(value_of_geometry(&gc.0[i]));
        i = i + 1;
    }
    let r = Value::GeometryCollection(out);
    proof {
        lemma_value_seq_view(out@);
        lemma_export_geometries_spec(geometry_seq_view(gc.0@));
        assert(value_seq_view(out@) =~= export_geometries_spec(gc@));
    }
    r
}

/// The feature collection of a geometry collection: one feature per
/// member, in order, each carrying the member's exported value.
pub fn features_of_geometry_collection<T: Copy>(gc: &GeometryCollection<T>) -> (r: Vec<
    Feature<T>,
>)
    ensures
        feature_seq_view(r@) == export_features_spec(gc@),
{
    let mut out: Vec<Feature<T>> = Vec::new();
    let mut i: usize = 0;
    proof {
        lemma_geometry_seq_view(gc.0@);
    }
    while i < gc.0.len()
        invariant
            i <= gc.0@.len(),
            out@.len() == i,
            geometry_seq_view(gc.0@).len() == gc.0@.len(),
            forall|j: int| 0 <= j < gc.0@.len() ==> geometry_seq_view(gc.0@)[j] == gc.0@[j]@,
            forall|j: int|
                0 <= j < i ==> out@[j]@ == (FeatureView {
                    geometry: Option::Some(export_geometry_spec(gc.0@[j]@)),
                }),
        decreases gc.0@.len() - i,
    {
        out.push(Feature { geometry: Some(value_of_geometry(&gc.0[i])) });
        i = i + 1;
    }
    proof {
        lemma_feature_seq_view(out@);
        lemma_export_features_spec(gc@);
        assert(feature_seq_view(out@) =~= export_features_spec(gc@));
    }
    out
}

} // verus!
