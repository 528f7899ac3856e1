use vstd::prelude::*;

use crate::coord_z::CoordZ;
use crate::error::Error;
use crate::error::ValueKind;
use crate::geometry::geometry_seq_view;
use crate::geometry::lemma_geometry_seq_view;
use crate::geometry::Geometry;
use crate::geometry::GeometryCollection;
use crate::geometry::GeometryView;
use crate::interchange::feature_seq_view;
use crate::interchange::lemma_feature_seq_view;
use crate::interchange::lemma_value_seq_view;
use crate::interchange::positions_view;
use crate::interchange::rings_view;
use crate::interchange::polygons_view;
use crate::interchange::value_seq_view;
use crate::interchange::Feature;
use crate::interchange::FeatureView;
use crate::interchange::GeoJson;
use crate::interchange::GeoJsonView;
use crate::interchange::Value;
use crate::interchange::ValueView;
use crate::line_string_z::LineStringZ;
use crate::multi::MultiLineStringZ;
use crate::multi::MultiPointZ;
use crate::multi::MultiPolygonZ;
use crate::point_z::PointZ;
use crate::polygon_z::polygon_of_rings;
use crate::polygon_z::PolygonZ;
use crate::polygon_z::PolygonZView;

verus! {

/// What importing one position yields: the coordinate over its first three
/// ordinates.  A position with fewer than three ordinates is rejected —
/// the third axis is mandatory here by design, never silently defaulted —
/// and the error reports how many ordinates the position had.
pub open spec fn import_position_spec<T>(p: Seq<T>) -> Result<CoordZ<T>, Error> {
    if p.len() >= 3 {
        Ok(CoordZ { x: p[0], y: p[1], z: p[2] })
    } else {
        Err(Error::MalformedPosition { length: p.len() as usize })
    }
}

/// What importing a position list yields: the coordinates in order, or the
/// first failing position's error.
pub open spec fn import_positions_spec<T>(s: Seq<Seq<T>>) -> Result<Seq<CoordZ<T>>, Error>
    decreases s,
{
    if s.len() == 0 {
        Ok(Seq::empty())
    } else {
        match import_positions_spec(s.drop_last()) {
            Ok(pre) => match import_position_spec(s.last()) {
                Ok(c) => Ok(pre.push(c)),
                Err(e) => Err(e),
            },
            Err(e) => Err(e),
        }
    }
}

/// What importing a position list as points yields.
pub open spec fn import_points_spec<T>(s: Seq<Seq<T>>) -> Result<Seq<PointZ<T>>, Error> {
    match import_positions_spec(s) {
        Ok(cs) => Ok(Seq::new(cs.len(), |i: int| PointZ(cs[i]))),
        Err(e) => Err(e),
    }
}

/// What importing a list of rings (or of line strings) yields: each
/// member's coordinates, in order, or the first failure.
pub open spec fn import_rings_spec<T>(s: Seq<Seq<Seq<T>>>) -> Result<
    Seq<Seq<CoordZ<T>>>,
    Error,
>
    decreases s,
{
    if s.len() == 0 {
        Ok(Seq::empty())
    } else {
        match import_rings_spec(s.drop_last()) {
            Ok(pre) => match import_positions_spec(s.last()) {
                Ok(r) => Ok(pre.push(r)),
                Err(e) => Err(e),
            },
            Err(e) => Err(e),
        }
    }
}

/// What importing one ring list as a polygon yields: no ring gives the
/// empty polygon, one ring gives an exterior without interiors, more give
/// the exterior followed by the interiors in order.  Rings are taken
/// exactly as written; none is closed on the way in.
pub open spec fn import_polygon_spec<T>(rings: Seq<Seq<Seq<T>>>) -> Result<
    PolygonZView<T>,
    Error,
> {
    match import_rings_spec(rings) {
        Ok(rs) => Ok(polygon_of_rings(rs)),
        Err(e) => Err(e),
    }
}

/// What importing a list of ring lists yields: each member as a polygon,
/// in order, or the first failure.
pub open spec fn import_polygons_spec<T>(s: Seq<Seq<Seq<Seq<T>>>>) -> Result<
    Seq<PolygonZView<T>>,
    Error,
>
    decreases s,
{
    if s.len() == 0 {
        Ok(Seq::empty())
    } else {
        match import_polygons_spec(s.drop_last()) {
            Ok(pre) => match import_polygon_spec(s.last()) {
                Ok(p) => Ok(pre.push(p)),
                Err(e) => Err(e),
            },
            Err(e) => Err(e),
        }
    }
}

/// The error an import reports when the value's kind tag is not the
/// requested one.
pub open spec fn mismatch_spec<T>(expected: ValueKind, v: ValueView<T>) -> Error {
    Error::InvalidGeometryConversion { expected_type: expected, found_type: v.kind_spec() }
}

/// What importing a value as a geometry yields, dispatching on the kind
/// tag; every kind imports into its current three-axis variant, and a
/// collection imports its members recursively, stopping at the first
/// failure.
pub open spec fn import_geometry_spec<T>(v: ValueView<T>) -> Result<GeometryView<T>, Error>
    decreases v,
{
    match v {
        ValueView::Point(p) => match import_position_spec(p) {
            Ok(c) => Ok(GeometryView::PointZ(PointZ(c))),
            Err(e) => Err(e),
        },
        ValueView::MultiPoint(s) => match import_points_spec(s) {
            Ok(ps) => Ok(GeometryView::MultiPointZ(ps)),
            Err(e) => Err(e),
        },
        ValueView::LineString(s) => match import_positions_spec(s) {
            Ok(cs) => Ok(GeometryView::LineStringZ(cs)),
            Err(e) => Err(e),
        },
        ValueView::MultiLineString(s) => match import_rings_spec(s) {
            Ok(ls) => Ok(GeometryView::MultiLineStringZ(ls)),
            Err(e) => Err(e),
        },
        ValueView::Polygon(s) => match import_polygon_spec(s) {
            Ok(p) => Ok(GeometryView::PolygonZ(p)),
            Err(e) => Err(e),
        },
        ValueView::MultiPolygon(s) => match import_polygons_spec(s) {
            Ok(ps) => Ok(GeometryView::MultiPolygonZ(ps)),
            Err(e) => Err(e),
        },
        ValueView::GeometryCollection(s) => match import_geometries_spec(s) {
            Ok(gs) => Ok(GeometryView::GeometryCollection(gs)),
            Err(e) => Err(e),
        },
    }
}

/// What importing a run of values as geometries yields: each member in
/// order, or the first failure; no partial collection survives an error.
pub open spec fn import_geometries_spec<T>(s: Seq<ValueView<T>>) -> Result<
    Seq<GeometryView<T>>,
    Error,
>
    decreases s,
{
    if s.len() == 0 {
        Ok(Seq::empty())
    } else {
        match import_geometries_spec(s.drop_last()) {
            Ok(pre) => match import_geometry_spec(s.last()) {
                Ok(g) => Ok(pre.push(g)),
                Err(e) => Err(e),
            },
            Err(e) => Err(e),
        }
    }
}

/// What importing a feature as a geometry yields: its geometry imported,
/// or `FeatureHasNoGeometry` when it has none.
pub open spec fn import_feature_spec<T>(f: FeatureView<T>) -> Result<GeometryView<T>, Error> {
    match f.geometry {
        Option::Some(v) => import_geometry_spec(v),
        Option::None => Err(Error::FeatureHasNoGeometry),
    }
}

/// What importing a run of features yields: the geometries of the features
/// that have one, in order — features without geometry are silently
/// dropped — or the first failing import's error.
pub open spec fn import_features_spec<T>(s: Seq<FeatureView<T>>) -> Result<
    Seq<GeometryView<T>>,
    Error,
>
    decreases s,
{
    if s.len() == 0 {
        Ok(Seq::empty())
    } else {
        match import_features_spec(s.drop_last()) {
            Ok(pre) => match s.last().geometry {
                Option::None => Ok(pre),
                Option::Some(v) => match import_geometry_spec(v) {
                    Ok(g) => Ok(pre.push(g)),
                    Err(e) => Err(e),
                },
            },
            Err(e) => Err(e),
        }
    }
}

/// What importing a whole document as a geometry collection yields.  A
/// feature collection imports the features that carry geometry, silently
/// dropping the rest; a single feature without geometry imports as the
/// empty collection — not an error; a bare geometry imports alone.
pub open spec fn import_collection_from_geo_json_spec<T>(gj: GeoJsonView<T>) -> Result<
    Seq<GeometryView<T>>,
    Error,
> {
    match gj {
        GeoJsonView::FeatureCollection(fs) => import_features_spec(fs),
        GeoJsonView::Feature(f) => match f.geometry {
            Option::None => Ok(Seq::empty()),
            Option::Some(v) => match import_geometry_spec(v) {
                Ok(g) => Ok(seq![g]),
                Err(e) => Err(e),
            },
        },
        GeoJsonView::Geometry(v) => match import_geometry_spec(v) {
            Ok(g) => Ok(seq![g]),
            Err(e) => Err(e),
        },
    }
}

/// What importing a whole document as a single geometry yields.  A feature
/// collection becomes the geometry collection wrapping its imported
/// members, so that path succeeds whenever the member imports do.
pub open spec fn import_geometry_from_geo_json_spec<T>(gj: GeoJsonView<T>) -> Result<
    GeometryView<T>,
    Error,
> {
    match gj {
        GeoJsonView::Geometry(v) => import_geometry_spec(v),
        GeoJsonView::Feature(f) => import_feature_spec(f),
        GeoJsonView::FeatureCollection(fs) => match import_features_spec(fs) {
            Ok(gs) => Ok(GeometryView::GeometryCollection(gs)),
            Err(e) => Err(e),
        },
    }
}

/// A failing position fails the whole position list with its own error.
proof fn lemma_import_positions_err<T>(s: Seq<Seq<T>>, i: int)
    requires
        0 <= i < s.len(),
        import_positions_spec(s.take(i)) is Ok,
        import_position_spec(s[i]) is Err,
    ensures
        import_positions_spec(s) == Err::<Seq<CoordZ<T>>, Error>(
            import_position_spec(s[i])->Err_0,
        ),
    decreases s.len(),
{
    if s.len() == i + 1 {
        assert(s.drop_last() =~= s.take(i));
    } else {
        assert(s.drop_last().take(i) =~= s.take(i));
        lemma_import_positions_err(s.drop_last(), i);
    }
}

/// A failing ring fails the whole ring list with its own error.
proof fn lemma_import_rings_err<T>(s: Seq<Seq<Seq<T>>>, i: int)
    requires
        0 <= i < s.len(),
        import_rings_spec(s.take(i)) is Ok,
        import_positions_spec(s[i]) is Err,
    ensures
        import_rings_spec(s) == Err::<Seq<Seq<CoordZ<T>>>, Error>(
            import_positions_spec(s[i])->Err_0,
        ),
    decreases s.len(),
{
    if s.len() == i + 1 {
        assert(s.drop_last() =~= s.take(i));
    } else {
        assert(s.drop_last().take(i) =~= s.take(i));
        lemma_import_rings_err(s.drop_last(), i);
    }
}

/// A failing ring list fails the whole polygon list with its own error.
proof fn lemma_import_polygons_err<T>(s: Seq<Seq<Seq<Seq<T>>>>, i: int)
    requires
        0 <= i < s.len(),
        import_polygons_spec(s.take(i)) is Ok,
        import_polygon_spec(s[i]) is Err,
    ensures
        import_polygons_spec(s) == Err::<Seq<PolygonZView<T>>, Error>(
            import_polygon_spec(s[i])->Err_0,
        ),
    decreases s.len(),
{
    if s.len() == i + 1 {
        assert(s.drop_last() =~= s.take(i));
    } else {
        assert(s.drop_last().take(i) =~= s.take(i));
        lemma_import_polygons_err(s.drop_last(), i);
    }
}

/// A failing member fails the whole value list with its own error.
proof fn lemma_import_geometries_err<T>(s: Seq<ValueView<T>>, i: int)
    requires
        0 <= i < s.len(),
        import_geometries_spec(s.take(i)) is Ok,
        import_geometry_spec(s[i]) is Err,
    ensures
        import_geometries_spec(s) == Err::<Seq<GeometryView<T>>, Error>(
            import_geometry_spec(s[i])->Err_0,
        ),
    decreases s.len(),
{
    if s.len() == i + 1 {
        assert(s.drop_last() =~= s.take(i));
    } else {
        assert(s.drop_last().take(i) =~= s.take(i));
        lemma_import_geometries_err(s.drop_last(), i);
    }
}

/// A failing feature fails the whole feature list with its own error.
proof fn lemma_import_features_err<T>(s: Seq<FeatureView<T>>, i: int)
    requires
        0 <= i < s.len(),
        import_features_spec(s.take(i)) is Ok,
        s[i].geometry is Some,
        import_geometry_spec(s[i].geometry->0) is Err,
    ensures
        import_features_spec(s) == Err::<Seq<GeometryView<T>>, Error>(
            import_geometry_spec(s[i].geometry->0)->Err_0,
        ),
    decreases s.len(),
{
    if s.len() == i + 1 {
        assert(s.drop_last() =~= s.take(i));
    } else {
        assert(s.drop_last().take(i) =~= s.take(i));
        lemma_import_features_err(s.drop_last(), i);
    }
}

/// The import error for a value whose kind tag is not the requested one:
/// it names the requested kind and the kind the value declares.
pub fn mismatch_geom_err<T>(expected_type: ValueKind, found: &Value<T>) -> (e: Error)
    ensures
        e == mismatch_spec(expected_type, found@),
{
    Error::InvalidGeometryConversion { expected_type, found_type: found.kind() }
}

/// The coordinate a position imports to: its first three ordinates as x,
/// y, z.  A shorter position is rejected with `MalformedPosition`.
pub fn create_geo_coordinate<T: Copy>(point_type: &Vec<T>) -> (r: Result<CoordZ<T>, Error>)
    ensures
        r == import_position_spec(point_type@),
{
    if point_type.len() >= 3 {
        Ok(CoordZ { x: point_type[0], y: point_type[1], z: point_type[2] })
    } else {
        Err(Error::MalformedPosition { length: point_type.len() })
    }
}

/// The point a position imports to.
pub fn create_geo_point<T: Copy>(point_type: &Vec<T>) -> (r: Result<PointZ<T>, Error>)
    ensures
        match r {
            Ok(p) => import_position_spec(point_type@) == Ok::<CoordZ<T>, Error>(p.0),
            Err(e) => import_position_spec(point_type@) == Err::<CoordZ<T>, Error>(e),
        },
{
    match create_geo_coordinate(point_type) {
        Ok(c) => Ok(PointZ(c)),
        Err(e) => Err(e),
    }
}

/// The line string a position list imports to, positions in order;
/// the first malformed position fails the whole list.
pub fn create_geo_line_string<T: Copy>(line_type: &Vec<Vec<T>>) -> (r: Result<
    LineStringZ<T>,
    Error,
>)
    ensures
        match r {
            Ok(ls) => import_positions_spec(positions_view(line_type@)) == Ok::<_, Error>(ls@),
            Err(e) => import_positions_spec(positions_view(line_type@)) == Err::<
                Seq<CoordZ<T>>,
                Error,
            >(e),
        },
{
    let ghost s = positions_view(line_type@);
    let mut out: Vec<CoordZ<T>> = Vec::new();
    let mut i: usize = 0;
    proof {
        assert(s.take(0) =~= Seq::<Seq<T>>::empty());
    }
    while i < line_type.len()
        invariant
            i <= line_type@.len(),
            s == positions_view(line_type@),
            s.len() == line_type@.len(),
            out@.len() == i,
            import_positions_spec(s.take(i as int)) == Ok::<_, Error>(out@),
        decreases line_type@.len() - i,
    {
        match create_geo_coordinate(&line_type[i]) {
            Ok(c) => {
                out.push(c);
                proof {
                    assert(s.take(i + 1).drop_last() =~= s.take(i as int));
                    assert(s.take(i + 1).last() == s[i as int]);
                }
                i = i + 1;
            },
            Err(e) => {
                proof {
                    lemma_import_positions_err(s, i as int);
                }
                return Err(e);
            },
        }
    }
    proof {
        assert(s.take(s.len() as int) =~= s);
    }
    Ok(LineStringZ(out))
}

/// The multi-point a position list imports to.
pub fn create_geo_multi_point<T: Copy>(points: &Vec<Vec<T>>) -> (r: Result<
    MultiPointZ<T>,
    Error,
>)
    ensures
        match r {
            Ok(mp) => import_points_spec(positions_view(points@)) == Ok::<_, Error>(mp@),
            Err(e) => import_points_spec(positions_view(points@)) == Err::<
                Seq<PointZ<T>>,
                Error,
            >(e),
        },
{
    match create_geo_line_string(points) {
        Ok(ls) => {
            let LineStringZ(coords) = ls;
            let mut out: Vec<PointZ<T>> = Vec::new();
            let mut i: usize = 0;
            while i < coords.len()
                invariant
                    i <= coords@.len(),
                    out@.len() == i,
                    forall|j: int| 0 <= j < i ==> out@[j] == PointZ(coords@[j]),
                decreases coords@.len() - i,
            {
                out.push(PointZ(coords[i]));
                i = i + 1;
            }
            let r = MultiPointZ(out);
            proof {
                assert(r@ =~= Seq::new(coords@.len(), |i: int| PointZ(coords@[i])));
            }
            Ok(r)
        },
        Err(e) => Err(e),
    }
}

/// The multi-line-string a list of position lists imports to, members in
/// order; the first failing member fails the whole list.
pub fn create_geo_multi_line_string<T: Copy>(multi_line_type: &Vec<Vec<Vec<T>>>) -> (r: Result<
    MultiLineStringZ<T>,
    Error,
>)
    ensures
        match r {
            Ok(mls) => import_rings_spec(rings_view(multi_line_type@)) == Ok::<_, Error>(mls@),
            Err(e) => import_rings_spec(rings_view(multi_line_type@)) == Err::<
                Seq<Seq<CoordZ<T>>>,
                Error,
            >(e),
        },
{
    let ghost s = rings_view(multi_line_type@);
    let mut out: Vec<LineStringZ<T>> = Vec::new();
    let mut i: usize = 0;
    let ghost mut imported: Seq<Seq<CoordZ<T>>> = Seq::empty();
    proof {
        assert(s.take(0) =~= Seq::<Seq<Seq<T>>>::empty());
    }
    while i < multi_line_type.len()
        invariant
            i <= multi_line_type@.len(),
            s == rings_view(multi_line_type@),
            s.len() == multi_line_type@.len(),
            out@.len() == i,
            imported.len() == i,
            forall|j: int| 0 <= j < i ==> imported[j] == out@[j]@,
            import_rings_spec(s.take(i as int)) == Ok::<_, Error>(imported),
        decreases multi_line_type@.len() - i,
    {
        match create_geo_line_string(&multi_line_type[i]) {
            Ok(ls) => {
                proof {
                    assert(s.take(i as int + 1).drop_last() =~= s.take(i as int));
                    assert(s.take(i as int + 1).last() == s[i as int]);
                    imported = imported.push(ls@);
                }
                out.push(ls);
                i = i + 1;
            },
            Err(e) => {
                proof {
                    lemma_import_rings_err(s, i as int);
                }
                return Err(e);
            },
        }
    }
    let r = MultiLineStringZ(out);
    proof {
        assert(s.take(s.len() as int) =~= s);
        assert(r@ =~= imported);
    }
    Ok(r)
}

/// The polygon a ring list imports to: no ring gives the empty polygon,
/// ring 0 is the exterior, the remaining rings are the interiors in
/// order.  Rings are taken exactly as written; none is closed on the way
/// in.
pub fn create_geo_polygon<T: Copy>(polygon_type: &Vec<Vec<Vec<T>>>) -> (r: Result<
    PolygonZ<T>,
    Error,
>)
    ensures
        match r {
            Ok(p) => import_polygon_spec(rings_view(polygon_type@)) == Ok::<_, Error>(p@),
            Err(e) => import_polygon_spec(rings_view(polygon_type@)) == Err::<
                PolygonZView<T>,
                Error,
            >(e),
        },
{
    let ghost s = rings_view(polygon_type@);
    let mut rings: Vec<LineStringZ<T>> = Vec::new();
    let mut i: usize = 0;
    let ghost mut imported: Seq<Seq<CoordZ<T>>> = Seq::empty();
    proof {
        assert(s.take(0) =~= Seq::<Seq<Seq<T>>>::empty());
    }
    while i < polygon_type.len()
        invariant
            i <= polygon_type@.len(),
            s == rings_view(polygon_type@),
            s.len() == polygon_type@.len(),
            rings@.len() == i,
            imported.len() == i,
            forall|j: int| 0 <= j < i ==> imported[j] == rings@[j]@,
            import_rings_spec(s.take(i as int)) == Ok::<_, Error>(imported),
        decreases polygon_type@.len() - i,
    {
        match create_geo_line_string(&polygon_type[i]) {
            Ok(ls) => {
                proof {
                    assert(s.take(i as int + 1).drop_last() =~= s.take(i as int));
                    assert(s.take(i as int + 1).last() == s[i as int]);
                    imported = imported.push(ls@);
                }
                rings.push(ls);
                i = i + 1;
            },
            Err(e) => {
                proof {
                    lemma_import_rings_err(s, i as int);
                }
                return Err(e);
            },
        }
    }
    proof {
        assert(s.take(s.len() as int) =~= s);
        assert(imported =~= Seq::new(rings@.len(), |j: int| rings@[j]@));
    }
    let r = PolygonZ::from_rings(rings);
    Ok(r)
}

/// The multi-polygon a list of ring lists imports to, members in order;
/// the first failing member fails the whole list.
pub fn create_geo_multi_polygon<T: Copy>(multi_polygon_type: &Vec<Vec<Vec<Vec<T>>>>) -> (r:
    Result<MultiPolygonZ<T>, Error>)
    ensures
        match r {
            Ok(mp) => import_polygons_spec(polygons_view(multi_polygon_type@)) == Ok::<
                _,
                Error,
            >(mp@),
            Err(e) => import_polygons_spec(polygons_view(multi_polygon_type@)) == Err::<
                Seq<PolygonZView<T>>,
                Error,
            >(e),
        },
{
    let ghost s = polygons_view(multi_polygon_type@);
    let mut out: Vec<PolygonZ<T>> = Vec::new();
    let mut i: usize = 0;
    let ghost mut imported: Seq<PolygonZView<T>> = Seq::empty();
    proof {
        assert(s.take(0) =~= Seq::<Seq<Seq<Seq<T>>>>::empty());
    }
    while i < multi_polygon_type.len()
        invariant
            i <= multi_polygon_type@.len(),
            s == polygons_view(multi_polygon_type@),
            s.len() == multi_polygon_type@.len(),
            out@.len() == i,
            imported.len() == i,
            forall|j: int| 0 <= j < i ==> imported[j] == out@[j]@,
            import_polygons_spec(s.take(i as int)) == Ok::<_, Error>(imported),
        decreases multi_polygon_type@.len() - i,
    {
        match create_geo_polygon(&multi_polygon_type[i]) {
            Ok(p) => {
                proof {
                    assert(s.take(i as int + 1).drop_last() =~= s.take(i as int));
                    assert(s.take(i as int + 1).last() == s[i as int]);
                    imported = imported.push(p@);
                }
                out.push(p);
                i = i + 1;
            },
            Err(e) => {
                proof {
                    lemma_import_polygons_err(s, i as int);
                }
                return Err(e);
            },
        }
    }
    let r = MultiPolygonZ(out);
    proof {
        assert(s.take(s.len() as int) =~= s);
        assert(r@ =~= imported);
    }
    Ok(r)
}


/// What importing a value as a concrete point yields: the point, or a
/// kind mismatch naming `Point` and the kind found, or the failing
/// position's error.
pub open spec fn import_point_z_spec<T>(v: ValueView<T>) -> Result<PointZ<T>, Error> {
    match v {
        ValueView::Point(p) => match import_position_spec(p) {
            Ok(c) => Ok(PointZ(c)),
            Err(e) => Err(e),
        },
        _ => Err(mismatch_spec(ValueKind::Point, v)),
    }
}

/// What importing a value as a concrete multi-point yields.
pub open spec fn import_multi_point_z_spec<T>(v: ValueView<T>) -> Result<Seq<PointZ<T>>, Error> {
    match v {
        ValueView::MultiPoint(s) => import_points_spec(s),
        _ => Err(mismatch_spec(ValueKind::MultiPoint, v)),
    }
}

/// What importing a value as a concrete line string yields.
pub open spec fn import_line_string_z_spec<T>(v: ValueView<T>) -> Result<Seq<CoordZ<T>>, Error> {
    match v {
        ValueView::LineString(s) => import_positions_spec(s),
        _ => Err(mismatch_spec(ValueKind::LineString, v)),
    }
}

/// What importing a value as a concrete multi-line-string yields.
pub open spec fn import_multi_line_string_z_spec<T>(v: ValueView<T>) -> Result<
    Seq<Seq<CoordZ<T>>>,
    Error,
> {
    match v {
        ValueView::MultiLineString(s) => import_rings_spec(s),
        _ => Err(mismatch_spec(ValueKind::MultiLineString, v)),
    }
}

/// What importing a value as a concrete polygon yields.
pub open spec fn import_polygon_z_spec<T>(v: ValueView<T>) -> Result<PolygonZView<T>, Error> {
    match v {
        ValueView::Polygon(s) => import_polygon_spec(s),
        _ => Err(mismatch_spec(ValueKind::Polygon, v)),
    }
}

/// What importing a value as a concrete multi-polygon yields.
pub open spec fn import_multi_polygon_z_spec<T>(v: ValueView<T>) -> Result<
    Seq<PolygonZView<T>>,
    Error,
> {
    match v {
        ValueView::MultiPolygon(s) => import_polygons_spec(s),
        _ => Err(mismatch_spec(ValueKind::MultiPolygon, v)),
    }
}

/// What importing a value as a concrete geometry collection yields.
pub open spec fn import_geometry_collection_spec<T>(v: ValueView<T>) -> Result<
    Seq<GeometryView<T>>,
    Error,
> {
    match v {
        ValueView::GeometryCollection(s) => import_geometries_spec(s),
        _ => Err(mismatch_spec(ValueKind::GeometryCollection, v)),
    }
}

impl<T: Copy> PointZ<T> {
    /// Imports an interchange value as a point.  Only a value tagged
    /// `Point` is accepted; any other kind fails with a mismatch naming
    /// both kinds, and no coercion is attempted.
    pub fn try_from(value: &Value<T>) -> (r: Result<Self, Error>)
        ensures
            r == import_point_z_spec(value@),
    {
        match value {
            Value::Point(point_type) => create_geo_point(point_type),
            other => Err(mismatch_geom_err(ValueKind::Point, other)),
        }
    }

    /// Imports a feature's geometry as a point; a feature without
    /// geometry fails with `FeatureHasNoGeometry`.
    pub fn try_from_feature(feature: Feature<T>) -> (r: Result<Self, Error>)
        ensures
            match feature@.geometry {
                Option::None => r == Err::<PointZ<T>, Error>(Error::FeatureHasNoGeometry),
                Option::Some(v) => r == import_point_z_spec(v),
            },
    {
        match feature.geometry {
            Option::None => Err(Error::FeatureHasNoGeometry),
            Option::Some(v) => Self::try_from(&v),
        }
    }
}

impl<T: Copy> MultiPointZ<T> {
    /// Imports an interchange value as a multi-point.  Only a value
    /// tagged `MultiPoint` is accepted.
    pub fn try_from(value: &Value<T>) -> (r: Result<Self, Error>)
        ensures
            match r {
                Ok(mp) => import_multi_point_z_spec(value@) == Ok::<_, Error>(mp@),
                Err(e) => import_multi_point_z_spec(value@) == Err::<Seq<PointZ<T>>, Error>(e),
            },
    {
        match value {
            Value::MultiPoint(multi_point_type) => create_geo_multi_point(multi_point_type),
            other => Err(mismatch_geom_err(ValueKind::MultiPoint, other)),
        }
    }

    /// Imports a feature's geometry as a multi-point; a feature without
    /// geometry fails with `FeatureHasNoGeometry`.
    pub fn try_from_feature(feature: Feature<T>) -> (r: Result<Self, Error>)
        ensures
            match feature@.geometry {
                Option::None => r == Err::<MultiPointZ<T>, Error>(Error::FeatureHasNoGeometry),
                Option::Some(v) => match r {
                    Ok(mp) => import_multi_point_z_spec(v) == Ok::<_, Error>(mp@),
                    Err(e) => import_multi_point_z_spec(v) == Err::<Seq<PointZ<T>>, Error>(e),
                },
            },
    {
        match feature.geometry {
            Option::None => Err(Error::FeatureHasNoGeometry),
            Option::Some(v) => Self::try_from(&v),
        }
    }
}

impl<T: Copy> LineStringZ<T> {
    /// Imports an interchange value as a line string.  Only a value
    /// tagged `LineString` is accepted.
    pub fn try_from(value: &Value<T>) -> (r: Result<Self, Error>)
        ensures
            match r {
                Ok(ls) => import_line_string_z_spec(value@) == Ok::<_, Error>(ls@),
                Err(e) => import_line_string_z_spec(value@) == Err::<Seq<CoordZ<T>>, Error>(e),
            },
    {
        match value {
            Value::LineString(line_type) => create_geo_line_string(line_type),
            other => Err(mismatch_geom_err(ValueKind::LineString, other)),
        }
    }

    /// Imports a feature's geometry as a line string; a feature without
    /// geometry fails with `FeatureHasNoGeometry`.
    pub fn try_from_feature(feature: Feature<T>) -> (r: Result<Self, Error>)
        ensures
            match feature@.geometry {
                Option::None => r == Err::<LineStringZ<T>, Error>(Error::FeatureHasNoGeometry),
                Option::Some(v) => match r {
                    Ok(ls) => import_line_string_z_spec(v) == Ok::<_, Error>(ls@),
                    Err(e) => import_line_string_z_spec(v) == Err::<Seq<CoordZ<T>>, Error>(e),
                },
            },
    {
        match feature.geometry {
            Option::None => Err(Error::FeatureHasNoGeometry),
            Option::Some(v) => Self::try_from(&v),
        }
    }
}

impl<T: Copy> MultiLineStringZ<T> {
    /// Imports an interchange value as a multi-line-string.  Only a value
    /// tagged `MultiLineString` is accepted.
    pub fn try_from(value: &Value<T>) -> (r: Result<Self, Error>)
        ensures
            match r {
                Ok(mls) => import_multi_line_string_z_spec(value@) == Ok::<_, Error>(mls@),
                Err(e) => import_multi_line_string_z_spec(value@) == Err::<
                    Seq<Seq<CoordZ<T>>>,
                    Error,
                >(e),
            },
    {
        match value {
            Value::MultiLineString(multi_line_type) => create_geo_multi_line_string(
                multi_line_type,
            ),
            other => Err(mismatch_geom_err(ValueKind::MultiLineString, other)),
        }
    }

    /// Imports a feature's geometry as a multi-line-string; a feature
    /// without geometry fails with `FeatureHasNoGeometry`.
    pub fn try_from_feature(feature: Feature<T>) -> (r: Result<Self, Error>)
        ensures
            match feature@.geometry {
                Option::None => r == Err::<MultiLineStringZ<T>, Error>(
                    Error::FeatureHasNoGeometry,
                ),
                Option::Some(v) => match r {
                    Ok(mls) => import_multi_line_string_z_spec(v) == Ok::<_, Error>(mls@),
                    Err(e) => import_multi_line_string_z_spec(v) == Err::<
                        Seq<Seq<CoordZ<T>>>,
                        Error,
                    >(e),
                },
            },
    {
        match feature.geometry {
            Option::None => Err(Error::FeatureHasNoGeometry),
            Option::Some(v) => Self::try_from(&v),
        }
    }
}

impl<T: Copy> PolygonZ<T> {
    /// Imports an interchange value as a polygon.  Only a value tagged
    /// `Polygon` is accepted; an empty ring list yields the polygon with
    /// an empty exterior and no interiors.
    pub fn try_from(value: &Value<T>) -> (r: Result<Self, Error>)
        ensures
            match r {
                Ok(p) => import_polygon_z_spec(value@) == Ok::<_, Error>(p@),
                Err(e) => import_polygon_z_spec(value@) == Err::<PolygonZView<T>, Error>(e),
            },
    {
        match value {
            Value::Polygon(polygon_type) => create_geo_polygon(polygon_type),
            other => Err(mismatch_geom_err(ValueKind::Polygon, other)),
        }
    }

    /// Imports a feature's geometry as a polygon; a feature without
    /// geometry fails with `FeatureHasNoGeometry`.
    pub fn try_from_feature(feature: Feature<T>) -> (r: Result<Self, Error>)
        ensures
            match feature@.geometry {
                Option::None => r == Err::<PolygonZ<T>, Error>(Error::FeatureHasNoGeometry),
                Option::Some(v) => match r {
                    Ok(p) => import_polygon_z_spec(v) == Ok::<_, Error>(p@),
                    Err(e) => import_polygon_z_spec(v) == Err::<PolygonZView<T>, Error>(e),
                },
            },
    {
        match feature.geometry {
            Option::None => Err(Error::FeatureHasNoGeometry),
            Option::Some(v) => Self::try_from(&v),
        }
    }
}

impl<T: Copy> MultiPolygonZ<T> {
    /// Imports an interchange value as a multi-polygon.  Only a value
    /// tagged `MultiPolygon` is accepted.
    pub fn try_from(value: &Value<T>) -> (r: Result<Self, Error>)
        ensures
            match r {
                Ok(mp) => import_multi_polygon_z_spec(value@) == Ok::<_, Error>(mp@),
                Err(e) => import_multi_polygon_z_spec(value@) == Err::<
                    Seq<PolygonZView<T>>,
                    Error,
                >(e),
            },
    {
        match value {
            Value::MultiPolygon(multi_polygon_type) => create_geo_multi_polygon(
                multi_polygon_type,
            ),
            other => Err(mismatch_geom_err(ValueKind::MultiPolygon, other)),
        }
    }

    /// Imports a feature's geometry as a multi-polygon; a feature without
    /// geometry fails with `FeatureHasNoGeometry`.
    pub fn try_from_feature(feature: Feature<T>) -> (r: Result<Self, Error>)
        ensures
            match feature@.geometry {
                Option::None => r == Err::<MultiPolygonZ<T>, Error>(Error::FeatureHasNoGeometry),
                Option::Some(v) => match r {
                    Ok(mp) => import_multi_polygon_z_spec(v) == Ok::<_, Error>(mp@),
                    Err(e) => import_multi_polygon_z_spec(v) == Err::<
                        Seq<PolygonZView<T>>,
                        Error,
                    >(e),
                },
            },
    {
        match feature.geometry {
            Option::None => Err(Error::FeatureHasNoGeometry),
            Option::Some(v) => Self::try_from(&v),
        }
    }
}

impl<T: Copy> Geometry<T> {
    /// Imports an interchange value as a geometry, dispatching on its
    /// kind tag.  Every kind imports into its current three-axis
    /// variant; a collection imports its members recursively and fails
    /// fast with the first member's error, returning no partial
    /// collection.
    #[verifier::loop_isolation(false)]
    pub fn try_from(value: &Value<T>) -> (r: Result<Self, Error>)
        ensures
            match r {
                Ok(g) => import_geometry_spec(value@) == Ok::<_, Error>(g@),
                Err(e) => import_geometry_spec(value@) == Err::<GeometryView<T>, Error>(e),
            },
        decreases value,
    {
        match value {
            Value::Point(point_type) => match create_geo_point(point_type) {
                Ok(p) => Ok(Geometry::PointZ(p)),
                Err(e) => Err(e),
            },
            Value::MultiPoint(multi_point_type) => match create_geo_multi_point(
                multi_point_type,
            ) {
                Ok(mp) => Ok(Geometry::MultiPointZ(mp)),
                Err(e) => Err(e),
            },
            Value::LineString(line_type) => match create_geo_line_string(line_type) {
                Ok(ls) => Ok(Geometry::LineStringZ(ls)),
                Err(e) => Err(e),
            },
            Value::MultiLineString(multi_line_type) => match create_geo_multi_line_string(
                multi_line_type,
            ) {
                Ok(mls) => Ok(Geometry::MultiLineStringZ(mls)),
                Err(e) => Err(e),
            },
            Value::Polygon(polygon_type) => match create_geo_polygon(polygon_type) {
                Ok(p) => Ok(Geometry::PolygonZ(p)),
                Err(e) => Err(e),
            },
            Value::MultiPolygon(multi_polygon_type) => match create_geo_multi_polygon(
                multi_polygon_type,
            ) {
                Ok(mp) => Ok(Geometry::MultiPolygonZ(mp)),
                Err(e) => Err(e),
            },
            Value::GeometryCollection(gs) => {
                let ghost s = value_seq_view(gs@);
                proof {
                    lemma_value_seq_view(gs@);
                    assert(s.take(0) =~= Seq::<ValueView<T>>::empty());
                }
                let mut out: Vec<Geometry<T>> = Vec::new();
                let ghost mut imported: Seq<GeometryView<T>> = Seq::empty();
                let mut i: usize = 0;
                while i < gs.len()
                    invariant
                        i <= gs@.len(),
                        out@.len() == i,
                        imported.len() == i,
                        forall|j: int| 0 <= j < i ==> imported[j] == out@[j]@,
                        import_geometries_spec(s.take(i as int)) == Ok::<_, Error>(imported),
                    decreases gs@.len() - i,
                {
                    proof {
                        assert(decreases_to!(*value => value->GeometryCollection_0));
                        assert(value->GeometryCollection_0 == *gs);
                        assert(decreases_to!(*gs => gs@));
                        assert(decreases_to!(gs@ => gs@[i as int]));
                    }
                    match Self::try_from(&gs[i]) {
                        Ok(g) => {
                            proof {
                                assert(s.take(i as int + 1).drop_last() =~= s.take(i as int));
                                assert(s.take(i as int + 1).last() == s[i as int]);
                                imported = imported.push(g@);
                            }
                            out.push(g);
                            i = i + 1;
                        },
                        Err(e) => {
                            proof {
                                lemma_import_geometries_err(s, i as int);
                            }
                            return Err(e);
                        },
                    }
                }
                let r = GeometryCollection(out);
                proof {
                    assert(s.take(s.len() as int) =~= s);
                    lemma_geometry_seq_view(r.0@);
                    assert(r@ =~= imported);
                }
                Ok(Geometry::GeometryCollection(r))
            },
        }
    }

    /// Imports a feature's geometry; a feature without geometry fails
    /// with `FeatureHasNoGeometry`.
    pub fn try_from_feature(feature: Feature<T>) -> (r: Result<Self, Error>)
        ensures
            match r {
                Ok(g) => import_feature_spec(feature@) == Ok::<_, Error>(g@),
                Err(e) => import_feature_spec(feature@) == Err::<GeometryView<T>, Error>(e),
            },
    {
        match feature.geometry {
            Option::None => Err(Error::FeatureHasNoGeometry),
            Option::Some(v) => Self::try_from(&v),
        }
    }
}

/// Imports a run of features: each feature that carries a geometry
/// contributes it, in order; features without geometry are silently
/// dropped; the first failing import fails the whole run.
pub fn import_feature_list<T: Copy>(features: &Vec<Feature<T>>) -> (r: Result<
    GeometryCollection<T>,
    Error,
>)
    ensures
        match r {
            Ok(gc) => import_features_spec(feature_seq_view(features@)) == Ok::<_, Error>(gc@),
            Err(e) => import_features_spec(feature_seq_view(features@)) == Err::<
                Seq<GeometryView<T>>,
                Error,
            >(e),
        },
{
    let ghost s = feature_seq_view(features@);
    proof {
        lemma_feature_seq_view(features@);
        assert(s.take(0) =~= Seq::<FeatureView<T>>::empty());
    }
    let mut out: Vec<Geometry<T>> = Vec::new();
    let ghost mut imported: Seq<GeometryView<T>> = Seq::empty();
    let mut i: usize = 0;
    while i < features.len()
        invariant
            i <= features@.len(),
            s == feature_seq_view(features@),
            s.len() == features@.len(),
            forall|j: int| 0 <= j < features@.len() ==> s[j] == features@[j]@,
            out@.len() == imported.len(),
            forall|j: int| 0 <= j < imported.len() ==> imported[j] == out@[j]@,
            import_features_spec(s.take(i as int)) == Ok::<_, Error>(imported),
        decreases features@.len() - i,
    {
        match &features[i].geometry {
            Option::None => {
                proof {
                    assert(s.take(i as int + 1).drop_last() =~= s.take(i as int));
                    assert(s.take(i as int + 1).last() == s[i as int]);
                }
                i = i + 1;
            },
            Option::Some(v) => {
                match Geometry::try_from(v) {
                    Ok(g) => {
                        proof {
                            assert(s.take(i as int + 1).drop_last() =~= s.take(i as int));
                            assert(s.take(i as int + 1).last() == s[i as int]);
                            imported = imported.push(g@);
                        }
                        out.push(g);
                        i = i + 1;
                    },
                    Err(e) => {
                        proof {
                            lemma_import_features_err(s, i as int);
                        }
                        return Err(e);
                    },
                }
            },
        }
    }
    let r = GeometryCollection(out);
    proof {
        assert(s.take(s.len() as int) =~= s);
        lemma_geometry_seq_view(r.0@);
        assert(r@ =~= imported);
    }
    Ok(r)
}

impl<T: Copy> GeometryCollection<T> {
    /// Imports an interchange value as a geometry collection.  Only a
    /// value tagged `GeometryCollection` is accepted; its members import
    /// recursively, failing fast with the first member's error.
    pub fn try_from(value: &Value<T>) -> (r: Result<Self, Error>)
        ensures
            match r {
                Ok(gc) => import_geometry_collection_spec(value@) == Ok::<_, Error>(gc@),
                Err(e) => import_geometry_collection_spec(value@) == Err::<
                    Seq<GeometryView<T>>,
                    Error,
                >(e),
            },
    {
        match value {
            Value::GeometryCollection(_) => match Geometry::try_from(value) {
                Ok(g) => match g {
                    Geometry::GeometryCollection(gc) => Ok(gc),
                    // Impossible: a collection-tagged value imports to the
                    // collection variant.
                    _ => {
                        proof {
                            assert(false);
                        }
                        Err(Error::FeatureHasNoGeometry)
                    },
                },
                Err(e) => Err(e),
            },
            other => Err(mismatch_geom_err(ValueKind::GeometryCollection, other)),
        }
    }

    /// Imports a feature's geometry as a geometry collection; a feature
    /// without geometry fails with `FeatureHasNoGeometry`.
    pub fn try_from_feature(feature: Feature<T>) -> (r: Result<Self, Error>)
        ensures
            match feature@.geometry {
                Option::None => r == Err::<GeometryCollection<T>, Error>(
                    Error::FeatureHasNoGeometry,
                ),
                Option::Some(v) => match r {
                    Ok(gc) => import_geometry_collection_spec(v) == Ok::<_, Error>(gc@),
                    Err(e) => import_geometry_collection_spec(v) == Err::<
                        Seq<GeometryView<T>>,
                        Error,
                    >(e),
                },
            },
    {
        match feature.geometry {
            Option::None => Err(Error::FeatureHasNoGeometry),
            Option::Some(v) => Self::try_from(&v),
        }
    }

    /// Imports a whole document as a geometry collection.  A feature
    /// collection contributes the geometries of the features that have
    /// one, silently dropping the rest; a single feature without
    /// geometry imports as the empty collection — deliberately not an
    /// error, unlike the same feature imported as a concrete type; a
    /// bare geometry imports as a one-member collection.
    pub fn try_from_geo_json(gj: &GeoJson<T>) -> (r: Result<Self, Error>)
        ensures
            match r {
                Ok(gc) => import_collection_from_geo_json_spec(gj@) == Ok::<_, Error>(gc@),
                Err(e) => import_collection_from_geo_json_spec(gj@) == Err::<
                    Seq<GeometryView<T>>,
                    Error,
                >(e),
            },
    {
        match gj {
            GeoJson::FeatureCollection(features) => import_feature_list(features),
            GeoJson::Feature(feature) => match &feature.geometry {
                Option::None => Ok(GeometryCollection::empty()),
                Option::Some(v) => match Geometry::try_from(v) {
                    Ok(g) => {
                        let mut out: Vec<Geometry<T>> = Vec::new();
                        out.push(g);
                        let r = GeometryCollection(out);
                        proof {
                            lemma_geometry_seq_view(r.0@);
                            assert(r@ =~= seq![g@]);
                        }
                        Ok(r)
                    },
                    Err(e) => Err(e),
                },
            },
            GeoJson::Geometry(v) => match Geometry::try_from(v) {
                Ok(g) => {
                    let mut out: Vec<Geometry<T>> = Vec::new();
                    out.push(g);
                    let r = GeometryCollection(out);
                    proof {
                        lemma_geometry_seq_view(r.0@);
                        assert(r@ =~= seq![g@]);
                    }
                    Ok(r)
                },
                Err(e) => Err(e),
            },
        }
    }
}

impl<T: Copy> Geometry<T> {
    /// Imports a feature collection as a single geometry: the geometry
    /// collection wrapping the imported features.  This path succeeds
    /// whenever the member imports do.
    pub fn try_from_feature_collection(features: &Vec<Feature<T>>) -> (r: Result<Self, Error>)
        ensures
            match r {
                Ok(g) => match import_features_spec(feature_seq_view(features@)) {
                    Ok(gs) => g@ == GeometryView::GeometryCollection(gs),
                    Err(_) => false,
                },
                Err(e) => import_features_spec(feature_seq_view(features@)) == Err::<
                    Seq<GeometryView<T>>,
                    Error,
                >(e),
            },
    {
        match import_feature_list(features) {
            Ok(gc) => Ok(Geometry::GeometryCollection(gc)),
            Err(e) => Err(e),
        }
    }

    /// Imports a whole document as a single geometry: a bare geometry
    /// imports directly, a feature through its geometry, a feature
    /// collection as a wrapped geometry collection.
    pub fn try_from_geo_json(gj: &GeoJson<T>) -> (r: Result<Self, Error>)
        ensures
            match r {
                Ok(g) => import_geometry_from_geo_json_spec(gj@) == Ok::<_, Error>(g@),
                Err(e) => import_geometry_from_geo_json_spec(gj@) == Err::<
                    GeometryView<T>,
                    Error,
                >(e),
            },
    {
        match gj {
            GeoJson::Geometry(v) => Geometry::try_from(v),
            GeoJson::Feature(feature) => match &feature.geometry {
                Option::None => Err(Error::FeatureHasNoGeometry),
                Option::Some(v) => Geometry::try_from(v),
            },
            GeoJson::FeatureCollection(features) => Self::try_from_feature_collection(features),
        }
    }
}

} // verus!
