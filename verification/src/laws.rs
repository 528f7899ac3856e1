use vstd::prelude::*;

use crate::coord_z::CoordZ;
use crate::export::export_coord_z;
use crate::export::export_geometries_spec;
use crate::export::export_geometry_spec;
use crate::export::export_polygon_z;
use crate::export::export_ring_z;
use crate::geometry::GeometryView;
use crate::import::import_geometries_spec;
use crate::import::import_geometry_spec;
use crate::import::import_points_spec;
use crate::import::import_polygon_spec;
use crate::import::import_polygons_spec;
use crate::import::import_position_spec;
use crate::import::import_positions_spec;
use crate::import::import_rings_spec;
use crate::line_string_z::is_closed_ring;
use crate::point_z::PointZ;
use crate::polygon_z::lemma_ring_flatten_unflatten;
use crate::polygon_z::rings_of;
use crate::polygon_z::PolygonZView;

verus! {

/// Whether a geometry uses only the variants that the interchange shape
/// can carry back: the three-axis point, line string, polygon and their
/// multi forms, and the collection.  The legacy two-axis variants, the
/// axis-aligned box and the two-coordinate segment fall outside: each of
/// them exports to a shape that imports as a different variant.
pub open spec fn uses_current_variants<T>(g: GeometryView<T>) -> bool
    decreases g,
{
    match g {
        GeometryView::PointZ(_) => true,
        GeometryView::LineStringZ(_) => true,
        GeometryView::PolygonZ(_) => true,
        GeometryView::MultiPointZ(_) => true,
        GeometryView::MultiLineStringZ(_) => true,
        GeometryView::MultiPolygonZ(_) => true,
        GeometryView::GeometryCollection(s) => all_use_current_variants(s),
        _ => false,
    }
}

/// Whether every geometry in a run uses only the current variants.
pub open spec fn all_use_current_variants<T>(s: Seq<GeometryView<T>>) -> bool
    decreases s,
{
    s.len() == 0 || (all_use_current_variants(s.drop_last()) && uses_current_variants(s.last()))
}

/// Whether every polygon ring in a geometry is already closed.
pub open spec fn polygon_rings_closed<T>(g: GeometryView<T>) -> bool
    decreases g,
{
    match g {
        GeometryView::PolygonZ(p) => polygon_view_rings_closed(p),
        GeometryView::MultiPolygonZ(ps) => forall|i: int|
            0 <= i < ps.len() ==> polygon_view_rings_closed(ps[i]),
        GeometryView::GeometryCollection(s) => all_polygon_rings_closed(s),
        _ => true,
    }
}

/// Whether a polygon's exterior and every interior are closed rings.
pub open spec fn polygon_view_rings_closed<T>(p: PolygonZView<T>) -> bool {
    is_closed_ring(p.exterior) && forall|i: int|
        0 <= i < p.interiors.len() ==> is_closed_ring(p.interiors[i])
}

/// Whether every polygon ring in a run of geometries is already closed.
pub open spec fn all_polygon_rings_closed<T>(s: Seq<GeometryView<T>>) -> bool
    decreases s,
{
    s.len() == 0 || (all_polygon_rings_closed(s.drop_last()) && polygon_rings_closed(s.last()))
}

/// Importing the exported position of a coordinate gives the coordinate
/// back.
proof fn lemma_position_round_trip<T>(c: CoordZ<T>)
    ensures
        import_position_spec(export_coord_z(c)) == Ok::<CoordZ<T>, crate::error::Error>(c),
{
}

/// Importing the exported position list of a coordinate run gives the run
/// back.
proof fn lemma_positions_round_trip<T>(s: Seq<CoordZ<T>>)
    ensures
        import_positions_spec(export_ring_z(s)) == Ok::<
            Seq<CoordZ<T>>,
            crate::error::Error,
        >(s),
    decreases s.len(),
{
    if s.len() == 0 {
        assert(export_ring_z(s) =~= Seq::<Seq<T>>::empty());
        assert(s =~= Seq::<CoordZ<T>>::empty());
    } else {
        lemma_positions_round_trip(s.drop_last());
        assert(export_ring_z(s).drop_last() =~= export_ring_z(s.drop_last()));
        assert(export_ring_z(s).last() == export_coord_z(s.last()));
        lemma_position_round_trip(s.last());
        assert(s.drop_last().push(s.last()) =~= s);
    }
}

/// Importing the exported positions of a point run gives the points back.
proof fn lemma_points_round_trip<T>(s: Seq<PointZ<T>>)
    ensures
        import_points_spec(Seq::new(s.len(), |i: int| export_coord_z(s[i].0))) == Ok::<
            Seq<PointZ<T>>,
            crate::error::Error,
        >(s),
{
    let cs = Seq::new(s.len(), |i: int| s[i].0);
    lemma_positions_round_trip(cs);
    assert(Seq::new(s.len(), |i: int| export_coord_z(s[i].0)) =~= export_ring_z(cs));
    assert(Seq::new(cs.len(), |i: int| PointZ(cs[i])) =~= s);
}

/// Importing the exported ring list of a ring run gives the rings back.
proof fn lemma_rings_round_trip<T>(rs: Seq<Seq<CoordZ<T>>>)
    ensures
        import_rings_spec(Seq::new(rs.len(), |i: int| export_ring_z(rs[i]))) == Ok::<
            Seq<Seq<CoordZ<T>>>,
            crate::error::Error,
        >(rs),
    decreases rs.len(),
{
    let ex = Seq::new(rs.len(), |i: int| export_ring_z(rs[i]));
    if rs.len() == 0 {
        assert(ex =~= Seq::<Seq<Seq<T>>>::empty());
        assert(rs =~= Seq::<Seq<CoordZ<T>>>::empty());
    } else {
        lemma_rings_round_trip(rs.drop_last());
        assert(ex.drop_last() =~= Seq::new(
            rs.drop_last().len(),
            |i: int| export_ring_z(rs.drop_last()[i]),
        ));
        assert(ex.last() == export_ring_z(rs.last()));
        lemma_positions_round_trip(rs.last());
        assert(rs.drop_last().push(rs.last()) =~= rs);
    }
}

/// Importing the exported ring list of a polygon gives the polygon back.
proof fn lemma_polygon_round_trip<T>(p: PolygonZView<T>)
    ensures
        import_polygon_spec(export_polygon_z(p)) == Ok::<
            PolygonZView<T>,
            crate::error::Error,
        >(p),
{
    let rings = rings_of(p);
    lemma_rings_round_trip(rings);
    assert(export_polygon_z(p) =~= Seq::new(rings.len(), |i: int| export_ring_z(rings[i])));
    lemma_ring_flatten_unflatten(p);
}

/// Importing the exported ring lists of a polygon run gives the polygons
/// back.
proof fn lemma_polygons_round_trip<T>(ps: Seq<PolygonZView<T>>)
    ensures
        import_polygons_spec(Seq::new(ps.len(), |i: int| export_polygon_z(ps[i]))) == Ok::<
            Seq<PolygonZView<T>>,
            crate::error::Error,
        >(ps),
    decreases ps.len(),
{
    let ex = Seq::new(ps.len(), |i: int| export_polygon_z(ps[i]));
    if ps.len() == 0 {
        assert(ex =~= Seq::<Seq<Seq<Seq<T>>>>::empty());
        assert(ps =~= Seq::<PolygonZView<T>>::empty());
    } else {
        lemma_polygons_round_trip(ps.drop_last());
        assert(ex.drop_last() =~= Seq::new(
            ps.drop_last().len(),
            |i: int| export_polygon_z(ps.drop_last()[i]),
        ));
        assert(ex.last() == export_polygon_z(ps.last()));
        lemma_polygon_round_trip(ps.last());
        assert(ps.drop_last().push(ps.last()) =~= ps);
    }
}

/// Law: for every geometry that uses only the current variants and whose
/// polygon rings are already closed, importing its exported interchange
/// value yields the geometry back, exactly.
pub proof fn lemma_export_import_round_trip<T>(g: GeometryView<T>)
    requires
        uses_current_variants(g),
        polygon_rings_closed(g),
    ensures
        import_geometry_spec(export_geometry_spec(g)) == Ok::<
            GeometryView<T>,
            crate::error::Error,
        >(g),
    decreases g,
{
    match g {
        GeometryView::PointZ(p) => {
            lemma_position_round_trip(p.0);
        },
        GeometryView::LineStringZ(s) => {
            lemma_positions_round_trip(s);
        },
        GeometryView::PolygonZ(p) => {
            lemma_polygon_round_trip(p);
        },
        GeometryView::MultiPointZ(s) => {
            lemma_points_round_trip(s);
        },
        GeometryView::MultiLineStringZ(s) => {
            lemma_rings_round_trip(s);
        },
        GeometryView::MultiPolygonZ(s) => {
            lemma_polygons_round_trip(s);
        },
        GeometryView::GeometryCollection(s) => {
            lemma_collection_round_trip(s);
        },
        _ => {},
    }
}

/// Law, lifted to a run of geometries: exporting and importing member by
/// member gives the run back.
pub proof fn lemma_collection_round_trip<T>(s: Seq<GeometryView<T>>)
    requires
        all_use_current_variants(s),
        all_polygon_rings_closed(s),
    ensures
        import_geometries_spec(export_geometries_spec(s)) == Ok::<
            Seq<GeometryView<T>>,
            crate::error::Error,
        >(s),
    decreases s,
{
    if s.len() == 0 {
        assert(s =~= Seq::<GeometryView<T>>::empty());
    } else {
        lemma_collection_round_trip(s.drop_last());
        lemma_export_import_round_trip(s.last());
        let ex = export_geometries_spec(s);
        assert(ex.drop_last() =~= export_geometries_spec(s.drop_last()));
        assert(ex.last() == export_geometry_spec(s.last()));
        assert(s.drop_last().push(s.last()) =~= s);
    }
}

} // verus!
