use geo_types_3d::CoordZ;
use geo_types_3d::Geometry;
use geo_types_3d::GeometryCollection;
use geo_types_3d::Line;
use geo_types_3d::LineStringZ;
use geo_types_3d::LineZ;
use geo_types_3d::MultiPointZ;
use geo_types_3d::PointZ;
use geo_types_3d::PolygonZ;
use geo_types_3d::Rect;

#[test]
fn int_coord() {
    let coord = CoordZ { x: 1i64, y: 2, z: 3 };
    assert_eq!("COORD Z(1 2 3)", coord.wkt_string());
}

#[test]
fn int_point() {
    let point = PointZ::new(1i64, 2, 3);
    assert_eq!("POINT Z(1 2 3)", point.wkt_string());
}

#[test]
fn line() {
    let line_string = LineZ::new(CoordZ { x: 1i64, y: 2, z: 3 }, CoordZ { x: 4, y: 5, z: 6 });
    assert_eq!("LINE Z(1 2 3,4 5 6)", line_string.wkt_string());
}

#[test]
fn debug_line_string() {
    let line_string = LineStringZ::new(vec![
        CoordZ { x: 1i64, y: 2, z: 3 },
        CoordZ { x: 4, y: 5, z: 6 },
    ]);
    assert_eq!("LINESTRING Z(1 2 3,4 5 6)", line_string.wkt_string());
}

#[test]
fn line_string_with_single_element() {
    let line_string = LineStringZ::new(vec![CoordZ { x: 1i64, y: 2, z: 3 }]);
    assert_eq!("LINESTRING Z(1 2 3)", line_string.wkt_string());
}

#[test]
fn debug_empty_line_string() {
    let line_string = LineStringZ::<i64>::empty();
    assert_eq!("LINESTRING Z EMPTY", line_string.wkt_string());
}

#[test]
fn invalid_polygon_interior_but_no_exterior() {
    let interior = LineStringZ::new(vec![CoordZ { x: 1i64, y: 2, z: 3 }]);
    let polygon = PolygonZ::new(LineStringZ::empty(), vec![interior]);
    assert_eq!("POLYGON Z(EMPTY,(1 2 3))", polygon.wkt_string());
}

#[test]
fn multi_point_empty() {
    let multi_point: MultiPointZ<i64> = MultiPointZ::empty();
    assert_eq!("MULTIPOINT Z EMPTY", multi_point.wkt_string());
}

#[test]
fn geometry_collection_with_mixed_geometries() {
    let geometry_collection: GeometryCollection<i64> = GeometryCollection(vec![
        Geometry::PointZ(PointZ::new(1, 2, 3)),
        Geometry::LineZ(LineZ::new(
            CoordZ { x: 1, y: 2, z: 3 },
            CoordZ { x: 4, y: 5, z: 6 },
        )),
        Geometry::PolygonZ(PolygonZ::new(
            LineStringZ::new(vec![
                CoordZ { x: 0, y: 0, z: 0 },
                CoordZ { x: 1, y: 0, z: 0 },
                CoordZ { x: 1, y: 1, z: 0 },
                CoordZ { x: 0, y: 0, z: 0 },
            ]),
            vec![],
        )),
    ]);
    assert_eq!(
        "GEOMETRYCOLLECTION(POINT Z(1 2 3),LINE Z(1 2 3,4 5 6),POLYGON Z((0 0 0,1 0 0,1 1 0,0 0 0)))",
        geometry_collection.wkt_string()
    );
}

#[test]
fn legacy_geometry_text() {
    let g = Geometry::Rect(Rect {
        min: geo_types_3d::Coord { x: 1i64, y: 2 },
        max: geo_types_3d::Coord { x: 3, y: 4 },
    });
    assert_eq!("RECT(1 2,3 4)", g.wkt_string());

    let g = Geometry::Line(Line {
        start: geo_types_3d::Coord { x: 1i64, y: 2 },
        end: geo_types_3d::Coord { x: 3, y: 4 },
    });
    assert_eq!("LINE(1 2,3 4)", g.wkt_string());
}
