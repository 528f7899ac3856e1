use geo_types_3d::CoordZ;
use geo_types_3d::Geometry;
use geo_types_3d::GeometryCollection;
use geo_types_3d::LineStringZ;
use geo_types_3d::MultiLineStringZ;
use geo_types_3d::MultiPointZ;
use geo_types_3d::MultiPolygonZ;
use geo_types_3d::PointZ;
use geo_types_3d::PolygonZ;

fn c(x: i64, y: i64, z: i64) -> CoordZ<i64> {
    CoordZ { x, y, z }
}

#[test]
fn polygon_no_holes() {
    let polygon = PolygonZ::new(
        LineStringZ::new(vec![c(1, 2, 3), c(3, 4, 5), c(5, 6, 7)]),
        vec![],
    );
    assert_eq!("POLYGON Z((1 2 3,3 4 5,5 6 7,1 2 3))", polygon.wkt_string());
}

#[test]
fn polygon_with_hole() {
    let polygon = PolygonZ::new(
        LineStringZ::new(vec![
            c(1, 1, 1),
            c(10, 1, 10),
            c(10, 10, 10),
            c(1, 10, 1),
            c(1, 1, 1),
        ]),
        vec![LineStringZ::new(vec![
            c(3, 3, 3),
            c(7, 3, 7),
            c(7, 7, 7),
            c(3, 7, 3),
            c(3, 3, 3),
        ])],
    );
    assert_eq!(
        "POLYGON Z((1 1 1,10 1 10,10 10 10,1 10 1,1 1 1),(3 3 3,7 3 7,7 7 7,3 7 3,3 3 3))",
        polygon.wkt_string()
    );
}

#[test]
fn polygon_with_multiple_holes() {
    let polygon = PolygonZ::new(
        LineStringZ::new(vec![
            c(0, 0, 0),
            c(10, 0, 10),
            c(10, 10, 10),
            c(0, 10, 10),
            c(0, 0, 0),
        ]),
        vec![
            LineStringZ::new(vec![c(2, 2, 2), c(4, 2, 4), c(4, 4, 4), c(2, 4, 4), c(2, 2, 2)]),
            LineStringZ::new(vec![c(6, 6, 6), c(8, 6, 8), c(8, 8, 8), c(6, 8, 8), c(6, 6, 6)]),
        ],
    );
    assert_eq!(
        "POLYGON Z((0 0 0,10 0 10,10 10 10,0 10 10,0 0 0),(2 2 2,4 2 4,4 4 4,2 4 4,2 2 2),(6 6 6,8 6 8,8 8 8,6 8 8,6 6 6))",
        polygon.wkt_string()
    );
}

#[test]
fn debug_empty_polygon() {
    let polygon: PolygonZ<i64> = PolygonZ::empty();
    assert_eq!("POLYGON Z EMPTY", polygon.wkt_string());
}

#[test]
fn multi_point_one_point() {
    let multi_point = MultiPointZ(vec![PointZ::new(1i64, 2, 3)]);
    assert_eq!("MULTIPOINT Z(1 2 3)", multi_point.wkt_string());
}

#[test]
fn multi_point_three_points() {
    let multi_point = MultiPointZ(vec![
        PointZ::new(1i64, 2, 3),
        PointZ::new(3, 4, 5),
        PointZ::new(5, 6, 7),
    ]);
    assert_eq!("MULTIPOINT Z(1 2 3,3 4 5,5 6 7)", multi_point.wkt_string());
}

#[test]
fn multilinestring_empty() {
    let multi_line_string: MultiLineStringZ<i64> = MultiLineStringZ::empty();
    assert_eq!("MULTILINESTRING Z EMPTY", multi_line_string.wkt_string());
}

#[test]
fn multi_line_string_one_line() {
    let multi_line_string = MultiLineStringZ(vec![LineStringZ::new(vec![c(1, 2, 3), c(3, 4, 5)])]);
    assert_eq!("MULTILINESTRING Z((1 2 3,3 4 5))", multi_line_string.wkt_string());
}

#[test]
fn multi_line_string_multiple_lines() {
    let multi_line_string = MultiLineStringZ(vec![
        LineStringZ::new(vec![c(1, 2, 3), c(3, 4, 5), c(5, 6, 7)]),
        LineStringZ::new(vec![c(7, 8, 9), c(9, 10, 11), c(11, 12, 13)]),
    ]);
    assert_eq!(
        "MULTILINESTRING Z((1 2 3,3 4 5,5 6 7),(7 8 9,9 10 11,11 12 13))",
        multi_line_string.wkt_string()
    );
}

#[test]
fn multi_line_string_multiple_lines_with_empty() {
    let multi_line_string = MultiLineStringZ(vec![
        LineStringZ::new(vec![c(1, 2, 3), c(3, 4, 5), c(5, 6, 7)]),
        LineStringZ::empty(),
        LineStringZ::new(vec![c(7, 8, 9), c(9, 10, 11), c(11, 12, 13)]),
    ]);
    assert_eq!(
        "MULTILINESTRING Z((1 2 3,3 4 5,5 6 7),EMPTY,(7 8 9,9 10 11,11 12 13))",
        multi_line_string.wkt_string()
    );
}

#[test]
fn multi_polygon_empty() {
    let multi_polygon: MultiPolygonZ<i64> = MultiPolygonZ::empty();
    assert_eq!("MULTIPOLYGON Z EMPTY", multi_polygon.wkt_string());
}

#[test]
fn multi_polygon_one_polygon() {
    let multi_polygon = MultiPolygonZ(vec![PolygonZ::new(
        LineStringZ::new(vec![c(1, 2, 3), c(3, 4, 5), c(5, 6, 7), c(1, 2, 3)]),
        vec![],
    )]);
    assert_eq!(
        "MULTIPOLYGON Z(((1 2 3,3 4 5,5 6 7,1 2 3)))",
        multi_polygon.wkt_string()
    );
}

#[test]
fn multi_polygon_multiple_polygons() {
    let multi_polygon = MultiPolygonZ(vec![
        PolygonZ::new(
            LineStringZ::new(vec![c(1, 2, 3), c(3, 4, 5), c(5, 6, 7), c(1, 2, 3)]),
            vec![],
        ),
        PolygonZ::new(
            LineStringZ::new(vec![c(7, 8, 9), c(9, 10, 11), c(11, 12, 13), c(7, 8, 9)]),
            vec![],
        ),
    ]);
    assert_eq!(
        "MULTIPOLYGON Z(((1 2 3,3 4 5,5 6 7,1 2 3)),((7 8 9,9 10 11,11 12 13,7 8 9)))",
        multi_polygon.wkt_string()
    );
}

#[test]
fn multi_polygon_with_holes() {
    let multi_polygon = MultiPolygonZ(vec![
        PolygonZ::new(
            LineStringZ::new(vec![
                c(1, 1, 1),
                c(10, 1, 10),
                c(10, 10, 10),
                c(1, 10, 10),
                c(1, 1, 1),
            ]),
            vec![],
        ),
        PolygonZ::new(
            LineStringZ::new(vec![
                c(20, 20, 20),
                c(30, 20, 30),
                c(30, 30, 30),
                c(20, 30, 30),
                c(20, 20, 20),
            ]),
            vec![LineStringZ::new(vec![
                c(22, 22, 22),
                c(28, 22, 28),
                c(28, 28, 28),
                c(22, 28, 28),
                c(22, 22, 22),
            ])],
        ),
    ]);
    assert_eq!(
        "MULTIPOLYGON Z(((1 1 1,10 1 10,10 10 10,1 10 10,1 1 1)),((20 20 20,30 20 30,30 30 30,20 30 30,20 20 20),(22 22 22,28 22 28,28 28 28,22 28 28,22 22 22)))",
        multi_polygon.wkt_string()
    );
}

#[test]
fn multi_polygon_with_holes_and_empty_polygon() {
    let multi_polygon = MultiPolygonZ(vec![
        PolygonZ::new(
            LineStringZ::new(vec![
                c(1, 1, 1),
                c(10, 1, 10),
                c(10, 10, 10),
                c(1, 10, 10),
                c(1, 1, 1),
            ]),
            vec![],
        ),
        PolygonZ::empty(),
        PolygonZ::new(
            LineStringZ::new(vec![
                c(20, 20, 20),
                c(30, 20, 30),
                c(30, 30, 30),
                c(20, 30, 30),
                c(20, 20, 20),
            ]),
            vec![LineStringZ::new(vec![
                c(22, 22, 22),
                c(28, 22, 28),
                c(28, 28, 28),
                c(22, 28, 28),
                c(22, 22, 22),
            ])],
        ),
    ]);
    assert_eq!(
        "MULTIPOLYGON Z(((1 1 1,10 1 10,10 10 10,1 10 10,1 1 1)),EMPTY,((20 20 20,30 20 30,30 30 30,20 30 30,20 20 20),(22 22 22,28 22 28,28 28 28,22 28 28,22 22 22)))",
        multi_polygon.wkt_string()
    );
}

#[test]
fn empty_geometry_collection() {
    let geometry_collection: GeometryCollection<i64> = GeometryCollection::default();
    assert_eq!("GEOMETRYCOLLECTION EMPTY", geometry_collection.wkt_string());
}

#[test]
fn geometry_collection_mixed_text() {
    let geometry_collection: GeometryCollection<i64> = GeometryCollection(vec![
        Geometry::PointZ(PointZ::new(1, 2, 3)),
        Geometry::LineStringZ(LineStringZ::new(vec![c(4, 5, 6), c(7, 8, 9)])),
    ]);
    assert_eq!(
        "GEOMETRYCOLLECTION(POINT Z(1 2 3),LINESTRING Z(4 5 6,7 8 9))",
        geometry_collection.wkt_string()
    );
}

#[test]
fn negative_coordinate_text() {
    let point = PointZ::new(-12i64, 0, 305);
    assert_eq!("POINT Z(-12 0 305)", point.wkt_string());
}
