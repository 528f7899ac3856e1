use geo_types_3d::CoordZ;
use geo_types_3d::LineStringZ;
use geo_types_3d::LineZ;
use geo_types_3d::MultiLineStringZ;
use geo_types_3d::MultiPointZ;
use geo_types_3d::MultiPolygonZ;
use geo_types_3d::PointZ;
use geo_types_3d::PolygonZ;
use geo_types_3d::Triangle;

#[test]
fn test_point() {
    let p = PointZ::new(1.2, 3.4, 5.6);
    assert_eq!(p.x(), 1.2);
    assert_eq!(p.y(), 3.4);
    assert_eq!(p.z(), 5.6);

    let p = PointZ::from_coord(CoordZ { x: 1.2, y: 3.4, z: 5.6 });
    assert_eq!(p.x(), 1.2);
    assert_eq!(p.y(), 3.4);
    assert_eq!(p.z(), 5.6);
}

#[test]
fn test_line() {
    let ls = LineStringZ::new(vec![CoordZ { x: -1.2f32, y: 3.4f32, z: 0.0 }]);
    assert_eq!(ls.0[0], CoordZ { x: -1.2, y: 3.4, z: 0.0 });

    let ls = LineStringZ::new(vec![CoordZ { x: -1.2f32, y: 3.4f32, z: 0.0 }]);
    assert_eq!(ls.0[0], CoordZ { x: -1.2, y: 3.4, z: 0.0 });

    let ls = LineStringZ::new(vec![CoordZ { x: -1.2f32, y: 3.4f32, z: 0.0 }]);
    assert_eq!(ls.0[0], CoordZ { x: -1.2, y: 3.4, z: 0.0 });

    let ls = LineStringZ::new(vec![
        CoordZ { x: -1.2f32, y: 3.4f32, z: 0.0 },
        CoordZ { x: -5.6, y: 7.8, z: 0.0 },
    ]);
    assert_eq!(ls.0[0], CoordZ { x: -1.2, y: 3.4, z: 0.0 });
    assert_eq!(ls.0[1], CoordZ { x: -5.6, y: 7.8, z: 0.0 });
}

#[test]
fn test_polygon() {
    let p = PolygonZ::new(
        LineStringZ::new(vec![CoordZ { x: 1i64, y: 2, z: 0 }]),
        vec![LineStringZ::new(vec![CoordZ { x: 3i64, y: 4, z: 0 }])],
    );
    assert_eq!(p.exterior().0[0], CoordZ { x: 1, y: 2, z: 0 });
    assert_eq!(p.interiors()[0].0[0], CoordZ { x: 3, y: 4, z: 0 });

    let p = PolygonZ::new(
        LineStringZ::new(vec![CoordZ { x: 1i64, y: 2, z: 0 }]),
        vec![LineStringZ::new(vec![CoordZ { x: 3i64, y: 4, z: 0 }])],
    );
    assert_eq!(p.exterior().0[0], CoordZ { x: 1, y: 2, z: 0 });
    assert_eq!(p.interiors()[0].0[0], CoordZ { x: 3, y: 4, z: 0 });

    let p = PolygonZ::new(
        LineStringZ::new(vec![CoordZ { x: 1i64, y: 2, z: 0 }]),
        vec![LineStringZ::new(vec![CoordZ { x: 3i64, y: 4, z: 0 }])],
    );
    assert_eq!(p.exterior().0[0], CoordZ { x: 1, y: 2, z: 0 });
    assert_eq!(p.interiors()[0].0[0], CoordZ { x: 3, y: 4, z: 0 });
}

#[test]
fn multi_point() {
    let multi_point = MultiPointZ(vec![PointZ::new(1.0, 2.0, 3.0)]);
    assert_eq!(multi_point.0, vec![PointZ::new(1.0, 2.0, 3.0)]);

    let multi_point = MultiPointZ(vec![PointZ::new(1.0, 2.0, 3.0), PointZ::new(3.0, 4.0, 5.0)]);
    assert_eq!(
        multi_point.0,
        vec![PointZ::new(1.0, 2.0, 3.0), PointZ::new(3.0, 4.0, 5.0)]
    );
}

#[test]
fn empty_multi_line_string() {
    let multi_line_string: MultiLineStringZ<f64> = MultiLineStringZ::empty();
    assert_eq!(multi_line_string.0, vec![]);
}

#[test]
fn polygon_new_closes_rings() {
    let p = PolygonZ::new(
        LineStringZ::new(vec![
            CoordZ { x: 0i64, y: 0, z: 0 },
            CoordZ { x: 4, y: 0, z: 0 },
            CoordZ { x: 4, y: 4, z: 0 },
        ]),
        vec![],
    );
    assert_eq!(p.exterior().0.len(), 4);
    assert_eq!(p.exterior().0[3], CoordZ { x: 0, y: 0, z: 0 });
    assert!(p.exterior().is_closed());
}

#[test]
fn polygon_rings_round_trip() {
    let p = PolygonZ::new(
        LineStringZ::new(vec![
            CoordZ { x: 0i64, y: 0, z: 0 },
            CoordZ { x: 4, y: 0, z: 0 },
            CoordZ { x: 4, y: 4, z: 0 },
            CoordZ { x: 0, y: 0, z: 0 },
        ]),
        vec![LineStringZ::new(vec![
            CoordZ { x: 1, y: 1, z: 0 },
            CoordZ { x: 2, y: 1, z: 0 },
            CoordZ { x: 2, y: 2, z: 0 },
            CoordZ { x: 1, y: 1, z: 0 },
        ])],
    );
    let rings = p.rings();
    assert_eq!(rings.len(), 2);
    let rebuilt = PolygonZ::from_rings(rings);
    assert_eq!(rebuilt, p);
}

#[test]
fn polygon_from_rings_empty() {
    let p: PolygonZ<f64> = PolygonZ::from_rings(vec![]);
    assert!(p.exterior().is_empty());
    assert_eq!(p.interiors().len(), 0);
}

#[test]
fn line_string_close() {
    let mut ls = LineStringZ::new(vec![
        CoordZ { x: 1i64, y: 2, z: 3 },
        CoordZ { x: 4, y: 5, z: 6 },
    ]);
    assert!(!ls.is_closed());
    ls.close();
    assert!(ls.is_closed());
    assert_eq!(ls.0.len(), 3);
    assert_eq!(ls.0[2], CoordZ { x: 1, y: 2, z: 3 });

    let mut empty: LineStringZ<i64> = LineStringZ::empty();
    assert!(empty.is_closed());
    empty.close();
    assert!(empty.is_empty());
}

#[test]
fn triangle_to_polygon() {
    let t = Triangle(
        CoordZ { x: 0i64, y: 0, z: 0 },
        CoordZ { x: 10, y: 20, z: 0 },
        CoordZ { x: 20, y: -10, z: 0 },
    );
    let p = t.to_polygon();
    assert_eq!(p.exterior().0.len(), 4);
    assert_eq!(p.exterior().0[0], p.exterior().0[3]);
    assert_eq!(p.interiors().len(), 0);
}

#[test]
fn line_endpoints() {
    let line = LineZ::new(
        CoordZ { x: 1i64, y: 2, z: 3 },
        CoordZ { x: 4, y: 5, z: 6 },
    );
    assert_eq!(line.start_point(), PointZ::new(1, 2, 3));
    assert_eq!(line.end_point(), PointZ::new(4, 5, 6));
    let (s, e) = line.points();
    assert_eq!(s, PointZ::new(1, 2, 3));
    assert_eq!(e, PointZ::new(4, 5, 6));
}

#[test]
fn point_setters() {
    let mut p = PointZ::new(1i64, 2, 3);
    p.set_x(9);
    p.set_y(8);
    p.set_z(7);
    assert_eq!(p.x_y_z(), (9, 8, 7));
}

#[test]
fn point() {
    let point = PointZ::new(1.0, 2.0, 3.0);
    assert_eq!(point.x(), 1.0);
    assert_eq!(point.y(), 2.0);
    assert_eq!(point.z(), 3.0);

    let point = PointZ::new(1.0, 2.0, 3.0);
    assert_eq!(point.x(), 1.0);
    assert_eq!(point.y(), 2.0);
    assert_eq!(point.z(), 3.0);
}

#[test]
fn wkt_macro_empty_line_string() {
    let line_string: LineStringZ<f64> = LineStringZ::empty();
    assert_eq!(line_string.0.len(), 0);
}

#[test]
fn wkt_macro_line_string() {
    let line_string = LineStringZ::new(vec![
        CoordZ { x: 1.0, y: 2.0, z: 3.0 },
        CoordZ { x: 3.0, y: 4.0, z: 5.0 },
    ]);
    assert_eq!(line_string.0.len(), 2);
    assert_eq!(line_string.0[0], CoordZ { x: 1.0, y: 2.0, z: 3.0 });
}

#[test]
fn wkt_macro_empty_polygon() {
    let polygon: PolygonZ<f64> = PolygonZ::empty();
    assert_eq!(polygon.exterior().0.len(), 0);
    assert_eq!(polygon.interiors().len(), 0);
}

#[test]
fn empty_multi_point() {
    let multipoint: MultiPointZ<f64> = MultiPointZ::empty();
    assert!(multipoint.0.is_empty());
}

#[test]
fn multi_line_string() {
    let multi_line_string = MultiLineStringZ(vec![LineStringZ::new(vec![
        CoordZ { x: 1.0, y: 2.0, z: 3.0 },
        CoordZ { x: 3.0, y: 4.0, z: 5.0 },
    ])]);
    assert_eq!(multi_line_string.0.len(), 1);
    assert_eq!(multi_line_string.0[0].0[1], CoordZ { x: 3.0, y: 4.0, z: 5.0 });

    let multi_line_string = MultiLineStringZ(vec![
        LineStringZ::new(vec![
            CoordZ { x: 1.0, y: 2.0, z: 3.0 },
            CoordZ { x: 3.0, y: 4.0, z: 5.0 },
        ]),
        LineStringZ::new(vec![
            CoordZ { x: 5.0, y: 6.0, z: 7.0 },
            CoordZ { x: 7.0, y: 8.0, z: 9.0 },
        ]),
    ]);
    assert_eq!(multi_line_string.0.len(), 2);
    assert_eq!(multi_line_string.0[1].0[1], CoordZ { x: 7.0, y: 8.0, z: 9.0 });

    let multi_line_string = MultiLineStringZ(vec![
        LineStringZ::new(vec![
            CoordZ { x: 1.0, y: 2.0, z: 3.0 },
            CoordZ { x: 3.0, y: 4.0, z: 5.0 },
        ]),
        LineStringZ::empty(),
    ]);
    assert_eq!(multi_line_string.0.len(), 2);
    assert_eq!(multi_line_string.0[1].0.len(), 0);
}

#[test]
fn empty_multi_polygon() {
    let multi_polygon: MultiPolygonZ<f64> = MultiPolygonZ::empty();
    assert!(multi_polygon.0.is_empty());
}

#[test]
fn other_numeric_types() {
    let point: PointZ<i32> = PointZ::new(1, 2, 3);
    assert_eq!(point.x(), 1i32);
    assert_eq!(point.y(), 2i32);
    assert_eq!(point.z(), 3i32);

    let point: PointZ<u64> = PointZ::new(1, 2, 3);
    assert_eq!(point.x(), 1u64);
    assert_eq!(point.y(), 2u64);
    assert_eq!(point.z(), 3u64);

    let point: PointZ<f32> = PointZ::new(1.0, 2.0, 3.0);
    assert_eq!(point.x(), 1.0f32);
    assert_eq!(point.y(), 2.0f32);
    assert_eq!(point.z(), 3.0f32);
}

#[test]
fn empty() {
    let empty = MultiPointZ::<f64>::empty();
    let empty_2 = MultiPointZ(vec![]);
    assert_eq!(empty, empty_2);
}
