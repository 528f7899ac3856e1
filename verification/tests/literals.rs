use geo_types_3d::wkt_decode;
use geo_types_3d::CoordZ;
use geo_types_3d::Decimal;
use geo_types_3d::Error;
use geo_types_3d::Geometry;

fn whole(value: u64) -> Decimal {
    Decimal { negative: false, int_part: value, frac_part: 0, frac_len: 0 }
}

#[test]
fn polygon_empty_literal_decodes() {
    let geometry = wkt_decode("POLYGON EMPTY").unwrap();
    match geometry {
        Geometry::PolygonZ(polygon) => {
            assert!(polygon.exterior().is_empty());
            assert_eq!(polygon.interiors().len(), 0);
        }
        other => panic!("expected a polygon, found {:?}", other),
    }
}

#[test]
fn point_empty_literal_is_rejected() {
    let error = wkt_decode("POINT EMPTY").unwrap_err();
    assert!(matches!(error, Error::InvalidWkt { .. }));
}

#[test]
fn point_literal_decodes() {
    let geometry = wkt_decode("POINT (1 2 3)").unwrap();
    match geometry {
        Geometry::PointZ(point) => {
            assert_eq!(point.x(), whole(1));
            assert_eq!(point.y(), whole(2));
            assert_eq!(point.z(), whole(3));
        }
        other => panic!("expected a point, found {:?}", other),
    }
}

#[test]
fn fractional_and_negative_numbers_decode_as_written() {
    let geometry = wkt_decode("POINT (40.02 -116.34 0.0)").unwrap();
    match geometry {
        Geometry::PointZ(point) => {
            assert_eq!(
                point.x(),
                Decimal { negative: false, int_part: 40, frac_part: 2, frac_len: 2 }
            );
            assert_eq!(
                point.y(),
                Decimal { negative: true, int_part: 116, frac_part: 34, frac_len: 2 }
            );
            assert_eq!(
                point.z(),
                Decimal { negative: false, int_part: 0, frac_part: 0, frac_len: 1 }
            );
        }
        other => panic!("expected a point, found {:?}", other),
    }
}

#[test]
fn line_string_literal_decodes() {
    let geometry = wkt_decode("LINESTRING (1 2 3, 3 4 5)").unwrap();
    match geometry {
        Geometry::LineStringZ(ls) => {
            assert_eq!(ls.0.len(), 2);
            assert_eq!(ls.0[0], CoordZ { x: whole(1), y: whole(2), z: whole(3) });
            assert_eq!(ls.0[1], CoordZ { x: whole(3), y: whole(4), z: whole(5) });
        }
        other => panic!("expected a line string, found {:?}", other),
    }
}

#[test]
fn line_string_empty_literal_decodes() {
    let geometry = wkt_decode("LINESTRING EMPTY").unwrap();
    match geometry {
        Geometry::LineStringZ(ls) => assert!(ls.0.is_empty()),
        other => panic!("expected a line string, found {:?}", other),
    }
}

#[test]
fn polygon_literal_rings_are_not_auto_closed() {
    let geometry = wkt_decode("POLYGON ((1 2 3, 3 4 5, 5 6 7))").unwrap();
    match geometry {
        Geometry::PolygonZ(polygon) => {
            assert_eq!(polygon.exterior().0.len(), 3);
            assert_eq!(polygon.interiors().len(), 0);
        }
        other => panic!("expected a polygon, found {:?}", other),
    }
}

#[test]
fn polygon_literal_with_interior_decodes() {
    let geometry =
        wkt_decode("POLYGON ((0 0 0, 4 0 0, 4 4 0, 0 0 0), (1 1 0, 2 1 0, 2 2 0, 1 1 0))")
            .unwrap();
    match geometry {
        Geometry::PolygonZ(polygon) => {
            assert_eq!(polygon.exterior().0.len(), 4);
            assert_eq!(polygon.interiors().len(), 1);
            assert_eq!(polygon.interiors()[0].0.len(), 4);
        }
        other => panic!("expected a polygon, found {:?}", other),
    }
}

#[test]
fn multi_point_literal_decodes() {
    let geometry = wkt_decode("MULTIPOINT ((1 2 3), (3 4 5))").unwrap();
    match geometry {
        Geometry::MultiPointZ(mp) => {
            assert_eq!(mp.0.len(), 2);
            assert_eq!(mp.0[0].x_y_z(), (whole(1), whole(2), whole(3)));
            assert_eq!(mp.0[1].x_y_z(), (whole(3), whole(4), whole(5)));
        }
        other => panic!("expected a multi-point, found {:?}", other),
    }
}

#[test]
fn multi_line_string_literal_with_empty_member_decodes() {
    let geometry = wkt_decode("MULTILINESTRING ((1 2 3, 3 4 5), EMPTY)").unwrap();
    match geometry {
        Geometry::MultiLineStringZ(mls) => {
            assert_eq!(mls.0.len(), 2);
            assert_eq!(mls.0[0].0.len(), 2);
            assert!(mls.0[1].0.is_empty());
        }
        other => panic!("expected a multi-line-string, found {:?}", other),
    }
}

#[test]
fn multi_polygon_literal_decodes() {
    let geometry = wkt_decode("MULTIPOLYGON (((1 2 3, 3 4 5, 5 6 7, 1 2 3)), EMPTY)").unwrap();
    match geometry {
        Geometry::MultiPolygonZ(mp) => {
            assert_eq!(mp.0.len(), 2);
            assert_eq!(mp.0[0].exterior().0.len(), 4);
            assert!(mp.0[1].exterior().is_empty());
        }
        other => panic!("expected a multi-polygon, found {:?}", other),
    }
}

#[test]
fn geometry_collection_literal_decodes() {
    let geometry = wkt_decode(
        "GEOMETRYCOLLECTION (POINT (1 2 3), LINESTRING EMPTY, POLYGON ((0 0 0, 1 0 0, 1 1 0, 0 0 0)))",
    )
    .unwrap();
    match geometry {
        Geometry::GeometryCollection(gc) => {
            assert_eq!(gc.len(), 3);
            assert!(matches!(gc.0[0], Geometry::PointZ(_)));
            assert!(matches!(gc.0[1], Geometry::LineStringZ(_)));
            assert!(matches!(gc.0[2], Geometry::PolygonZ(_)));
        }
        other => panic!("expected a collection, found {:?}", other),
    }
}

#[test]
fn geometry_collection_empty_literal_decodes() {
    let geometry = wkt_decode("GEOMETRYCOLLECTION EMPTY").unwrap();
    match geometry {
        Geometry::GeometryCollection(gc) => assert!(gc.is_empty()),
        other => panic!("expected a collection, found {:?}", other),
    }
}

#[test]
fn trailing_garbage_is_rejected() {
    assert!(matches!(wkt_decode("POINT (1 2 3) x"), Err(Error::InvalidWkt { .. })));
    assert!(matches!(wkt_decode("POINT (1 2 3"), Err(Error::InvalidWkt { .. })));
    assert!(matches!(wkt_decode("CIRCLE (1 2 3)"), Err(Error::InvalidWkt { .. })));
    assert!(matches!(wkt_decode(""), Err(Error::InvalidWkt { .. })));
    assert!(matches!(wkt_decode("POLYGON ()"), Err(Error::InvalidWkt { .. })));
}

#[test]
fn oversized_number_literal_is_rejected() {
    assert!(matches!(
        wkt_decode("POINT (1234567890123456789012345 2 3)"),
        Err(Error::InvalidWkt { .. })
    ));
}

#[test]
fn nested_geometry_collection_literal_decodes() {
    let geometry =
        wkt_decode("GEOMETRYCOLLECTION (GEOMETRYCOLLECTION (POINT (1 2 3)), POINT (4 5 6))")
            .unwrap();
    match geometry {
        Geometry::GeometryCollection(gc) => {
            assert_eq!(gc.len(), 2);
            match &gc.0[0] {
                Geometry::GeometryCollection(inner) => {
                    assert_eq!(inner.len(), 1);
                    assert!(matches!(inner.0[0], Geometry::PointZ(_)));
                }
                other => panic!("expected a nested collection, found {:?}", other),
            }
        }
        other => panic!("expected a collection, found {:?}", other),
    }
}

#[test]
fn blank_space_between_tokens_is_ignored() {
    let geometry = wkt_decode("  POINT \t ( 1  2\n 3 )  ").unwrap();
    match geometry {
        Geometry::PointZ(point) => {
            assert_eq!(point.x_y_z(), (whole(1), whole(2), whole(3)));
        }
        other => panic!("expected a point, found {:?}", other),
    }
}
