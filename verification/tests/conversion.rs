use geo_types_3d::create_point_type;
use geo_types_3d::create_polygon_type;
use geo_types_3d::features_of_geometry_collection;
use geo_types_3d::value_of_geometry;
use geo_types_3d::value_of_geometry_collection;
use geo_types_3d::Coord;
use geo_types_3d::CoordZ;
use geo_types_3d::Error;
use geo_types_3d::Feature;
use geo_types_3d::GeoJson;
use geo_types_3d::Geometry;
use geo_types_3d::GeometryCollection;
use geo_types_3d::GeometryKind;
use geo_types_3d::Line;
use geo_types_3d::LineStringZ;
use geo_types_3d::MultiLineStringZ;
use geo_types_3d::MultiPointZ;
use geo_types_3d::MultiPolygonZ;
use geo_types_3d::PointZ;
use geo_types_3d::PolygonZ;
use geo_types_3d::Rect;
use geo_types_3d::Value;
use geo_types_3d::ValueKind;

#[test]
fn point_export_and_reimport() {
    let point = PointZ::new(40.02f64, 116.34, 0.0);
    let coords = create_point_type(&point);
    assert_eq!(coords, vec![40.02, 116.34, 0.0]);

    let back = PointZ::try_from(&Value::Point(coords)).unwrap();
    assert!((back.x() - point.x()).abs() < 1e-6);
    assert!((back.y() - point.y()).abs() < 1e-6);
    assert!((back.z() - point.z()).abs() < 1e-6);
}

#[test]
fn polygon_export_and_reimport() {
    let exterior = LineStringZ::new(vec![
        CoordZ { x: 100.0f64, y: 0.0, z: 0.0 },
        CoordZ { x: 101.0, y: 0.0, z: 0.0 },
        CoordZ { x: 101.0, y: 1.0, z: 0.0 },
        CoordZ { x: 100.0, y: 0.0, z: 0.0 },
    ]);
    let interior = LineStringZ::new(vec![
        CoordZ { x: 100.2f64, y: 0.2, z: 0.0 },
        CoordZ { x: 100.8, y: 0.2, z: 0.0 },
        CoordZ { x: 100.8, y: 0.8, z: 0.0 },
        CoordZ { x: 100.2, y: 0.2, z: 0.0 },
    ]);
    let polygon = PolygonZ::from_rings(vec![exterior, interior]);

    let rings = create_polygon_type(&polygon);
    assert_eq!(rings.len(), 2);
    assert_eq!(rings[0].len(), 4);
    assert_eq!(rings[1].len(), 4);

    let back = PolygonZ::try_from(&Value::Polygon(rings)).unwrap();
    assert_eq!(back.exterior().0, polygon.exterior().0);
    assert_eq!(back.interiors().len(), 1);
    assert_eq!(back.interiors()[0].0, polygon.interiors()[0].0);
}

#[test]
fn collection_export_and_reimport_keeps_order() {
    let multi_point = MultiPointZ(vec![PointZ::new(1.0f64, 2.0, 3.0)]);
    let multi_line_string = MultiLineStringZ(vec![LineStringZ::new(vec![
        CoordZ { x: 1.0f64, y: 2.0, z: 3.0 },
        CoordZ { x: 4.0, y: 5.0, z: 6.0 },
    ])]);
    let multi_polygon = MultiPolygonZ(vec![PolygonZ::from_rings(vec![LineStringZ::new(vec![
        CoordZ { x: 0.0f64, y: 0.0, z: 0.0 },
        CoordZ { x: 1.0, y: 0.0, z: 0.0 },
        CoordZ { x: 1.0, y: 1.0, z: 0.0 },
        CoordZ { x: 0.0, y: 0.0, z: 0.0 },
    ])])]);
    let collection = GeometryCollection(vec![
        Geometry::MultiPointZ(multi_point),
        Geometry::MultiLineStringZ(multi_line_string),
        Geometry::MultiPolygonZ(multi_polygon),
    ]);

    let value = value_of_geometry_collection(&collection);
    match &value {
        Value::GeometryCollection(members) => {
            assert_eq!(members.len(), 3);
            assert!(matches!(members[0], Value::MultiPoint(_)));
            assert!(matches!(members[1], Value::MultiLineString(_)));
            assert!(matches!(members[2], Value::MultiPolygon(_)));
        }
        other => panic!("expected a collection value, found {:?}", other),
    }

    let back = GeometryCollection::try_from(&value).unwrap();
    assert_eq!(back.len(), 3);
    assert!(matches!(back.0[0], Geometry::MultiPointZ(_)));
    assert!(matches!(back.0[1], Geometry::MultiLineStringZ(_)));
    assert!(matches!(back.0[2], Geometry::MultiPolygonZ(_)));
    assert_eq!(back, collection);
}

#[test]
fn polygon_import_with_no_rings() {
    let polygon: PolygonZ<f64> = PolygonZ::try_from(&Value::Polygon(vec![])).unwrap();
    assert!(polygon.exterior().is_empty());
    assert_eq!(polygon.interiors().len(), 0);
}

#[test]
fn point_import_rejects_other_kind() {
    let line = Value::LineString(vec![vec![100.0f64, 0.2, 0.0], vec![101.0, 1.0, 0.0]]);
    let error = PointZ::try_from(&line).unwrap_err();
    assert_eq!(
        error,
        Error::InvalidGeometryConversion {
            expected_type: ValueKind::Point,
            found_type: ValueKind::LineString,
        }
    );
    assert_eq!("Expected type: `Point`, but found `LineString`", error.message());
}

#[test]
fn short_position_is_rejected() {
    let value = Value::Point(vec![100.0f64, 0.2]);
    let error = PointZ::try_from(&value).unwrap_err();
    assert_eq!(error, Error::MalformedPosition { length: 2 });
}

#[test]
fn collection_import_fails_fast() {
    let value: Value<f64> = Value::GeometryCollection(vec![
        Value::Point(vec![1.0, 2.0, 3.0]),
        Value::Point(vec![1.0]),
        Value::Point(vec![4.0, 5.0, 6.0]),
    ]);
    let error = Geometry::try_from(&value).unwrap_err();
    assert_eq!(error, Error::MalformedPosition { length: 1 });
}

#[test]
fn geometry_import_dispatches_on_kind() {
    let value = Value::MultiPoint(vec![vec![1.0f64, 2.0, 3.0], vec![4.0, 5.0, 6.0]]);
    let geometry = Geometry::try_from(&value).unwrap();
    assert_eq!(
        geometry,
        Geometry::MultiPointZ(MultiPointZ(vec![
            PointZ::new(1.0, 2.0, 3.0),
            PointZ::new(4.0, 5.0, 6.0),
        ]))
    );
}

#[test]
fn feature_without_geometry_is_an_error() {
    let feature: Feature<f64> = Feature { geometry: None };
    let error = Geometry::try_from_feature(feature).unwrap_err();
    assert_eq!(error, Error::FeatureHasNoGeometry);
    assert_eq!("Feature does not have a geometry", error.message());
}

#[test]
fn standalone_feature_without_geometry_is_empty_collection() {
    let gj: GeoJson<f64> = GeoJson::Feature(Feature { geometry: None });
    let collection = GeometryCollection::try_from_geo_json(&gj).unwrap();
    assert!(collection.is_empty());
}

#[test]
fn feature_collection_drops_features_without_geometry() {
    let gj: GeoJson<f64> = GeoJson::FeatureCollection(vec![
        Feature { geometry: Some(Value::Point(vec![1.0, 2.0, 3.0])) },
        Feature { geometry: None },
        Feature { geometry: Some(Value::Point(vec![4.0, 5.0, 6.0])) },
    ]);
    let collection = GeometryCollection::try_from_geo_json(&gj).unwrap();
    assert_eq!(collection.len(), 2);
    assert_eq!(collection.0[0], Geometry::PointZ(PointZ::new(1.0, 2.0, 3.0)));
    assert_eq!(collection.0[1], Geometry::PointZ(PointZ::new(4.0, 5.0, 6.0)));
}

#[test]
fn feature_collection_imports_as_wrapped_collection() {
    let gj: GeoJson<f64> = GeoJson::FeatureCollection(vec![Feature {
        geometry: Some(Value::Polygon(vec![vec![
            vec![1.0, 1.0, 1.0],
            vec![2.0, 2.0, 2.0],
            vec![3.0, 1.0, 3.0],
            vec![1.0, 1.0, 1.0],
        ]])),
    }]);
    let geometry = Geometry::try_from_geo_json(&gj).unwrap();
    let expected = Geometry::GeometryCollection(GeometryCollection(vec![Geometry::PolygonZ(
        PolygonZ::from_rings(vec![LineStringZ::new(vec![
            CoordZ { x: 1.0, y: 1.0, z: 1.0 },
            CoordZ { x: 2.0, y: 2.0, z: 2.0 },
            CoordZ { x: 3.0, y: 1.0, z: 3.0 },
            CoordZ { x: 1.0, y: 1.0, z: 1.0 },
        ])]),
    )]));
    assert_eq!(geometry, expected);
}

#[test]
fn export_features_carry_each_member() {
    let collection = GeometryCollection(vec![
        Geometry::PointZ(PointZ::new(100.0f64, 0.0, 0.0)),
        Geometry::PointZ(PointZ::new(200.0, 0.0, 0.0)),
    ]);
    let features = features_of_geometry_collection(&collection);
    assert_eq!(features.len(), 2);
    assert_eq!(features[0].geometry, Some(Value::Point(vec![100.0, 0.0, 0.0])));
    assert_eq!(features[1].geometry, Some(Value::Point(vec![200.0, 0.0, 0.0])));
}

#[test]
fn legacy_line_exports_as_line_string() {
    let line = Geometry::Line(Line {
        start: Coord { x: 1.0f64, y: 2.0 },
        end: Coord { x: 3.0, y: 4.0 },
    });
    let value = value_of_geometry(&line);
    assert_eq!(
        value,
        Value::LineString(vec![vec![1.0, 2.0], vec![3.0, 4.0]])
    );
}

#[test]
fn rect_exports_as_closed_polygon_ring() {
    let rect = Geometry::Rect(Rect {
        min: Coord { x: 0.0f64, y: 0.0 },
        max: Coord { x: 2.0, y: 3.0 },
    });
    let value = value_of_geometry(&rect);
    assert_eq!(
        value,
        Value::Polygon(vec![vec![
            vec![0.0, 0.0],
            vec![2.0, 0.0],
            vec![2.0, 3.0],
            vec![0.0, 3.0],
            vec![0.0, 0.0],
        ]])
    );
}

#[test]
fn downcast_mismatch_names_both_kinds() {
    let geometry = Geometry::LineStringZ(LineStringZ::new(vec![CoordZ {
        x: 1.0f64,
        y: 2.0,
        z: 3.0,
    }]));
    let error = PointZ::try_from_geometry(geometry).unwrap_err();
    assert_eq!(
        error,
        Error::MismatchedGeometry {
            expected: GeometryKind::PointZ,
            found: GeometryKind::LineStringZ,
        }
    );
    assert_eq!("Expected a PointZ, but found a LineStringZ", error.message());
}

#[test]
fn downcast_match_returns_inner() {
    let point = PointZ::new(1.0f64, 2.0, 3.0);
    let geometry = Geometry::PointZ(point);
    assert_eq!(PointZ::try_from_geometry(geometry), Ok(point));

    let geometry = Geometry::PointZ(point);
    assert_eq!(geometry.into_point(), Some(point));

    let geometry = Geometry::MultiPointZ(MultiPointZ(vec![point]));
    assert_eq!(geometry.into_point(), None);
}

#[test]
fn downcast_every_mismatched_pair_fails() {
    let point = Geometry::PointZ(PointZ::new(1.0f64, 2.0, 3.0));
    assert!(LineStringZ::try_from_geometry(point).is_err());
    let point = Geometry::PointZ(PointZ::new(1.0f64, 2.0, 3.0));
    assert!(PolygonZ::try_from_geometry(point).is_err());
    let point = Geometry::PointZ(PointZ::new(1.0f64, 2.0, 3.0));
    assert!(MultiPointZ::try_from_geometry(point).is_err());
    let point = Geometry::PointZ(PointZ::new(1.0f64, 2.0, 3.0));
    assert!(MultiLineStringZ::try_from_geometry(point).is_err());
    let point = Geometry::PointZ(PointZ::new(1.0f64, 2.0, 3.0));
    assert!(MultiPolygonZ::try_from_geometry(point).is_err());
}

#[test]
fn round_trip_over_every_current_variant() {
    let collection = GeometryCollection(vec![
        Geometry::PointZ(PointZ::new(1.0f64, 2.0, 3.0)),
        Geometry::LineStringZ(LineStringZ::new(vec![
            CoordZ { x: 1.0, y: 2.0, z: 3.0 },
            CoordZ { x: 4.0, y: 5.0, z: 6.0 },
        ])),
        Geometry::PolygonZ(PolygonZ::from_rings(vec![LineStringZ::new(vec![
            CoordZ { x: 0.0, y: 0.0, z: 0.0 },
            CoordZ { x: 1.0, y: 0.0, z: 0.0 },
            CoordZ { x: 1.0, y: 1.0, z: 0.0 },
            CoordZ { x: 0.0, y: 0.0, z: 0.0 },
        ])])),
        Geometry::MultiPointZ(MultiPointZ(vec![PointZ::new(7.0, 8.0, 9.0)])),
        Geometry::MultiLineStringZ(MultiLineStringZ(vec![LineStringZ::empty()])),
        Geometry::MultiPolygonZ(MultiPolygonZ(vec![PolygonZ::empty()])),
        Geometry::GeometryCollection(GeometryCollection(vec![])),
    ]);
    let exported = value_of_geometry(&Geometry::GeometryCollection(collection));
    let back = Geometry::try_from(&exported).unwrap();
    match &back {
        Geometry::GeometryCollection(gc) => assert_eq!(gc.len(), 7),
        other => panic!("expected a collection, found {:?}", other),
    }
    let again = value_of_geometry(&back);
    assert_eq!(again, exported);
}
