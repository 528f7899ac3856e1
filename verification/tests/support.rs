use geo_types_3d::get_bounding_rect;
use geo_types_3d::get_min_max;
use geo_types_3d::line_bounding_rect;
use geo_types_3d::line_string_bounding_rect;
use geo_types_3d::CoordZ;
use geo_types_3d::LineStringZ;
use geo_types_3d::LineZ;
use geo_types_3d::MultiPointZ;
use geo_types_3d::PointZ;

#[test]
fn coord_arithmetic() {
    let a = CoordZ { x: 1i64, y: 2, z: 3 };
    let b = CoordZ { x: 10i64, y: 20, z: 30 };
    assert_eq!(a.add(b), CoordZ { x: 11, y: 22, z: 33 });
    assert_eq!(b.sub(a), CoordZ { x: 9, y: 18, z: 27 });
    assert_eq!(a.neg(), CoordZ { x: -1, y: -2, z: -3 });
    assert_eq!(a.mul(4), CoordZ { x: 4, y: 8, z: 12 });
    assert_eq!(b.div(10), CoordZ { x: 1, y: 2, z: 3 });
    assert_eq!(CoordZ::<i64>::zero(), CoordZ { x: 0, y: 0, z: 0 });
    assert!(CoordZ::<i64>::zero().is_zero());
    assert!(!a.is_zero());
    assert_eq!(a.x_y_z(), (1, 2, 3));
}

#[test]
fn point_products() {
    let p = PointZ::new(1i64, 2, 3);
    let q = PointZ::new(4i64, 5, 6);
    assert_eq!(p.dot(q), 4 + 10 + 18);

    let a = PointZ::new(1i64, 2, 3);
    let b = PointZ::new(3i64, 5, 7);
    let c = PointZ::new(7i64, 12, 15);
    assert_eq!(a.cross_prod(b, c), 2);
}

#[test]
fn line_derived_quantities() {
    let line = LineZ::new(
        CoordZ { x: 1i64, y: 2, z: 3 },
        CoordZ { x: 5i64, y: 10, z: 4 },
    );
    assert_eq!(line.delta(), CoordZ { x: 4, y: 8, z: 1 });
    assert_eq!(line.dx(), 4);
    assert_eq!(line.dy(), 8);
    assert_eq!(line.slope(), 2);
    let det = LineZ::new(CoordZ { x: 2i64, y: 3, z: 0 }, CoordZ { x: 4i64, y: 7, z: 0 });
    assert_eq!(det.determinant(), 2 * 7 - 3 * 4);
}

#[test]
fn min_max_extension() {
    assert_eq!(get_min_max(5i64, 1, 3), (1, 5));
    assert_eq!(get_min_max(-2i64, 1, 3), (-2, 3));
    assert_eq!(get_min_max(2i64, 1, 3), (1, 3));
}

#[test]
fn bounding_rect_of_coords() {
    let coords = vec![
        CoordZ { x: 1i64, y: 10, z: -3 },
        CoordZ { x: -5, y: 2, z: 8 },
        CoordZ { x: 3, y: 4, z: 0 },
    ];
    let cube = get_bounding_rect(&coords).unwrap();
    assert_eq!(cube.min, CoordZ { x: -5, y: 2, z: -3 });
    assert_eq!(cube.max, CoordZ { x: 3, y: 10, z: 8 });

    let empty: Vec<CoordZ<i64>> = vec![];
    assert!(get_bounding_rect(&empty).is_none());
}

#[test]
fn bounding_rect_of_line_string() {
    let ls = LineStringZ::new(vec![
        CoordZ { x: 0i64, y: 0, z: 0 },
        CoordZ { x: 4, y: -1, z: 7 },
    ]);
    let cube = line_string_bounding_rect(&ls).unwrap();
    assert_eq!(cube.min, CoordZ { x: 0, y: -1, z: 0 });
    assert_eq!(cube.max, CoordZ { x: 4, y: 0, z: 7 });

    assert!(line_string_bounding_rect(&LineStringZ::<i64>::empty()).is_none());
}

#[test]
fn bounding_rect_of_line() {
    let line = LineZ::new(
        CoordZ { x: 4i64, y: 0, z: -2 },
        CoordZ { x: 1i64, y: 3, z: 5 },
    );
    let cube = line_bounding_rect(line);
    assert_eq!(cube.min, CoordZ { x: 1, y: 0, z: -2 });
    assert_eq!(cube.max, CoordZ { x: 4, y: 3, z: 5 });
}

#[test]
fn multi_point_accessors() {
    let mp = MultiPointZ(vec![PointZ::new(1i64, 2, 3), PointZ::new(4, 5, 6)]);
    assert_eq!(mp.len(), 2);
    assert!(!mp.is_empty());
    assert_eq!(mp.get(1), PointZ::new(4, 5, 6));
    assert!(MultiPointZ::<i64>::empty().is_empty());
}
