//! A numeric-type-generic model of vector geometries with a third axis,
//! together with verified conversions to and from a JSON-like geometry
//! interchange shape and a decoder for the textual geometry literal
//! grammar.
//!
//! The entities — coordinates, points, segments, line strings, polygons
//! with holes, their multi forms, and the recursive heterogeneous
//! collection — are plain value trees over a generic scalar.  The export
//! converter turns them into interchange values, totally; the import
//! converter reads interchange values back, failing fast on the first
//! malformed piece; the literal decoder reads the textual grammar at run
//! time.  Every conversion carries an exact contract over the entities'
//! mathematical shapes, and the laws the conversions obey — the
//! export/import round trip, ring flattening, exhaustive downcast
//! mismatch — are stated and proved alongside them.

mod coord_z;
mod debug;
mod error;
mod export;
mod geometry;
mod import;
mod interchange;
mod laws;
mod line_string_z;
mod line_z;
mod multi;
mod numeric;
mod point_z;
mod polygon_z;
mod private_utils;
mod triangle;
mod two_d;
mod wkt;

pub use coord_z::CoordZ;
pub use error::Error;
pub use error::GeometryKind;
pub use error::ValueKind;
pub use line_string_z::closed_ring;
pub use line_string_z::is_closed_ring;
pub use line_string_z::LineStringZ;
pub use line_z::LineZ;
pub use multi::MultiLineStringZ;
pub use multi::MultiPointZ;
pub use multi::MultiPolygonZ;
pub use numeric::CoordNum;
pub use point_z::PointZ;
pub use polygon_z::lemma_ring_flatten_unflatten;
pub use polygon_z::polygon_of_rings;
pub use polygon_z::rings_of;
pub use polygon_z::PolygonZ;
pub use polygon_z::PolygonZView;
pub use triangle::Triangle;
pub use two_d::Coord;
pub use two_d::Line;
pub use two_d::LineString;
pub use two_d::MultiLineString;
pub use two_d::MultiPoint;
pub use two_d::MultiPolygon;
pub use two_d::Point;
pub use two_d::Polygon;
pub use two_d::PolygonView;
pub use two_d::Rect;

pub use geometry::geometry_seq_view;
pub use geometry::geometry_view;
pub use geometry::lemma_downcast_mismatch;
pub use geometry::lemma_geometry_seq_view;
pub use geometry::line_downcast_spec;
pub use geometry::line_string_z_downcast_spec;
pub use geometry::multi_line_string_z_downcast_spec;
pub use geometry::multi_point_z_downcast_spec;
pub use geometry::multi_polygon_z_downcast_spec;
pub use geometry::point_z_downcast_spec;
pub use geometry::polygon_z_downcast_spec;
pub use geometry::Geometry;
pub use geometry::GeometryCollection;
pub use geometry::GeometryView;

pub use interchange::feature_seq_view;
pub use interchange::lemma_feature_seq_view;
pub use interchange::lemma_value_seq_view;
pub use interchange::polygons_view;
pub use interchange::positions_view;
pub use interchange::rings_view;
pub use interchange::value_seq_view;
pub use interchange::value_view;
pub use interchange::Feature;
pub use interchange::FeatureView;
pub use interchange::GeoJson;
pub use interchange::GeoJsonView;
pub use interchange::Value;
pub use interchange::ValueView;

pub use export::create_from_line_type;
pub use export::create_from_triangle_type;
pub use export::create_legacy_point_type;
pub use export::create_line_string_type;
pub use export::create_multi_line_string_type;
pub use export::create_multi_point_type;
pub use export::create_multi_polygon_type;
pub use export::create_point_type;
pub use export::create_polygon_type;
pub use export::export_coord;
pub use export::export_coord_z;
pub use export::export_features_spec;
pub use export::export_geometries_spec;
pub use export::export_geometry_spec;
pub use export::export_polygon;
pub use export::export_polygon_z;
pub use export::export_rect_ring;
pub use export::export_ring;
pub use export::export_ring_z;
pub use export::features_of_geometry_collection;
pub use export::lemma_export_features_spec;
pub use export::lemma_export_geometries_spec;
pub use export::value_of_geometry;
pub use export::value_of_geometry_collection;

pub use import::create_geo_coordinate;
pub use import::create_geo_line_string;
pub use import::create_geo_multi_line_string;
pub use import::create_geo_multi_point;
pub use import::create_geo_multi_polygon;
pub use import::create_geo_point;
pub use import::create_geo_polygon;
pub use import::import_collection_from_geo_json_spec;
pub use import::import_feature_list;
pub use import::import_feature_spec;
pub use import::import_features_spec;
pub use import::import_geometries_spec;
pub use import::import_geometry_collection_spec;
pub use import::import_geometry_from_geo_json_spec;
pub use import::import_geometry_spec;
pub use import::import_line_string_z_spec;
pub use import::import_multi_line_string_z_spec;
pub use import::import_multi_point_z_spec;
pub use import::import_multi_polygon_z_spec;
pub use import::import_point_z_spec;
pub use import::import_points_spec;
pub use import::import_polygon_spec;
pub use import::import_polygon_z_spec;
pub use import::import_polygons_spec;
pub use import::import_position_spec;
pub use import::import_positions_spec;
pub use import::import_rings_spec;
pub use import::mismatch_geom_err;
pub use import::mismatch_spec;

pub use laws::all_polygon_rings_closed;
pub use laws::all_use_current_variants;
pub use laws::lemma_collection_round_trip;
pub use laws::lemma_export_import_round_trip;
pub use laws::polygon_rings_closed;
pub use laws::polygon_view_rings_closed;
pub use laws::uses_current_variants;

pub use debug::coord_seq_inner;
pub use debug::coord_seq_inner_2d;
pub use debug::coord_seq_text;
pub use debug::coord_seq_text_2d;
pub use debug::coord_text;
pub use debug::coord_z_text;
pub use debug::dec_digit;
pub use debug::dec_int;
pub use debug::dec_nat;
pub use debug::geometry_collection_text;
pub use debug::geometry_join;
pub use debug::geometry_text;
pub use debug::line_string_z_text;
pub use debug::line_z_text;
pub use debug::multi_line_string_z_text;
pub use debug::multi_point_z_text;
pub use debug::multi_polygon_z_text;
pub use debug::point_z_text;
pub use debug::polygon_inner_text;
pub use debug::polygon_inner_text_2d;
pub use debug::polygon_join;
pub use debug::polygon_join_2d;
pub use debug::polygon_z_text;
pub use debug::push_coord;
pub use debug::push_coord_z;
pub use debug::push_i64;
pub use debug::ring_join;
pub use debug::ring_join_2d;
pub use debug::write_coord_seq;
pub use debug::write_coord_seq_2d;
pub use debug::write_polygon_inner;

pub use wkt::parse_geometry;
pub use wkt::parse_geometry_spec;
pub use wkt::wkt_decode;
pub use wkt::wkt_decode_spec;
pub use wkt::Decimal;

pub use private_utils::bounding_cube_spec;
pub use private_utils::cube_extend_spec;
pub use private_utils::get_bounding_rect;
pub use private_utils::get_min_max;
pub use private_utils::line_bounding_rect;
pub use private_utils::line_string_bounding_rect;
pub use private_utils::min_max_spec;
pub use private_utils::Cube;
