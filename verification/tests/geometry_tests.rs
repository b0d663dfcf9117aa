use fbx_sanitizer::geometry::{
    decode_polygon_sizes, encode_polygon_sizes, mesh_bounds, oversized_polygon_sizes,
    GeometryError,
};
use fbx_sanitizer::scene::PointBits;

fn point(x: f64, y: f64, z: f64) -> PointBits {
    PointBits { x: x.to_bits(), y: y.to_bits(), z: z.to_bits() }
}

#[test]
fn polygon_round_trip_343() {
    let sizes: Vec<usize> = vec![3, 4, 3];
    let encoded = encode_polygon_sizes(&sizes);
    assert_eq!(encoded, vec![0, 0, -1, 0, 0, 0, -1, 0, 0, -1]);
    let decoded = decode_polygon_sizes(&encoded).unwrap();
    assert_eq!(decoded, vec![3, 4, 3]);
}

#[test]
fn polygon_decode_real_indices() {
    // two triangles over four control points, with one's-complement markers
    let indices: Vec<i64> = vec![0, 1, !2, 2, 3, !0];
    let decoded = decode_polygon_sizes(&indices).unwrap();
    assert_eq!(decoded, vec![3, 3]);
}

#[test]
fn polygon_decode_empty() {
    let decoded = decode_polygon_sizes(&vec![]).unwrap();
    assert_eq!(decoded, Vec::<usize>::new());
}

#[test]
fn polygon_decode_incomplete() {
    let err = decode_polygon_sizes(&vec![0, 1, !2, 4, 5]).unwrap_err();
    assert_eq!(err, GeometryError::IncompletePolygon { start: 3, len: 5 });
    assert_eq!(
        err.describe(),
        "Incomplete polygon found: index_start=3, len=5"
    );
}

#[test]
fn oversized_sizes_are_distinct_and_first_seen() {
    let over = oversized_polygon_sizes(&vec![3, 5, 4, 5, 2, 6, 4]);
    assert_eq!(over, vec![5, 4, 6]);
    let none = oversized_polygon_sizes(&vec![3, 3, 1, 2]);
    assert_eq!(none, Vec::<usize>::new());
}

#[test]
fn bounds_of_empty_mesh_is_none() {
    let r = mesh_bounds(&vec![]).unwrap();
    assert!(r.is_none());
}

#[test]
fn bounds_reduction_matches_componentwise_extremes() {
    let points = vec![
        point(1.0, -2.0, 0.5),
        point(-3.0, 7.0, 0.25),
        point(2.5, 0.0, -10.0),
    ];
    let b = mesh_bounds(&points).unwrap().unwrap();
    assert_eq!(f64::from_bits(b.min.x), -3.0);
    assert_eq!(f64::from_bits(b.min.y), -2.0);
    assert_eq!(f64::from_bits(b.min.z), -10.0);
    assert_eq!(f64::from_bits(b.max.x), 2.5);
    assert_eq!(f64::from_bits(b.max.y), 7.0);
    assert_eq!(f64::from_bits(b.max.z), 0.5);
}

#[test]
fn bounds_max_at_least_min_with_negative_zero() {
    // -0.0 and +0.0 are equal as values; the reduction must not invert bounds
    let points = vec![point(-0.0, 0.0, -0.0), point(0.0, -0.0, -0.0)];
    let b = mesh_bounds(&points).unwrap().unwrap();
    assert!(f64::from_bits(b.min.x) <= f64::from_bits(b.max.x));
    assert!(f64::from_bits(b.min.y) <= f64::from_bits(b.max.y));
    assert!(f64::from_bits(b.min.z) <= f64::from_bits(b.max.z));
}

#[test]
fn bounds_rejects_nan_coordinates() {
    let points = vec![point(1.0, 2.0, 3.0), point(4.0, f64::NAN, 6.0)];
    let err = mesh_bounds(&points).unwrap_err();
    assert_eq!(err, GeometryError::NonFiniteCoordinate);
    assert_eq!(
        err.describe(),
        "A mesh control point has a non-finite (NaN) coordinate."
    );
}

#[test]
fn bounds_keeps_infinities() {
    // infinite coordinates are ordered and kept; only NaN is rejected
    let points = vec![point(f64::INFINITY, 0.0, 0.0), point(1.0, 0.0, 0.0)];
    let b = mesh_bounds(&points).unwrap().unwrap();
    assert_eq!(f64::from_bits(b.max.x), f64::INFINITY);
    assert_eq!(f64::from_bits(b.min.x), 1.0);
}
