use glam::Vec3;
use raytracer::aabb::{AcceleratedPolygon, AABB};
use raytracer::plane::Plane;
use raytracer::polygon::{indices_fit, Polygon};
use raytracer::triangle::Triangle;

fn v(x: f32, y: f32, z: f32) -> Vec3 {
    Vec3::new(x, y, z)
}

fn unit_triangle() -> Triangle {
    Triangle::new([v(0.0, 0.0, 0.0), v(1.0, 0.0, 0.0), v(0.0, 1.0, 0.0)])
}

#[test]
fn triangle_keeps_its_vertices() {
    let corners = [v(1.0, 2.0, 3.0), v(-1.0, 0.5, 0.0), v(4.0, 4.0, -4.0)];
    let t = Triangle::new(corners);
    assert_eq!(t.vertices(), corners);
}

#[test]
fn triangle_raw_normal_is_cross_of_edges() {
    let t = Triangle::new([v(0.0, 0.0, 0.0), v(2.0, 0.0, 0.0), v(0.0, 3.0, 0.0)]);
    assert_eq!(t.normal_raw(), v(0.0, 0.0, 6.0));
    let flipped = Triangle::new([v(0.0, 0.0, 0.0), v(0.0, 3.0, 0.0), v(2.0, 0.0, 0.0)]);
    assert_eq!(flipped.normal_raw(), v(0.0, 0.0, -6.0));
}

#[test]
fn triangle_normal_is_unit_length() {
    let t = Triangle::new([v(1.0, 1.0, 1.0), v(1.0, 5.0, 1.0), v(1.0, 1.0, 3.0)]);
    assert_eq!(t.normal(), v(1.0, 0.0, 0.0));
    assert!((t.normal().length() - 1.0).abs() < 1e-6);
}

#[test]
fn triangle_normal_at_is_repeatable() {
    let t = unit_triangle();
    let p = v(0.25, 0.25, 0.0);
    let first = t.normal_at(p);
    let second = t.normal_at(p);
    assert_eq!(first.to_array().map(f32::to_bits), second.to_array().map(f32::to_bits));
    assert_eq!(first, t.normal_at(v(0.5, 0.1, 0.0)));
    assert_eq!(first, v(0.0, 0.0, 1.0));
}

#[test]
fn plane_stores_unit_normal_and_centre() {
    let p = Plane::new(v(0.0, 0.0, 5.0), v(1.0, 2.0, 3.0));
    assert_eq!(p.normal(), v(0.0, 0.0, 1.0));
    assert_eq!(p.centre(), v(1.0, 2.0, 3.0));
    let q = Plane::new(v(3.0, 4.0, 0.0), Vec3::ZERO);
    assert!((q.normal() - v(0.6, 0.8, 0.0)).length() < 1e-6);
}

#[test]
fn plane_normal_at_is_repeatable() {
    let p = Plane::new(v(0.0, 2.0, 0.0), v(0.0, 0.0, 0.0));
    let a = p.normal_at(v(3.0, 0.0, -7.0));
    let b = p.normal_at(v(3.0, 0.0, -7.0));
    assert_eq!(a.to_array().map(f32::to_bits), b.to_array().map(f32::to_bits));
    assert_eq!(a, p.normal_at(v(100.0, 0.0, 100.0)));
    assert_eq!(a, v(0.0, 1.0, 0.0));
}

#[test]
fn polygon_new_builds_one_triangle_per_triple() {
    let tris = vec![
        [v(0.0, 0.0, 0.0), v(1.0, 0.0, 0.0), v(0.0, 1.0, 0.0)],
        [v(0.0, 0.0, 1.0), v(1.0, 0.0, 1.0), v(0.0, 1.0, 1.0)],
    ];
    let p = Polygon::new(tris.clone());
    assert_eq!(p.triangles().len(), 2);
    assert_eq!(p.triangles()[0].vertices(), tris[0]);
    assert_eq!(p.triangles()[1].vertices(), tris[1]);
}

#[test]
fn polygon_new_of_nothing_is_empty() {
    assert!(Polygon::new(vec![]).triangles().is_empty());
}

#[test]
fn polygon_from_triangles_keeps_order() {
    let a = unit_triangle();
    let b = Triangle::new([v(5.0, 5.0, 5.0), v(6.0, 5.0, 5.0), v(5.0, 6.0, 5.0)]);
    let p = Polygon::from_triangles(vec![b, a]);
    assert_eq!(p.triangles()[0].vertices(), b.vertices());
    assert_eq!(p.triangles()[1].vertices(), a.vertices());
}

#[test]
fn polygon_from_vertices_and_indices_makes_square() {
    let corners = vec![v(-1.0, 1.0, 0.0), v(-1.0, -1.0, 0.0), v(1.0, -1.0, 0.0), v(1.0, 1.0, 0.0)];
    let p = Polygon::new_from_vertices_and_indies(corners.clone(), vec![[0, 1, 2], [0, 2, 3]]);
    assert_eq!(p.triangles().len(), 2);
    assert_eq!(p.triangles()[0].vertices(), [corners[0], corners[1], corners[2]]);
    assert_eq!(p.triangles()[1].vertices(), [corners[0], corners[2], corners[3]]);
}

#[test]
fn polygon_from_vertices_reuses_indices() {
    let corners = vec![v(0.0, 0.0, 0.0), v(9.0, 9.0, 9.0)];
    let p = Polygon::new_from_vertices_and_indies(corners.clone(), vec![[1, 1, 0]]);
    assert_eq!(p.triangles()[0].vertices(), [corners[1], corners[1], corners[0]]);
}

#[test]
fn polygons_join_in_order() {
    let a = Triangle::new([v(1.0, 0.0, 0.0), v(0.0, 1.0, 0.0), v(0.0, 0.0, 1.0)]);
    let b = Triangle::new([v(2.0, 0.0, 0.0), v(0.0, 2.0, 0.0), v(0.0, 0.0, 2.0)]);
    let c = Triangle::new([v(3.0, 0.0, 0.0), v(0.0, 3.0, 0.0), v(0.0, 0.0, 3.0)]);
    let joined = Polygon::new_from_polygons(vec![
        Polygon::from_triangles(vec![a, b]),
        Polygon::from_triangles(vec![]),
        Polygon::from_triangles(vec![c]),
    ]);
    let got: Vec<[Vec3; 3]> = joined.triangles().iter().map(|t| t.vertices()).collect();
    assert_eq!(got, vec![a.vertices(), b.vertices(), c.vertices()]);
    assert!(Polygon::new_from_polygons(vec![]).triangles().is_empty());
}

#[test]
fn aabb_spans_all_vertices() {
    let tris = vec![
        Triangle::new([v(0.0, 0.0, 0.0), v(1.0, -2.0, 0.5), v(0.5, 0.5, 3.0)]),
        Triangle::new([v(-4.0, 1.0, 1.0), v(2.0, 7.0, -1.0), v(0.0, 0.0, 0.0)]),
    ];
    let b = AABB::new(&tris);
    assert_eq!(b.min(), v(-4.0, -2.0, -1.0));
    assert_eq!(b.max(), v(2.0, 7.0, 3.0));
}

#[test]
fn aabb_of_one_triangle() {
    let b = AABB::new(&vec![unit_triangle()]);
    assert_eq!(b.min(), v(0.0, 0.0, 0.0));
    assert_eq!(b.max(), v(1.0, 1.0, 0.0));
}

#[test]
fn aabb_includes_inside_and_boundary_only() {
    let b = AABB::new(&vec![
        Triangle::new([v(-1.0, -1.0, -1.0), v(1.0, 1.0, 1.0), v(0.0, 0.0, 0.0)]),
    ]);
    assert!(b.includes(v(0.0, 0.0, 0.0)));
    assert!(b.includes(v(1.0, -1.0, 1.0)));
    assert!(!b.includes(v(1.5, 0.0, 0.0)));
    assert!(!b.includes(v(0.0, -1.01, 0.0)));
    assert!(!b.includes(v(5.0, 5.0, 5.0)));
    assert!(!b.includes(v(f32::NAN, 0.0, 0.0)));
}

#[test]
fn accelerated_polygon_bounds_its_mesh() {
    let tris = vec![
        Triangle::new([v(0.0, 0.0, 0.0), v(1.0, 0.0, 0.0), v(0.0, 1.0, 0.0)]),
        Triangle::new([v(0.0, 0.0, 2.0), v(-1.0, 0.0, 2.0), v(0.0, -1.0, 2.0)]),
    ];
    let m = AcceleratedPolygon::from_triangles(tris.clone());
    assert_eq!(m.polygon().triangles().len(), 2);
    assert_eq!(m.polygon().triangles()[1].vertices(), tris[1].vertices());
    assert_eq!(m.bounds().min(), v(-1.0, -1.0, 0.0));
    assert_eq!(m.bounds().max(), v(1.0, 1.0, 2.0));
}

#[test]
fn index_triples_checked_against_vertex_count() {
    assert!(indices_fit(&vec![[0, 1, 2], [0, 2, 3]], 4));
    assert!(!indices_fit(&vec![[0, 1, 2], [0, 2, 4]], 4));
    assert!(!indices_fit(&vec![[5, 0, 0]], 4));
    assert!(indices_fit(&vec![], 0));
    assert!(!indices_fit(&vec![[0, 0, 0]], 0));
}

#[test]
fn checked_normal_of_regular_triangle() {
    assert_eq!(unit_triangle().checked_normal(), Some(v(0.0, 0.0, 1.0)));
    let t = Triangle::new([v(0.0, 0.0, 0.0), v(0.0, 0.0, 2.0), v(0.0, 3.0, 0.0)]);
    assert_eq!(t.checked_normal(), Some(v(-1.0, 0.0, 0.0)));
}

#[test]
fn checked_normal_rejects_degenerate_triangles() {
    let collinear = Triangle::new([v(0.0, 0.0, 0.0), v(1.0, 1.0, 1.0), v(2.0, 2.0, 2.0)]);
    assert!(collinear.normal().is_nan());
    assert_eq!(collinear.checked_normal(), None);
    let infinite = Triangle::new([v(0.0, 0.0, 0.0), v(f32::INFINITY, 0.0, 0.0), v(0.0, 1.0, 0.0)]);
    assert_eq!(infinite.checked_normal(), None);
}
