//! The axis-aligned bounding box of a mesh, and a mesh that carries one.
use crate::polygon::Polygon;
use crate::triangle::Triangle;
use crate::vector::{component_max, component_min, le_in_each_axis};
use vstd::prelude::*;

verus! {

/// Every vertex of every triangle, triangle by triangle, in winding order.
pub open spec fn mesh_points(triangles: Seq<Triangle>) -> Seq<glam::Vec3> {
    triangles.map_values(|t: Triangle| t.corners()@).flatten()
}

/// The component-wise minimum over a non-empty list of points, folded from
/// the front.
pub open spec fn lower_corner(points: Seq<glam::Vec3>) -> glam::Vec3
    decreases points.len(),
{
    if points.len() <= 1 {
        points[0]
    } else {
        component_min(lower_corner(points.drop_last()), points.last())
    }
}

/// The component-wise maximum over a non-empty list of points, folded from
/// the front.
pub open spec fn upper_corner(points: Seq<glam::Vec3>) -> glam::Vec3
    decreases points.len(),
{
    if points.len() <= 1 {
        points[0]
    } else {
        component_max(upper_corner(points.drop_last()), points.last())
    }
}

/// `p` lies in the box `[lo, hi]` on every axis (glam's `<=`, so a NaN
/// component is never inside).
pub open spec fn within(lo: glam::Vec3, hi: glam::Vec3, p: glam::Vec3) -> bool {
    let below = le_in_each_axis(lo, p);
    let above = le_in_each_axis(p, hi);
    below.0 && below.1 && below.2 && above.0 && above.1 && above.2
}

/// An axis-aligned box given by its two extreme corners.
#[derive(Clone, Copy, Debug)]
pub struct AABB {
    min: glam::Vec3,
    max: glam::Vec3,
}

impl AABB {
    pub closed spec fn lo(&self) -> glam::Vec3 {
        self.min
    }

    pub closed spec fn hi(&self) -> glam::Vec3 {
        self.max
    }

    /// The box around all vertices of a non-empty list of triangles.
    pub fn new(triangles: &Vec<Triangle>) -> (b: AABB)
        requires
            triangles@.len() > 0,
        ensures
            b.lo() == lower_corner(mesh_points(triangles@)),
            b.hi() == upper_corner(mesh_points(triangles@)),
    {
        let points = collect_points(triangles);
        assert(points@.len() > 0) by {
            lemma_mesh_points_len(triangles@);
        }
        // glam's `min`/`max` keep the other operand when one side is an
        // infinity of the losing sign, so folding from the first point gives
        // the same corners as folding from `±INFINITY`.
        let mut min = points[0];
        let mut max = points[0];
        let mut i: usize = 1;
        while i < points.len()
            invariant
                1 <= i <= points@.len(),
                min == lower_corner(points@.subrange(0, i as int)),
                max == upper_corner(points@.subrange(0, i as int)),
            decreases points@.len() - i,
        {
            let p = points[i];
            assert(points@.subrange(0, i + 1).drop_last() == points@.subrange(0, i as int));
            min = min.min(p);
            max = max.max(p);
            i = i + 1;
        }
        assert(points@.subrange(0, i as int) == points@);
        AABB { min, max }
    }

    /// Whether `point` lies inside the box or on its boundary.
    pub fn includes(&self, point: glam::Vec3) -> (r: bool)
        ensures
            r == within(self.lo(), self.hi(), point),
    {
        self.min.cmple(point).all() && point.cmple(self.max).all()
    }

    pub fn min(&self) -> (v: glam::Vec3)
        ensures
            v == self.lo(),
    {
        self.min
    }

    pub fn max(&self) -> (v: glam::Vec3)
        ensures
            v == self.hi(),
    {
        self.max
    }
}

/// A mesh has three points per triangle.
pub proof fn lemma_mesh_points_len(triangles: Seq<Triangle>)
    ensures
        mesh_points(triangles).len() == 3 * triangles.len(),
    decreases triangles.len(),
{
    if triangles.len() > 0 {
        let init = triangles.drop_last();
        lemma_mesh_points_len(init);
        assert(triangles.map_values(|t: Triangle| t.corners()@) == init.map_values(
            |t: Triangle| t.corners()@,
        ).push(triangles.last().corners()@));
        init.map_values(|t: Triangle| t.corners()@).lemma_flatten_push(triangles.last().corners()@);
    } else {
        assert(triangles.map_values(|t: Triangle| t.corners()@) =~= Seq::<Seq<glam::Vec3>>::empty());
    }
}

/// All vertices of the triangles, in order.
fn collect_points(triangles: &Vec<Triangle>) -> (points: Vec<glam::Vec3>)
    ensures
        points@ == mesh_points(triangles@),
{
    let mut points: Vec<glam::Vec3> = Vec::new();
    let mut i: usize = 0;
    while i < triangles.len()
        invariant
            i <= triangles@.len(),
            points@ == mesh_points(triangles@.subrange(0, i as int)),
        decreases triangles@.len() - i,
    {
        let v = triangles[i].vertices();
        let ghost before = points@;
        points.push(v[0]);
        points.push(v[1]);
        points.push(v[2]);
        proof {
            let head = triangles@.subrange(0, i as int);
            assert(triangles@.subrange(0, i + 1) == head.push(triangles@[i as int]));
            assert(triangles@.subrange(0, i + 1).map_values(|t: Triangle| t.corners()@) == head.map_values(
                |t: Triangle| t.corners()@,
            ).push(v@));
            head.map_values(|t: Triangle| t.corners()@).lemma_flatten_push(v@);
            assert(points@ =~= before + v@);
        }
        i = i + 1;
    }
    assert(triangles@.subrange(0, i as int) == triangles@);
    points
}

/// A mesh together with the bounding box of its vertices, which lets a caller
/// reject rays and points before testing single triangles.
#[derive(Debug)]
pub struct AcceleratedPolygon {
    polygon: Polygon,
    bounds: AABB,
}

impl AcceleratedPolygon {
    pub closed spec fn mesh(&self) -> Polygon {
        self.polygon
    }

    pub closed spec fn bounding_box(&self) -> AABB {
        self.bounds
    }

    /// Bounds a non-empty list of triangles and keeps them as a mesh.
    pub fn from_triangles(triangles: Vec<Triangle>) -> (m: AcceleratedPolygon)
        requires
            triangles@.len() > 0,
        ensures
            m.mesh().faces() == triangles@,
            m.bounding_box().lo() == lower_corner(mesh_points(triangles@)),
            m.bounding_box().hi() == upper_corner(mesh_points(triangles@)),
    {
        let bounds = AABB::new(&triangles);
        let polygon = Polygon::from_triangles(triangles);
        AcceleratedPolygon { polygon, bounds }
    }

    pub fn polygon(&self) -> (p: &Polygon)
        ensures
            *p == self.mesh(),
    {
        &self.polygon
    }

    pub fn bounds(&self) -> (b: &AABB)
        ensures
            *b == self.bounding_box(),
    {
        &self.bounds
    }
}

} // verus!
