//! A single triangle, given by its three vertices.
use crate::vector::{cross_product, difference, has_nan, modelled, normalized, realizes, subtract};
use vstd::prelude::*;

verus! {

/// A triangle with vertices `a`, `b`, `c` (in that winding order).
#[derive(Clone, Copy, Debug)]
pub struct Triangle {
    vertices: [glam::Vec3; 3],
}

impl Triangle {
    /// The three vertices, in order.
    pub closed spec fn corners(&self) -> [glam::Vec3; 3] {
        self.vertices
    }

    /// The unnormalised normal `(b - a) × (c - a)`, whose length is twice the
    /// area. `None` where an edge or the product holds a NaN.
    pub open spec fn raw_normal_model(&self) -> Option<glam::Vec3> {
        match (
            modelled(difference(self.corners()[1], self.corners()[0])),
            modelled(difference(self.corners()[2], self.corners()[0])),
        ) {
            (Some(ab), Some(ac)) => modelled(cross_product(ab, ac)),
            _ => None,
        }
    }

    /// The unit normal. `None` where a step holds a NaN, as for a degenerate
    /// triangle, whose zero normal cannot be scaled to unit length.
    pub open spec fn normal_model(&self) -> Option<glam::Vec3> {
        match self.raw_normal_model() {
            Some(n) => modelled(normalized(n)),
            None => None,
        }
    }

    /// The normal at a point: the same everywhere on a triangle.
    pub open spec fn normal_at_spec(&self, impact: glam::Vec3) -> Option<glam::Vec3> {
        self.normal_model()
    }

    pub fn new(vertices: [glam::Vec3; 3]) -> (t: Triangle)
        ensures
            t.corners() == vertices,
    {
        Triangle { vertices }
    }

    pub fn vertices(&self) -> (v: [glam::Vec3; 3])
        ensures
            v == self.corners(),
    {
        self.vertices
    }

    pub fn normal_raw(&self) -> (n: glam::Vec3)
        ensures
            realizes(n, self.raw_normal_model()),
    {
        let a = self.vertices[0];
        let b = self.vertices[1];
        let c = self.vertices[2];
        let ab = subtract(b, a);
        let ac = subtract(c, a);
        ab.cross(ac)
    }

    pub fn normal(&self) -> (n: glam::Vec3)
        ensures
            realizes(n, self.normal_model()),
    {
        self.normal_raw().normalize()
    }

    /// The surface normal at `impact`: the triangle's unit normal, whatever
    /// the point.
    pub fn normal_at(&self, impact: glam::Vec3) -> (n: glam::Vec3)
        ensures
            realizes(n, self.normal_at_spec(impact)),
    {
        self.normal()
    }

    /// The unit normal, or `None` where it holds a NaN (a degenerate or
    /// non-finite triangle), so that callers can reject such triangles.
    pub fn checked_normal(&self) -> (n: Option<glam::Vec3>)
        ensures
            n == self.normal_model(),
    {
        let n = self.normal();
        if n.is_nan() {
            None
        } else {
            Some(n)
        }
    }
}

/// The normal of a triangle depends on its vertices alone: any two results of
/// `normal_at`, at one point or at two, are the same vector unless a NaN is
/// involved, and then both hold one.
pub proof fn lemma_triangle_normal_stable(
    t: Triangle,
    p: glam::Vec3,
    q: glam::Vec3,
    first: glam::Vec3,
    second: glam::Vec3,
)
    requires
        realizes(first, t.normal_at_spec(p)),
        realizes(second, t.normal_at_spec(q)),
    ensures
        has_nan(first) == has_nan(second),
        !has_nan(first) ==> first == second,
        t.normal_at_spec(p) == t.normal_at_spec(q),
{
}

} // verus!
