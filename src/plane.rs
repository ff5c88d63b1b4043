//! An unbounded plane through a point, with a unit normal.
use crate::vector::{modelled, normalized, realizes};
use vstd::prelude::*;

verus! {

/// The plane through `centre` whose normal is `normal` (stored normalised).
#[derive(Clone, Copy, Debug)]
pub struct Plane {
    normal: glam::Vec3,
    centre: glam::Vec3,
}

impl Plane {
    /// The stored unit normal.
    pub closed spec fn unit_normal(&self) -> glam::Vec3 {
        self.normal
    }

    /// The point the plane was built through.
    pub closed spec fn anchor(&self) -> glam::Vec3 {
        self.centre
    }

    /// The normal at a point: the same everywhere on a plane.
    pub open spec fn normal_at_spec(&self, impact: glam::Vec3) -> glam::Vec3 {
        self.unit_normal()
    }

    pub fn new(normal: glam::Vec3, centre: glam::Vec3) -> (p: Plane)
        ensures
            realizes(p.unit_normal(), modelled(normalized(normal))),
            p.anchor() == centre,
    {
        Plane { normal: normal.normalize(), centre }
    }

    pub fn normal(&self) -> (n: glam::Vec3)
        ensures
            n == self.unit_normal(),
    {
        self.normal
    }

    pub fn centre(&self) -> (c: glam::Vec3)
        ensures
            c == self.anchor(),
    {
        self.centre
    }

    /// The surface normal at `impact`, computed from the plane alone.
    pub fn normal_at(&self, impact: glam::Vec3) -> (n: glam::Vec3)
        ensures
            n == self.normal_at_spec(impact),
    {
        self.normal
    }
}

/// The normal of a plane depends on the plane alone: queries at any two
/// points, or twice at one point, give the same vector, the unit normal stored
/// when the plane was built (a copy, so identical bit for bit).
pub proof fn lemma_plane_normal_stable(plane: Plane, p: glam::Vec3, q: glam::Vec3)
    ensures
        plane.normal_at_spec(p) == plane.normal_at_spec(q),
        plane.normal_at_spec(p) == plane.unit_normal(),
{
}

} // verus!
