//! A triangle mesh: an ordered list of triangles.
use crate::triangle::Triangle;
use vstd::prelude::*;

verus! {

/// A mesh of triangles, kept in the order in which they were given.
#[derive(Debug)]
pub struct Polygon {
    triangles: Vec<Triangle>,
}

/// The vertices picked out of `vertices` by one index triple.
pub open spec fn indexed_corners(vertices: Seq<glam::Vec3>, index: [usize; 3]) -> [glam::Vec3; 3] {
    [vertices[index[0] as int], vertices[index[1] as int], vertices[index[2] as int]]
}

/// Every index of every triple points into a list of `n` vertices.
pub open spec fn indices_in_bounds(indices: Seq<[usize; 3]>, n: nat) -> bool {
    forall|i: int, k: int| 0 <= i < indices.len() && 0 <= k < 3 ==> #[trigger] indices[i][k] < n
}

/// Whether every index of every triple is below `n`, so that the triples can
/// be resolved against a list of `n` vertices.
pub fn indices_fit(indices: &Vec<[usize; 3]>, n: usize) -> (r: bool)
    ensures
        r == indices_in_bounds(indices@, n as nat),
{
    let mut i: usize = 0;
    while i < indices.len()
        invariant
            i <= indices@.len(),
            forall|j: int, k: int| 0 <= j < i && 0 <= k < 3 ==> #[trigger] indices@[j][k] < n,
        decreases indices@.len() - i,
    {
        let index = indices[i];
        if index[0] >= n || index[1] >= n || index[2] >= n {
            assert(!(indices@[i as int][0] < n && indices@[i as int][1] < n && indices@[i as int][2] < n));
            return false;
        }
        assert(indices@[i as int][0] < n && indices@[i as int][1] < n && indices@[i as int][2] < n);
        i = i + 1;
    }
    true
}

impl Polygon {
    /// The triangles of the mesh, in order.
    pub closed spec fn faces(&self) -> Seq<Triangle> {
        self.triangles@
    }

    /// Builds one triangle from each vertex triple.
    pub fn new(triangles: Vec<[glam::Vec3; 3]>) -> (p: Polygon)
        ensures
            p.faces().len() == triangles@.len(),
            forall|i: int| 0 <= i < triangles@.len() ==> #[trigger] p.faces()[i].corners() == triangles@[i],
    {
        let mut out: Vec<Triangle> = Vec::new();
        let mut i: usize = 0;
        while i < triangles.len()
            invariant
                i <= triangles@.len(),
                out@.len() == i,
                forall|j: int| 0 <= j < i ==> #[trigger] out@[j].corners() == triangles@[j],
            decreases triangles@.len() - i,
        {
            out.push(Triangle::new(triangles[i]));
            i = i + 1;
        }
        Polygon { triangles: out }
    }

    /// Wraps an existing list of triangles.
    pub fn from_triangles(triangles: Vec<Triangle>) -> (p: Polygon)
        ensures
            p.faces() == triangles@,
    {
        Polygon { triangles }
    }

    /// Builds one triangle per index triple, each index picking a vertex of
    /// `vertices`.
    pub fn new_from_vertices_and_indies(vertices: Vec<glam::Vec3>, indices: Vec<[usize; 3]>) -> (p: Polygon)
        requires
            indices_in_bounds(indices@, vertices@.len()),
        ensures
            p.faces().len() == indices@.len(),
            forall|i: int|
                0 <= i < indices@.len() ==> #[trigger] p.faces()[i].corners() == indexed_corners(vertices@, indices@[i]),
    {
        let mut out: Vec<Triangle> = Vec::new();
        let mut i: usize = 0;
        while i < indices.len()
            invariant
                i <= indices@.len(),
                indices_in_bounds(indices@, vertices@.len()),
                out@.len() == i,
                forall|j: int|
                    0 <= j < i ==> #[trigger] out@[j].corners() == indexed_corners(vertices@, indices@[j]),
            decreases indices@.len() - i,
        {
            let index = indices[i];
            assert(index[0] < vertices@.len() && index[1] < vertices@.len() && index[2] < vertices@.len()) by {
                assert(indices@[i as int][0] < vertices@.len());
                assert(indices@[i as int][1] < vertices@.len());
                assert(indices@[i as int][2] < vertices@.len());
            }
            let corners = [vertices[index[0]], vertices[index[1]], vertices[index[2]]];
            assert(corners == indexed_corners(vertices@, index));
            out.push(Triangle::new(corners));
            i = i + 1;
        }
        Polygon { triangles: out }
    }

    /// Joins meshes into one, keeping the order of the meshes and of the
    /// triangles within each.
    pub fn new_from_polygons(polygons: Vec<Polygon>) -> (p: Polygon)
        ensures
            p.faces() == polygons@.map_values(|q: Polygon| q.faces()).flatten(),
    {
        let ghost parts = polygons@.map_values(|q: Polygon| q.faces());
        let mut out: Vec<Triangle> = Vec::new();
        let mut i: usize = 0;
        while i < polygons.len()
            invariant
                i <= polygons@.len(),
                parts == polygons@.map_values(|q: Polygon| q.faces()),
                out@ == parts.subrange(0, i as int).flatten(),
            decreases polygons@.len() - i,
        {
            let part = &polygons[i].triangles;
            let mut j: usize = 0;
            while j < part.len()
                invariant
                    i < polygons@.len(),
                    j <= part@.len(),
                    part@ == parts[i as int],
                    out@ == parts.subrange(0, i as int).flatten() + part@.subrange(0, j as int),
                decreases part@.len() - j,
            {
                out.push(part[j]);
                j = j + 1;
                assert(part@.subrange(0, j as int) == part@.subrange(0, j - 1).push(part@[j - 1]));
            }
            proof {
                assert(part@.subrange(0, j as int) == part@);
                assert(parts.subrange(0, i + 1) == parts.subrange(0, i as int).push(parts[i as int]));
                parts.subrange(0, i as int).lemma_flatten_push(parts[i as int]);
            }
            i = i + 1;
        }
        assert(parts.subrange(0, i as int) == parts);
        Polygon { triangles: out }
    }

    /// The triangles of the mesh, in order.
    pub fn triangles(&self) -> (t: &Vec<Triangle>)
        ensures
            t@ == self.faces(),
    {
        &self.triangles
    }
}

} // verus!
