//! The fixed quad mesh: two triangles covering the unit square in normalized
//! device coordinates, with UV coordinates over the full texture.
//!
//! Every coordinate of the quad is `-1`, `0` or `1`, so the mesh is carried
//! exactly as integers; the application widens them to the backend's vertex
//! format when it uploads the buffer.

use vstd::prelude::*;

verus! {

/// One vertex of the quad: a position in normalized device coordinates and a
/// texture coordinate.
#[derive(Clone, Copy, PartialEq, Eq, Debug)]
pub struct Vertex {
    pub pos: (i32, i32),
    pub uv: (i32, i32),
}

impl Vertex {
    pub fn new(p: (i32, i32), u: (i32, i32)) -> (r: Vertex)
        ensures
            r.pos == p,
            r.uv == u,
    {
        Vertex { pos: p, uv: u }
    }
}

/// The six vertices of the quad: two counter-clockwise triangles spanning
/// `[-1,1] x [-1,1]`, UV spanning `[0,1] x [0,1]`.
pub open spec fn quad_vertices() -> Seq<Vertex> {
    seq![
        Vertex { pos: (-1i32, -1i32), uv: (0i32, 0i32) },
        Vertex { pos: (1i32, -1i32), uv: (1i32, 0i32) },
        Vertex { pos: (1i32, 1i32), uv: (1i32, 1i32) },
        Vertex { pos: (-1i32, -1i32), uv: (0i32, 0i32) },
        Vertex { pos: (1i32, 1i32), uv: (1i32, 1i32) },
        Vertex { pos: (-1i32, 1i32), uv: (0i32, 1i32) },
    ]
}

/// Build the fixed six-vertex quad mesh.  Pure and deterministic; an upload
/// failure on the device side is the application's `ResourceError`.
pub fn create_quad() -> (r: Vec<Vertex>)
    ensures
        r@ == quad_vertices(),
{
    let mut v: Vec<Vertex> = Vec::new();
    v.push(Vertex::new((-1, -1), (0, 0)));
    v.push(Vertex::new((1, -1), (1, 0)));
    v.push(Vertex::new((1, 1), (1, 1)));
    v.push(Vertex::new((-1, -1), (0, 0)));
    v.push(Vertex::new((1, 1), (1, 1)));
    v.push(Vertex::new((-1, 1), (0, 1)));
    proof {
        assert(v@ =~= quad_vertices());
    }
    v
}

} // verus!
