//! The sampling pass that puts the computed image on screen.
//!
//! Almost all of that pass is GPU plumbing (a render pass, a sampler,
//! a graphics pipeline) owned by the application. What can be pinned
//! down here is its geometry: the static full-screen quad — six
//! vertices forming two triangles that cover clip space exactly, with
//! texture coordinates that map the image corner-to-corner. Clip-space
//! corners are `±1` and texture corners `0`/`1`, so the quad is exact
//! integer data.

use vstd::prelude::*;

verus! {

/// One vertex of the sampling quad: clip-space position (`z` always 0)
/// and texture coordinates, all exactly representable as small
/// integers.
#[derive(Clone, Copy, PartialEq, Eq, Structural, Debug)]
pub struct Vertex {
    pub x: i8,
    pub y: i8,
    pub z: i8,
    pub u: i8,
    pub v: i8,
}

impl Vertex {
    /// A quad corner: on the clip-space square, over the matching
    /// texture corner.
    pub open spec fn is_corner(self) -> bool {
        &&& (self.x == -1 || self.x == 1)
        &&& (self.y == -1 || self.y == 1)
        &&& self.z == 0
        &&& self.u as int == (self.x + 1) / 2
        &&& self.v as int == (self.y + 1) / 2
    }

    /// Build one vertex.
    pub fn new(x: i8, y: i8, z: i8, u: i8, v: i8) -> (r: Vertex)
        ensures
            r == (Vertex { x, y, z, u, v }),
    {
        Vertex { x, y, z, u, v }
    }

    /// The static full-screen quad: two triangles whose six vertices
    /// are the four clip-space corners, each sampling the matching
    /// texture corner.
    pub fn fullscreen_quad() -> (r: [Vertex; 6])
        ensures
            r@ == seq![
                Vertex { x: 1i8, y: 1i8, z: 0i8, u: 1i8, v: 1i8 },
                Vertex { x: -1i8, y: 1i8, z: 0i8, u: 0i8, v: 1i8 },
                Vertex { x: 1i8, y: -1i8, z: 0i8, u: 1i8, v: 0i8 },
                Vertex { x: -1i8, y: -1i8, z: 0i8, u: 0i8, v: 0i8 },
                Vertex { x: 1i8, y: -1i8, z: 0i8, u: 1i8, v: 0i8 },
                Vertex { x: -1i8, y: 1i8, z: 0i8, u: 0i8, v: 1i8 },
            ],
            forall|i: int| 0 <= i < 6 ==> (#[trigger] r@[i]).is_corner(),
    {
        let quad = [
            Vertex { x: 1i8, y: 1i8, z: 0i8, u: 1i8, v: 1i8 },
            Vertex { x: -1i8, y: 1i8, z: 0i8, u: 0i8, v: 1i8 },
            Vertex { x: 1i8, y: -1i8, z: 0i8, u: 1i8, v: 0i8 },
            Vertex { x: -1i8, y: -1i8, z: 0i8, u: 0i8, v: 0i8 },
            Vertex { x: 1i8, y: -1i8, z: 0i8, u: 1i8, v: 0i8 },
            Vertex { x: -1i8, y: 1i8, z: 0i8, u: 0i8, v: 1i8 },
        ];
        proof {
            assert(quad@ =~= seq![
                Vertex { x: 1i8, y: 1i8, z: 0i8, u: 1i8, v: 1i8 },
                Vertex { x: -1i8, y: 1i8, z: 0i8, u: 0i8, v: 1i8 },
                Vertex { x: 1i8, y: -1i8, z: 0i8, u: 1i8, v: 0i8 },
                Vertex { x: -1i8, y: -1i8, z: 0i8, u: 0i8, v: 0i8 },
                Vertex { x: 1i8, y: -1i8, z: 0i8, u: 1i8, v: 0i8 },
                Vertex { x: -1i8, y: 1i8, z: 0i8, u: 0i8, v: 1i8 },
            ]);
        }
        quad
    }
}

} // verus!
