//! The one and only mesh of the demo: three colored vertices forming a
//! triangle. The GPU consumes single-precision floats, but every coordinate
//! and color channel of this mesh is a multiple of one tenth, so the library
//! stores each component as an integer count of tenths and the unverified
//! shell divides by ten when it uploads the data.

use vstd::prelude::*;

verus! {

/// One vertex of the mesh: a 2-component position and a 3-component color.
/// Each field is a count of tenths of a unit, so `x == -5` stands for a
/// coordinate of -0.5 and `r == 10` for a fully saturated red channel.
#[derive(Clone, Copy, Debug, PartialEq, Eq, Structural)]
pub struct Vertex {
    /// Horizontal position, in tenths.
    pub x: i32,
    /// Vertical position, in tenths.
    pub y: i32,
    /// Red channel, in tenths.
    pub r: i32,
    /// Green channel, in tenths.
    pub g: i32,
    /// Blue channel, in tenths.
    pub b: i32,
}

/// The fixed triangle: a red bottom-left corner at (-0.5, -0.5), a green
/// bottom-right corner at (0.5, -0.5), and a blue top corner at (0.0, 0.5).
pub open spec fn triangle_spec() -> Seq<Vertex> {
    seq![
        Vertex { x: -5i32, y: -5i32, r: 10i32, g: 0i32, b: 0i32 },
        Vertex { x: 5i32, y: -5i32, r: 0i32, g: 10i32, b: 0i32 },
        Vertex { x: 0i32, y: 5i32, r: 0i32, g: 0i32, b: 10i32 },
    ]
}

/// Builds the vertex array that is uploaded to the GPU. The result is
/// exactly the fixed triangle: three vertices, in order.
pub fn triangle_vertices() -> (v: Vec<Vertex>)
    ensures
        v@ == triangle_spec(),
{
    let mut v: Vec<Vertex> = Vec::new();
    v.push(Vertex { x: -5, y: -5, r: 10, g: 0, b: 0 });
    v.push(Vertex { x: 5, y: -5, r: 0, g: 10, b: 0 });
    v.push(Vertex { x: 0, y: 5, r: 0, g: 0, b: 10 });
    proof {
        assert(v@ =~= triangle_spec());
    }
    v
}

/// The mesh always holds exactly three vertices, with the positions
/// (-0.5, -0.5), (0.5, -0.5), (0.0, 0.5) and the colors red, green, blue,
/// in that order.
pub proof fn lemma_triangle_data()
    ensures
        triangle_spec().len() == 3,
        triangle_spec()[0] == (Vertex { x: -5i32, y: -5i32, r: 10i32, g: 0i32, b: 0i32 }),
        triangle_spec()[1] == (Vertex { x: 5i32, y: -5i32, r: 0i32, g: 10i32, b: 0i32 }),
        triangle_spec()[2] == (Vertex { x: 0i32, y: 5i32, r: 0i32, g: 0i32, b: 10i32 }),
{
}

} // verus!
