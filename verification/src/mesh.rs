//! Mesh data and the two built-in shapes.
//!
//! Vertices are fixed-point thousandths, six coordinates per vertex (a
//! position and a normal); indices select vertices into triangles.  The GPU
//! buffer handles are produced by the platform layer and recorded here.

use vstd::prelude::*;

verus! {

/// Vertex and index data for one mesh, plus the GPU buffer handles once the
/// platform layer has created them.
pub struct Mesh {
    /// Interleaved vertex data in fixed-point thousandths.
    pub vertices: Vec<i64>,
    /// Triangle indices into the vertex data.
    pub indices: Vec<u32>,

    /// Vertex-array handle; zero until the buffers are created.
    pub vao: u32,
    /// Vertex-buffer handle; zero until the buffers are created.
    pub vbo: u32,
    /// Element-buffer handle; zero until the buffers are created.
    pub ebo: u32,
}

impl Mesh {
    /// A mesh that holds its data and no GPU buffers yet.
    pub fn new(vertices: Vec<i64>, indices: Vec<u32>) -> (r: Mesh)
        ensures
            r.vertices@ == vertices@,
            r.indices@ == indices@,
            r.vao == 0,
            r.vbo == 0,
            r.ebo == 0,
    {
        Mesh { vertices, indices, vao: 0, vbo: 0, ebo: 0 }
    }

    /// The mesh's vertex-array handle, used to bind it for drawing.
    pub fn get_id(&self) -> (r: u32)
        ensures
            r == self.vao,
    {
        self.vao
    }

    /// Records the GPU buffer handles that the platform layer created for
    /// this mesh's data.
    pub fn init(&mut self, vao: u32, vbo: u32, ebo: u32)
        ensures
            final(self).vertices == old(self).vertices,
            final(self).indices == old(self).indices,
            final(self).vao == vao,
            final(self).vbo == vbo,
            final(self).ebo == ebo,
    {
        self.vao = vao;
        self.vbo = vbo;
        self.ebo = ebo;
    }
}

/// The vertex data of the built-in square.
pub open spec fn square_vertices() -> Seq<i64> {
    seq![
        -500i64, 500i64, 0i64, 0i64, 0i64, 1000i64,
        -500i64, -500i64, 0i64, 0i64, 0i64, 1000i64,
        500i64, 500i64, 0i64, 0i64, 0i64, 1000i64,
        500i64, -500i64, 0i64, 0i64, 0i64, 1000i64,
    ]
}

/// The index data of the built-in square.
pub open spec fn square_indices() -> Seq<u32> {
    seq![0u32, 1u32, 2u32, 2u32, 3u32, 1u32]
}

/// A unit square in the plane, with its normal along the depth axis.
pub fn square() -> (r: Mesh)
    ensures
        r.vertices@ =~= square_vertices(),
        r.indices@ =~= square_indices(),
        r.vao == 0,
        r.vbo == 0,
        r.ebo == 0,
{
    let vertices: Vec<i64> = vec![
        -500, 500, 0, 0, 0, 1000,
        -500, -500, 0, 0, 0, 1000,
        500, 500, 0, 0, 0, 1000,
        500, -500, 0, 0, 0, 1000,
    ];
    let indices: Vec<u32> = vec![0, 1, 2, 2, 3, 1];
    Mesh::new(vertices, indices)
}

/// The vertex data of the built-in cube.
pub open spec fn cube_vertices() -> Seq<i64> {
    seq![
        500i64, 500i64, 500i64, 1000i64, 0i64, 0i64,
        500i64, 500i64, -500i64, 1000i64, 0i64, 0i64,
        500i64, -500i64, 500i64, 1000i64, 0i64, 0i64,
        500i64, -500i64, -500i64, 1000i64, 0i64, 0i64,
        -500i64, 500i64, 500i64, 1000i64, 0i64, 0i64,
        -500i64, 500i64, -500i64, 1000i64, 0i64, 0i64,
        -500i64, -500i64, 500i64, 1000i64, 0i64, 0i64,
        -500i64, -500i64, -500i64, 1000i64, 0i64, 0i64,
    ]
}

/// The index data of the built-in cube.
pub open spec fn cube_indices() -> Seq<u32> {
    seq![
        0u32, 1u32, 2u32, 2u32, 1u32, 3u32,
        4u32, 5u32, 6u32, 6u32, 5u32, 7u32,
        0u32, 2u32, 4u32, 4u32, 2u32, 6u32,
        1u32, 5u32, 3u32, 3u32, 5u32, 7u32,
        2u32, 3u32, 6u32, 6u32, 3u32, 7u32,
        0u32, 4u32, 1u32, 1u32, 4u32, 5u32,
    ]
}

/// A unit cube, with one normal per corner along the width axis.
pub fn cube() -> (r: Mesh)
    ensures
        r.vertices@ =~= cube_vertices(),
        r.indices@ =~= cube_indices(),
        r.vao == 0,
        r.vbo == 0,
        r.ebo == 0,
{
    let vertices: Vec<i64> = vec![
        500, 500, 500, 1000, 0, 0,
        500, 500, -500, 1000, 0, 0,
        500, -500, 500, 1000, 0, 0,
        500, -500, -500, 1000, 0, 0,
        -500, 500, 500, 1000, 0, 0,
        -500, 500, -500, 1000, 0, 0,
        -500, -500, 500, 1000, 0, 0,
        -500, -500, -500, 1000, 0, 0,
    ];
    let indices: Vec<u32> = vec![
        0, 1, 2, 2, 1, 3,
        4, 5, 6, 6, 5, 7,
        0, 2, 4, 4, 2, 6,
        1, 5, 3, 3, 5, 7,
        2, 3, 6, 6, 3, 7,
        0, 4, 1, 1, 4, 5,
    ];
    Mesh::new(vertices, indices)
}

} // verus!
