//! Everything the renderer needs to draw one entity.

use vstd::prelude::*;

use crate::entity::Material;
use crate::transform::Transform;

verus! {

/// The drawable part of an entity: which mesh and shader to use, how to
/// place it, and the GPU handles resolved when the entity was built.
/// Creating the GPU buffers for the named mesh is the platform layer's work.
pub struct Renderable {
    /// The name of the mesh in the asset registry.
    pub mesh: String,
    pub material: Material,
    pub transform: Transform,
    /// The name of the shader in the asset registry.
    pub shader: String,
    /// The vertex-array handle of the mesh at build time.
    pub mesh_id: u32,
    /// How many indices the mesh draws.
    pub mesh_indices: u32,
}

} // verus!
