//! Entities: drawable things, the builder that assembles them, and the
//! typed errors the builder can surface.

use vstd::prelude::*;

use crate::assets::AssetsManager;
use crate::buffer::EntityBuffer;
use crate::fixed::{Vec3, Vec4};
use crate::renderable::Renderable;
use crate::transform::Transform;

verus! {

/// Surface colour of an entity, in fixed-point thousandths per channel.
#[derive(Debug, Clone, Copy, PartialEq, Eq, Structural)]
pub struct Material {
    pub color: Vec4,
}

impl Material {
    pub fn new(color: Vec4) -> (r: Material)
        ensures
            r.color == color,
    {
        Material { color }
    }
}

/// A drawable thing in the scene, identified by the id the entity buffer
/// issued when it was built.
pub struct Entity {
    pub id: u32,
    pub renderable: Renderable,
}

impl Entity {
    pub fn get_id(&self) -> (r: u32)
        ensures
            r == self.id,
    {
        self.id
    }

    pub fn get_mesh_id(&self) -> (r: u32)
        ensures
            r == self.renderable.mesh_id,
    {
        self.renderable.mesh_id
    }

    pub fn get_mesh_indices(&self) -> (r: u32)
        ensures
            r == self.renderable.mesh_indices,
    {
        self.renderable.mesh_indices
    }
}

/// How building or looking up an entity can fail.  A missing resource is
/// reported to the caller and never silently substituted.
#[derive(Debug, Clone, Copy, PartialEq, Eq, Structural)]
pub enum EntityError {
    MeshNotFound,
    ShaderNotFound,
    EntityNotFound,
}

/// Accumulates the parts of an entity; `build` resolves the referenced mesh
/// and produces the entity or a typed error.
pub struct EntityBuilder {
    pub mesh: Option<String>,
    pub shader: Option<String>,
    pub material: Material,
    pub position: Vec3,
    pub rotation: Vec3,
    pub scale: Vec3,
}

impl EntityBuilder {
    /// A builder with no mesh or shader yet, a white material, and the
    /// identity placement.
    pub fn new() -> (r: EntityBuilder)
        ensures
            r.mesh is None,
            r.shader is None,
            r.material.color == (Vec4 { x: 1000, y: 1000, z: 1000, w: 1000 }),
            r.position == (Vec3 { x: 0, y: 0, z: 0 }),
            r.rotation == (Vec3 { x: 0, y: 0, z: 0 }),
            r.scale == (Vec3 { x: 1000, y: 1000, z: 1000 }),
    {
        EntityBuilder {
            mesh: None,
            shader: None,
            material: Material { color: Vec4 { x: 1000, y: 1000, z: 1000, w: 1000 } },
            position: Vec3 { x: 0, y: 0, z: 0 },
            rotation: Vec3 { x: 0, y: 0, z: 0 },
            scale: Vec3 { x: 1000, y: 1000, z: 1000 },
        }
    }

    /// Names the mesh the entity will draw.
    pub fn with_mesh(self, mesh: &str) -> (r: EntityBuilder)
        ensures
            r.mesh is Some && r.mesh.unwrap()@ == mesh@,
            r.shader == self.shader,
            r.material == self.material,
            r.position == self.position,
            r.rotation == self.rotation,
            r.scale == self.scale,
    {
        EntityBuilder { mesh: Some(mesh.to_string()), ..self }
    }

    pub fn with_material(self, material: Material) -> (r: EntityBuilder)
        ensures
            r.material == material,
            r.mesh == self.mesh,
            r.shader == self.shader,
            r.position == self.position,
            r.rotation == self.rotation,
            r.scale == self.scale,
    {
        EntityBuilder { material, ..self }
    }

    /// Names the shader the entity will be drawn with.
    pub fn with_shader(self, shader: &str) -> (r: EntityBuilder)
        ensures
            r.shader is Some && r.shader.unwrap()@ == shader@,
            r.mesh == self.mesh,
            r.material == self.material,
            r.position == self.position,
            r.rotation == self.rotation,
            r.scale == self.scale,
    {
        EntityBuilder { shader: Some(shader.to_string()), ..self }
    }

    /// Takes position, rotation and scale from a transform at once.
    pub fn with_transform(self, transform: Transform) -> (r: EntityBuilder)
        ensures
            r.position == transform.position,
            r.rotation == transform.rotation,
            r.scale == transform.scale,
            r.mesh == self.mesh,
            r.shader == self.shader,
            r.material == self.material,
    {
        EntityBuilder {
            position: transform.position,
            rotation: transform.rotation,
            scale: transform.scale,
            ..self
        }
    }

    pub fn with_position(self, position: Vec3) -> (r: EntityBuilder)
        ensures
            r == (EntityBuilder { position, ..self }),
    {
        EntityBuilder { position, ..self }
    }

    pub fn with_rotation(self, rotation: Vec3) -> (r: EntityBuilder)
        ensures
            r == (EntityBuilder { rotation, ..self }),
    {
        EntityBuilder { rotation, ..self }
    }

    pub fn with_scale(self, scale: Vec3) -> (r: EntityBuilder)
        ensures
            r == (EntityBuilder { scale, ..self }),
    {
        EntityBuilder { scale, ..self }
    }

    /// Whether `build` will succeed against the given registry: a mesh name
    /// was given and is registered, and a shader name was given.
    pub open spec fn buildable(self, assets: &AssetsManager) -> bool {
        &&& self.mesh is Some
        &&& assets.has_object(self.mesh.unwrap()@)
        &&& self.shader is Some
    }

    /// Resolves the named mesh in the registry and assembles the entity,
    /// drawing a fresh id from the buffer.  A missing or unregistered mesh
    /// name and a missing shader name each yield their typed error, and an
    /// error leaves the buffer untouched.
    pub fn build(self, assets: &AssetsManager, buffer: &mut EntityBuffer) -> (r: Result<
        Entity,
        EntityError,
    >)
        requires
            self.buildable(assets) ==> old(buffer).last_id < u32::MAX,
        ensures
            r is Ok <==> self.buildable(assets),
            r is Err ==> *final(buffer) == *old(buffer),
            self.mesh is None ==> r == Err::<Entity, EntityError>(EntityError::MeshNotFound),
            self.mesh is Some && !assets.has_object(self.mesh.unwrap()@) ==> r == Err::<
                Entity,
                EntityError,
            >(EntityError::MeshNotFound),
            self.mesh is Some && assets.has_object(self.mesh.unwrap()@) && self.shader is None
                ==> r == Err::<Entity, EntityError>(EntityError::ShaderNotFound),
            r matches Ok(e) ==> {
                &&& e.id == old(buffer).last_id + 1
                &&& final(buffer).last_id == old(buffer).last_id + 1
                &&& final(buffer).entities == old(buffer).entities
                &&& final(buffer).light == old(buffer).light
                &&& e.renderable.mesh@ == self.mesh.unwrap()@
                &&& e.renderable.shader@ == self.shader.unwrap()@
                &&& e.renderable.material == self.material
                &&& e.renderable.transform == (Transform {
                    position: self.position,
                    rotation: self.rotation,
                    scale: self.scale,
                })
                &&& assets.wf() ==> {
                    &&& e.renderable.mesh_id == assets.object_named(self.mesh.unwrap()@).vao
                    &&& assets.object_named(self.mesh.unwrap()@).indices@.len() <= u32::MAX
                        ==> e.renderable.mesh_indices == assets.object_named(
                        self.mesh.unwrap()@,
                    ).indices@.len()
                }
            },
    {
        let mesh_id: u32;
        let mesh_indices: u32;
        let mesh = match self.mesh {
            Some(mesh) => mesh,
            None => {
                return Err(EntityError::MeshNotFound);
            }
        };
        match assets.get_object(mesh.as_str()) {
            Some(mesh_obj) => {
                mesh_id = mesh_obj.get_id();
                mesh_indices = mesh_obj.indices.len() as u32;
            }
            None => {
                return Err(EntityError::MeshNotFound);
            }
        }
        let shader = match self.shader {
            Some(shader) => shader,
            None => {
                return Err(EntityError::ShaderNotFound);
            }
        };

        let transform = Transform {
            position: self.position,
            rotation: self.rotation,
            scale: self.scale,
        };

        let renderable = Renderable {
            mesh,
            material: self.material,
            transform,
            shader,
            mesh_id,
            mesh_indices,
        };

        let entity = Entity { id: buffer.get_id(), renderable };

        Ok(entity)
    }
}

} // verus!
