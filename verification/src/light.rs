//! The scene light and its builder.

use vstd::prelude::*;

use crate::assets::AssetsManager;
use crate::buffer::EntityBuffer;
use crate::entity::{Entity, EntityBuilder, EntityError, Material};
use crate::fixed::Vec3;
use crate::transform::Transform;

verus! {

/// A light source: an ordinary entity plus lighting coefficients, each in
/// fixed-point thousandths.
pub struct Light {
    pub entity: Entity,
    pub ambient: i64,
    pub diffuse: i64,
    pub specular: i64,
    pub color: Vec3,
}

/// Accumulates the parts of a light around an entity builder.
pub struct LightBuilder {
    pub entity: EntityBuilder,
    pub ambient: i64,
    pub diffuse: i64,
    pub specular: i64,
    pub color: Vec3,
}

impl LightBuilder {
    /// A white light with mild ambient, strong diffuse and full specular
    /// coefficients.
    pub fn new() -> (r: LightBuilder)
        ensures
            r.entity.mesh is None,
            r.entity.shader is None,
            r.ambient == 100,
            r.diffuse == 800,
            r.specular == 1000,
            r.color == (Vec3 { x: 1000, y: 1000, z: 1000 }),
    {
        LightBuilder {
            entity: EntityBuilder::new(),
            ambient: 100,
            diffuse: 800,
            specular: 1000,
            color: Vec3 { x: 1000, y: 1000, z: 1000 },
        }
    }

    pub fn with_ambient(self, ambient: i64) -> (r: LightBuilder)
        ensures
            r == (LightBuilder { ambient, ..self }),
    {
        LightBuilder { ambient, ..self }
    }

    pub fn with_diffuse(self, diffuse: i64) -> (r: LightBuilder)
        ensures
            r == (LightBuilder { diffuse, ..self }),
    {
        LightBuilder { diffuse, ..self }
    }

    pub fn with_specular(self, specular: i64) -> (r: LightBuilder)
        ensures
            r == (LightBuilder { specular, ..self }),
    {
        LightBuilder { specular, ..self }
    }

    pub fn with_color(self, color: Vec3) -> (r: LightBuilder)
        ensures
            r == (LightBuilder { color, ..self }),
    {
        LightBuilder { color, ..self }
    }

    /// Names the mesh the light's marker entity will draw.
    pub fn with_mesh(self, mesh: &str) -> (r: LightBuilder)
        ensures
            r.entity.mesh is Some && r.entity.mesh.unwrap()@ == mesh@,
            r.entity.shader == self.entity.shader,
            r.entity.material == self.entity.material,
            r.entity.position == self.entity.position,
            r.entity.rotation == self.entity.rotation,
            r.entity.scale == self.entity.scale,
            r.ambient == self.ambient,
            r.diffuse == self.diffuse,
            r.specular == self.specular,
            r.color == self.color,
    {
        let entity = self.entity.with_mesh(mesh);
        LightBuilder { entity, ..self }
    }

    pub fn with_material(self, material: Material) -> (r: LightBuilder)
        ensures
            r.entity.material == material,
            r.entity.mesh == self.entity.mesh,
            r.entity.shader == self.entity.shader,
            r.entity.position == self.entity.position,
            r.entity.rotation == self.entity.rotation,
            r.entity.scale == self.entity.scale,
            r.ambient == self.ambient,
            r.diffuse == self.diffuse,
            r.specular == self.specular,
            r.color == self.color,
    {
        let entity = self.entity.with_material(material);
        LightBuilder { entity, ..self }
    }

    /// Names the shader the light's marker entity is drawn with.
    pub fn with_shader(self, shader: &str) -> (r: LightBuilder)
        ensures
            r.entity.shader is Some && r.entity.shader.unwrap()@ == shader@,
            r.entity.mesh == self.entity.mesh,
            r.entity.material == self.entity.material,
            r.entity.position == self.entity.position,
            r.entity.rotation == self.entity.rotation,
            r.entity.scale == self.entity.scale,
            r.ambient == self.ambient,
            r.diffuse == self.diffuse,
            r.specular == self.specular,
            r.color == self.color,
    {
        let entity = self.entity.with_shader(shader);
        LightBuilder { entity, ..self }
    }

    pub fn with_transform(self, transform: Transform) -> (r: LightBuilder)
        ensures
            r.entity.position == transform.position,
            r.entity.rotation == transform.rotation,
            r.entity.scale == transform.scale,
            r.entity.mesh == self.entity.mesh,
            r.entity.shader == self.entity.shader,
            r.entity.material == self.entity.material,
            r.ambient == self.ambient,
            r.diffuse == self.diffuse,
            r.specular == self.specular,
            r.color == self.color,
    {
        let entity = self.entity.with_transform(transform);
        LightBuilder { entity, ..self }
    }

    pub fn with_position(self, position: Vec3) -> (r: LightBuilder)
        ensures
            r == (LightBuilder {
                entity: EntityBuilder { position, ..self.entity },
                ..self
            }),
    {
        let entity = self.entity.with_position(position);
        LightBuilder { entity, ..self }
    }

    pub fn with_rotation(self, rotation: Vec3) -> (r: LightBuilder)
        ensures
            r == (LightBuilder {
                entity: EntityBuilder { rotation, ..self.entity },
                ..self
            }),
    {
        let entity = self.entity.with_rotation(rotation);
        LightBuilder { entity, ..self }
    }

    pub fn with_scale(self, scale: Vec3) -> (r: LightBuilder)
        ensures
            r == (LightBuilder {
                entity: EntityBuilder { scale, ..self.entity },
                ..self
            }),
    {
        let entity = self.entity.with_scale(scale);
        LightBuilder { entity, ..self }
    }

    /// Builds the light's entity as `EntityBuilder::build` does and wraps
    /// it with the lighting coefficients; errors pass through unchanged and
    /// leave the buffer untouched.
    pub fn build(self, assets: &AssetsManager, entities: &mut EntityBuffer) -> (r: Result<
        Light,
        EntityError,
    >)
        requires
            self.entity.buildable(assets) ==> old(entities).last_id < u32::MAX,
        ensures
            r is Ok <==> self.entity.buildable(assets),
            r is Err ==> *final(entities) == *old(entities),
            self.entity.mesh is None ==> r == Err::<Light, EntityError>(EntityError::MeshNotFound),
            self.entity.mesh is Some && !assets.has_object(self.entity.mesh.unwrap()@) ==> r
                == Err::<Light, EntityError>(EntityError::MeshNotFound),
            self.entity.mesh is Some && assets.has_object(self.entity.mesh.unwrap()@)
                && self.entity.shader is None ==> r == Err::<Light, EntityError>(
                EntityError::ShaderNotFound,
            ),
            r matches Ok(light) ==> {
                &&& light.ambient == self.ambient
                &&& light.diffuse == self.diffuse
                &&& light.specular == self.specular
                &&& light.color == self.color
                &&& light.entity.id == old(entities).last_id + 1
                &&& final(entities).last_id == old(entities).last_id + 1
                &&& final(entities).entities == old(entities).entities
                &&& final(entities).light == old(entities).light
                &&& light.entity.renderable.mesh@ == self.entity.mesh.unwrap()@
                &&& light.entity.renderable.shader@ == self.entity.shader.unwrap()@
                &&& light.entity.renderable.material == self.entity.material
                &&& light.entity.renderable.transform == (Transform {
                    position: self.entity.position,
                    rotation: self.entity.rotation,
                    scale: self.entity.scale,
                })
            },
    {
        let entity = match self.entity.build(assets, entities) {
            Ok(entity) => entity,
            Err(e) => {
                return Err(e);
            }
        };
        let light = Light {
            entity,
            ambient: self.ambient,
            diffuse: self.diffuse,
            specular: self.specular,
            color: self.color,
        };
        Ok(light)
    }
}

} // verus!
