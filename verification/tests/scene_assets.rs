//! The asset registry, entity building and the scene buffer.

use gear::assets::AssetsManager;
use gear::buffer::EntityBuffer;
use gear::entity::{EntityBuilder, EntityError, Material};
use gear::fixed::{Vec3, Vec4};
use gear::light::LightBuilder;
use gear::mesh::{Mesh, cube, square};
use gear::shader::Shader;
use gear::transform::Transform;

#[test]
fn building_with_unregistered_mesh_is_mesh_not_found() {
    // Building an entity referencing an unregistered mesh name yields
    // MeshNotFound and no entity is added to the buffer.
    let assets = AssetsManager::new("assets");
    let mut buffer = EntityBuffer::new();

    let result = EntityBuilder::new()
        .with_shader("default")
        .with_mesh("missing")
        .build(&assets, &mut buffer);

    assert!(matches!(result, Err(EntityError::MeshNotFound)));
    assert!(buffer.entities.is_empty());
    assert_eq!(buffer.last_id, 0);
}

#[test]
fn building_without_mesh_is_mesh_not_found() {
    let assets = AssetsManager::new("assets");
    let mut buffer = EntityBuffer::new();
    let result = EntityBuilder::new().with_shader("default").build(&assets, &mut buffer);
    assert!(matches!(result, Err(EntityError::MeshNotFound)));
    assert!(buffer.entities.is_empty());
}

#[test]
fn building_without_shader_is_shader_not_found() {
    let mut assets = AssetsManager::new("assets");
    assets.put_object("cube", cube());
    let mut buffer = EntityBuffer::new();
    let result = EntityBuilder::new().with_mesh("cube").build(&assets, &mut buffer);
    assert!(matches!(result, Err(EntityError::ShaderNotFound)));
    assert!(buffer.entities.is_empty());
}

#[test]
fn building_resolves_the_registered_mesh() {
    let mut assets = AssetsManager::new("assets");
    let mut mesh = cube();
    mesh.init(7, 8, 9);
    assets.put_object("cube", mesh);
    let mut buffer = EntityBuffer::new();

    let entity = EntityBuilder::new()
        .with_shader("default")
        .with_mesh("cube")
        .with_material(Material::new(Vec4::new(1000, 0, 0, 1000)))
        .with_position(Vec3::new(500, -500, 0))
        .with_scale(Vec3 { x: 500, y: 500, z: 500 })
        .build(&assets, &mut buffer)
        .unwrap();

    assert_eq!(entity.get_id(), 1);
    assert_eq!(entity.get_mesh_id(), 7);
    assert_eq!(entity.get_mesh_indices(), 36);
    assert_eq!(entity.renderable.mesh, "cube");
    assert_eq!(entity.renderable.shader, "default");
    assert_eq!(entity.renderable.transform.position, Vec3::new(500, -500, 0));
    assert_eq!(entity.renderable.transform.scale, Vec3 { x: 500, y: 500, z: 500 });
    assert_eq!(buffer.last_id, 1);

    buffer.add_entity(entity);
    assert_eq!(buffer.entities.len(), 1);
    assert!(buffer.get_entity(1).is_some());
    assert!(buffer.get_entity(2).is_none());
}

#[test]
fn removing_entities_by_id() {
    let mut assets = AssetsManager::new("assets");
    assets.put_object("cube", cube());
    let mut buffer = EntityBuffer::new();

    for _ in 0..2 {
        let entity = EntityBuilder::new()
            .with_shader("default")
            .with_mesh("cube")
            .build(&assets, &mut buffer)
            .unwrap();
        buffer.add_entity(entity);
    }
    assert_eq!(buffer.entities.len(), 2);

    assert!(buffer.remove_entity(1).is_ok());
    assert_eq!(buffer.entities.len(), 1);
    assert!(matches!(buffer.remove_entity(1), Err(EntityError::EntityNotFound)));
    assert!(buffer.remove_entity(2).is_ok());
    assert!(buffer.entities.is_empty());
}

#[test]
fn light_builder_wraps_the_entity_and_keeps_coefficients() {
    let mut assets = AssetsManager::new("assets");
    assets.put_object("cube", cube());
    let mut buffer = EntityBuffer::new();

    let light = LightBuilder::new()
        .with_shader("light")
        .with_mesh("cube")
        .with_ambient(250)
        .with_color(Vec3 { x: 1000, y: 500, z: 0 })
        .with_position(Vec3 { x: 1200, y: 1000, z: 2000 })
        .build(&assets, &mut buffer)
        .unwrap();

    assert_eq!(light.ambient, 250);
    assert_eq!(light.diffuse, 800);
    assert_eq!(light.specular, 1000);
    assert_eq!(light.color, Vec3 { x: 1000, y: 500, z: 0 });
    assert_eq!(light.entity.renderable.transform.position, Vec3 { x: 1200, y: 1000, z: 2000 });

    buffer.add_light(light);
    assert!(buffer.light.is_some());
}

#[test]
fn light_builder_passes_errors_through() {
    let assets = AssetsManager::new("assets");
    let mut buffer = EntityBuffer::new();
    let result = LightBuilder::new().with_shader("light").build(&assets, &mut buffer);
    assert!(matches!(result, Err(EntityError::MeshNotFound)));
    assert!(buffer.light.is_none());
}

#[test]
fn load_shader_refuses_duplicate_names() {
    let mut assets = AssetsManager::new("assets");
    assert!(assets.load_shader("default", Shader::new(1)));
    assert!(!assets.load_shader("default", Shader::new(2)));
    // The first registration stands.
    assert_eq!(assets.get_shader("default").unwrap().get_id(), 1);
    assert_eq!(assets.assets_root(), "assets");
}

#[test]
fn put_shader_replaces_the_previous_holder() {
    let mut assets = AssetsManager::new("assets");
    assets.put_shader("default", Shader::new(1));
    assets.put_shader("default", Shader::new(2));
    assert_eq!(assets.get_shader("default").unwrap().get_id(), 2);
    assert!(assets.get_shader("other").is_none());
}

#[test]
fn init_object_records_gpu_handles() {
    let mut assets = AssetsManager::new("assets");
    assets.put_object("square", square());
    assert!(assets.init_object("square", 3, 4, 5));
    assert!(!assets.init_object("missing", 3, 4, 5));
    let object = assets.get_object("square").unwrap();
    assert_eq!(object.get_id(), 3);
    assert_eq!(object.vbo, 4);
    assert_eq!(object.ebo, 5);
}

#[test]
fn built_in_shapes_carry_their_data() {
    let square = square();
    assert_eq!(square.vertices.len(), 24);
    assert_eq!(square.indices, vec![0, 1, 2, 2, 3, 1]);
    assert_eq!(square.vertices[0], -500);
    assert_eq!(square.vertices[5], 1000);
    assert_eq!(square.get_id(), 0);

    let cube = cube();
    assert_eq!(cube.vertices.len(), 48);
    assert_eq!(cube.indices.len(), 36);
    assert_eq!(cube.vertices[0], 500);

    let mesh = Mesh::new(vec![0, 0, 0], vec![0]);
    assert_eq!(mesh.vertices, vec![0, 0, 0]);
    assert_eq!(mesh.indices, vec![0]);
}

#[test]
fn transform_builders_accumulate() {
    let t = Transform::new()
        .with_position(Vec3 { x: 1, y: 2, z: 3 })
        .with_rotation(Vec3 { x: 4, y: 5, z: 6 })
        .with_scale(Vec3 { x: 7, y: 8, z: 9 });
    assert_eq!(t.position, Vec3 { x: 1, y: 2, z: 3 });
    assert_eq!(t.rotation, Vec3 { x: 4, y: 5, z: 6 });
    assert_eq!(t.scale, Vec3 { x: 7, y: 8, z: 9 });

    let d = Transform::new();
    assert_eq!(d.position, Vec3 { x: 0, y: 0, z: 0 });
    assert_eq!(d.scale, Vec3 { x: 1000, y: 1000, z: 1000 });
}
