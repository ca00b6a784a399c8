use hobby::error::HobbyError;
use hobby::game::{manage_input, InputEvent};
use hobby::geometry::mesh::Mesh;
use hobby::geometry::vertex::{Vertex, VertexBuilder};
use hobby::graphics::pipelines::basic_pipeline::BasicVertex;
use hobby::renderer::materials::basic::{basic_vertices, check_mesh as check_basic_mesh};
use hobby::renderer::materials::textured::{check_mesh as check_textured_mesh, textured_vertices};
use hobby::tools::gltf::gltf_loader::{
    create_meshes, create_model_meshes, process_primitive, NodeMeshData, PrimitiveData,
};

fn colored(x: f32) -> Vertex<f32> {
    Vertex::<f32>::builder().with_position([x, 0.0, 0.0]).with_color([1.0, 0.0, 0.0, 1.0]).build()
}

#[test]
fn default_vertex() {
    let v: Vertex<f32> = Vertex::default();
    assert_eq!(v.position, [0.0, 0.0, 0.0]);
    assert!(v.color.is_none() && v.normal.is_none() && v.tangent.is_none() && v.tex_coord.is_none());
}

#[test]
fn vertex_builder_sets_attributes() {
    let v = VertexBuilder::<f32>::new()
        .with_position([1.0, 2.0, 3.0])
        .with_color([0.1, 0.2, 0.3, 0.4])
        .with_normal([0.0, 0.0, 1.0])
        .with_tangent([1.0, 0.0, 0.0, 1.0])
        .with_tex_coord([0.5, 0.25])
        .build();
    assert_eq!(v.position, [1.0, 2.0, 3.0]);
    assert_eq!(v.color, Some([0.1, 0.2, 0.3, 0.4]));
    assert_eq!(v.normal, Some([0.0, 0.0, 1.0]));
    assert_eq!(v.tangent, Some([1.0, 0.0, 0.0, 1.0]));
    assert_eq!(v.tex_coord, Some([0.5, 0.25]));
}

#[test]
fn basic_pipeline_vertices() {
    let v = colored(2.0);
    assert!(BasicVertex::check_vertex(&v).is_ok());
    let b = BasicVertex::from_vertex(&v);
    assert_eq!(b.position, [2.0, 0.0, 0.0]);
    assert_eq!(b.color, [1.0, 0.0, 0.0, 1.0]);
    let plain: Vertex<f32> = Vertex::default();
    assert!(matches!(BasicVertex::check_vertex(&plain), Err(HobbyError::MissingVertexColor)));
    assert!(matches!(BasicVertex::from_vertices(&vec![plain]), Err(HobbyError::MissingVertexColor)));
    let converted = BasicVertex::from_vertices(&vec![colored(1.0), colored(2.0)]).unwrap();
    assert_eq!(converted.len(), 2);
    assert_eq!(converted[1].position, [2.0, 0.0, 0.0]);
}

#[test]
fn material_mesh_checks() {
    let mesh = Mesh::new(vec![colored(0.0)], vec![0]);
    assert!(check_basic_mesh(&mesh).is_ok());
    assert!(matches!(check_textured_mesh(&mesh), Err(HobbyError::MissingVertexTexCoord)));
    assert_eq!(basic_vertices(&mesh)[0].color, [1.0, 0.0, 0.0, 1.0]);
    let textured = Mesh::new(
        vec![Vertex::<f32>::builder().with_tex_coord([0.5, 1.0]).build()],
        vec![0, 0, 0],
    );
    assert!(check_textured_mesh(&textured).is_ok());
    assert!(matches!(check_basic_mesh(&textured), Err(HobbyError::MissingVertexColor)));
    assert_eq!(textured_vertices(&textured)[0].tex_coord, [0.5, 1.0]);
}

fn triangle() -> PrimitiveData<f32> {
    PrimitiveData {
        index: 4,
        positions: Some(vec![[0.0, 0.0, 0.0], [1.0, 0.0, 0.0], [0.0, 1.0, 0.0]]),
        normals: Some(vec![[0.0, 0.0, 1.0], [0.0, 0.0, 1.0]]),
        tangents: None,
        tex_coords: Some(vec![[0.0, 0.0], [1.0, 0.0], [0.0, 1.0]]),
        colors: None,
        indices: Some(vec![0, 1, 2]),
    }
}

#[test]
fn primitive_to_mesh() {
    let mesh = process_primitive(&triangle(), 7).unwrap();
    assert_eq!(mesh.vertices.len(), 3);
    assert_eq!(mesh.indices, vec![0, 1, 2]);
    assert_eq!(mesh.vertices[1].position, [1.0, 0.0, 0.0]);
    assert_eq!(mesh.vertices[1].normal, Some([0.0, 0.0, 1.0]));
    assert_eq!(mesh.vertices[2].normal, None);
    assert_eq!(mesh.vertices[2].tex_coord, Some([0.0, 1.0]));
    assert!(mesh.vertices[0].color.is_none() && mesh.vertices[0].tangent.is_none());
}

#[test]
fn primitive_without_positions_or_indices() {
    let mut no_positions = triangle();
    no_positions.positions = None;
    no_positions.indices = None;
    assert!(matches!(
        process_primitive(&no_positions, 7),
        Err(HobbyError::MissingPositions { mesh_index: 7, primitive_index: 4 })
    ));
    let mut no_indices = triangle();
    no_indices.indices = None;
    assert!(matches!(
        process_primitive(&no_indices, 1),
        Err(HobbyError::MissingIndices { mesh_index: 1, primitive_index: 4 })
    ));
}

#[test]
fn meshes_of_primitives() {
    let meshes = create_meshes(&vec![triangle(), triangle()], 0).unwrap();
    assert_eq!(meshes.len(), 2);
    let mut bad = triangle();
    bad.index = 9;
    bad.indices = None;
    assert!(matches!(
        create_meshes(&vec![triangle(), bad, triangle()], 3),
        Err(HobbyError::MissingIndices { mesh_index: 3, primitive_index: 9 })
    ));
}

#[test]
fn input_handling() {
    let keep = manage_input(&vec![InputEvent::Other, InputEvent::HiDpiFactorChanged], false);
    assert!(keep.running && !keep.is_resized);
    let resized = manage_input(&vec![InputEvent::Resized, InputEvent::Other], false);
    assert!(resized.running && resized.is_resized);
    let close = manage_input(&vec![InputEvent::CloseRequested], true);
    assert!(!close.running && close.is_resized);
    let escape = manage_input(&vec![InputEvent::Resized, InputEvent::EscapeKey], false);
    assert!(!escape.running && escape.is_resized);
    let nothing = manage_input(&vec![], false);
    assert!(nothing.running && !nothing.is_resized);
}

#[test]
fn model_meshes_per_node() {
    let nodes = vec![
        NodeMeshData { mesh_index: 0, primitives: vec![triangle(), triangle()] },
        NodeMeshData { mesh_index: 1, primitives: vec![] },
        NodeMeshData { mesh_index: 2, primitives: vec![triangle()] },
    ];
    let groups = create_model_meshes(&nodes).unwrap();
    assert_eq!(groups.iter().map(|g| g.len()).collect::<Vec<_>>(), vec![2, 0, 1]);
    assert_eq!(groups[2][0].vertices[1].position, [1.0, 0.0, 0.0]);

    let mut no_positions = triangle();
    no_positions.index = 5;
    no_positions.positions = None;
    let mut no_indices = triangle();
    no_indices.index = 6;
    no_indices.indices = None;
    let failing = vec![
        NodeMeshData { mesh_index: 0, primitives: vec![triangle()] },
        NodeMeshData { mesh_index: 3, primitives: vec![triangle(), no_indices] },
        NodeMeshData { mesh_index: 4, primitives: vec![no_positions] },
    ];
    assert!(matches!(
        create_model_meshes(&failing),
        Err(HobbyError::MissingIndices { mesh_index: 3, primitive_index: 6 })
    ));
    assert!(create_model_meshes::<f32>(&vec![]).unwrap().is_empty());
}

#[test]
fn primitives_after_a_refused_one_are_not_read() {
    let mut refused = triangle();
    refused.index = 2;
    refused.positions = None;
    let mut overlong = triangle();
    overlong.normals = Some(vec![[0.0, 0.0, 1.0]; 5]);
    assert!(matches!(
        create_meshes(&vec![triangle(), refused, overlong], 8),
        Err(HobbyError::MissingPositions { mesh_index: 8, primitive_index: 2 })
    ));

    let mut no_indices = triangle();
    no_indices.index = 1;
    no_indices.indices = None;
    let mut overlong = triangle();
    overlong.colors = Some(vec![[1.0, 1.0, 1.0, 1.0]; 4]);
    let nodes = vec![
        NodeMeshData { mesh_index: 0, primitives: vec![no_indices] },
        NodeMeshData { mesh_index: 1, primitives: vec![overlong] },
    ];
    assert!(matches!(
        create_model_meshes(&nodes),
        Err(HobbyError::MissingIndices { mesh_index: 0, primitive_index: 1 })
    ));
}
