use hobby::tools::gltf::document::{
    node_within, nodes_within, AlphaMode, CameraProjection, DocumentInfo, MaterialInfo, MeshInfo, NodeInfo, Orthographic,
    Perspective, PrimitiveInfo, SceneInfo,
};
use hobby::tools::gltf::gltf_details::{
    check_document_fits, details_file_names, get_camera_data, get_material_details, get_mesh_data, get_prefix, get_primitive_data,
    get_scene_details, output_details, primitive_warnings, process_node,
};
use hobby::tools::gltf::gltf_loader::{GltfLoader as Loader, ImportData};
use hobby::tools::gltf::{summary_title, GltfLoader};
use std::path::PathBuf;

fn primitive() -> PrimitiveInfo {
    PrimitiveInfo {
        index: 0,
        material_index: Some(2),
        material_name: Some("Stone".to_string()),
        has_positions: true,
        has_normals: true,
        has_tangents: false,
        has_colors: false,
        has_second_colors: false,
        has_indices: true,
        has_joints: false,
        has_second_joints: false,
        has_tex_coords: true,
        has_second_tex_coords: false,
        has_weights: false,
        has_second_weights: false,
    }
}

fn leaf(index: usize, name: Option<&str>) -> NodeInfo {
    NodeInfo {
        index,
        name: name.map(|s| s.to_string()),
        camera: None,
        mesh: None,
        children: vec![],
    }
}

fn root() -> NodeInfo {
    NodeInfo {
        index: 5,
        name: Some("Root".to_string()),
        camera: Some(CameraProjection::Perspective(Perspective {
            aspect_ratio: None,
            yfov: "0.8".to_string(),
            zfar: None,
            znear: "0.1".to_string(),
        })),
        mesh: None,
        children: vec![leaf(6, None)],
    }
}

const ROOT_TEXT: &str = ", Node Index, 5, node name, Root, Camera, No Mesh,\n\
,, Camera Data, Perspective Camera, Aspect Ratio, 0, Y Fov, 0.8, Z Far, 0, Z Near, 0.1,\n\
,, Child Node, Node Index, 6, node name, No Name, No Camera, No Mesh,\n";

fn material() -> MaterialInfo {
    MaterialInfo {
        index: None,
        name: Some("Mat".to_string()),
        alpha_cutoff: "0.5".to_string(),
        alpha_mode: AlphaMode::Mask,
        double_sided: true,
        base_color_factor: ["1".to_string(), "0.5".to_string(), "0.25".to_string(), "1".to_string()],
        metallic_factor: "0".to_string(),
        roughness_factor: "1".to_string(),
        has_base_color_texture: true,
        has_metallic_roughness_texture: false,
        has_normal_texture: true,
        has_occlusion_texture: false,
        has_emissive_texture: false,
        emissive_factor: ["0".to_string(), "0".to_string(), "0".to_string()],
    }
}

const MATERIAL_TEXT: &str = " Material index, 999, Name, Mat,\n\
, Alpha Cutoff, 0.5, Alpha Mode, Mask, Double Sided, true\n\
, PBR Data, Base Color Factor, 1, 0.5, 0.25, 1, Metalic Factor, 0, Roughness Factor, 1\n\
, Texture Data Has Color Texture, No Metallic Roughness Texture, Has Normal Texture, \
No Occlusion Texture, No Emissive Texture, Emmisive Factor, 0, 0, 0\n";

#[test]
fn prefix_is_commas() {
    assert_eq!(get_prefix(0), "");
    assert_eq!(get_prefix(3), ",,,");
}

#[test]
fn primitive_line() {
    assert_eq!(
        get_primitive_data(&primitive(), 3),
        ",,, Primitive Data, Material index, 2, Material Name, Stone, Positions, Normals, \
No Tangents, No Colors, Indices, No Joints, Tex Coords,No Weights\n"
    );
    let mut bare = primitive();
    bare.material_index = None;
    bare.material_name = None;
    bare.has_weights = true;
    assert_eq!(
        get_primitive_data(&bare, 0),
        " Primitive Data, Material index, 999, Material Name, No Name, Positions, Normals, \
No Tangents, No Colors, Indices, No Joints, Tex Coords, Weights,\n"
    );
}

#[test]
fn primitive_warning_lines() {
    assert!(primitive_warnings(&primitive()).is_empty());
    let mut p = primitive();
    p.index = 12;
    p.has_second_colors = true;
    p.has_second_weights = true;
    assert_eq!(
        primitive_warnings(&p),
        vec![
            "More then one color set is not supported, primitive index: 12",
            "More then one weight set is not supported, primitive index: 12"
        ]
    );
    p.has_second_joints = true;
    p.has_second_tex_coords = true;
    assert_eq!(
        primitive_warnings(&p),
        vec![
            "More then one color set is not supported, primitive index: 12",
            "More then one joint set is not supported, primitive index: 12",
            "More then one Texture Coordinate set in not supported, primitive index: 12",
            "More then one weight set is not supported, primitive index: 12"
        ]
    );
}

#[test]
fn camera_lines() {
    let ortho = CameraProjection::Orthographic(Orthographic {
        xmag: "1".to_string(),
        ymag: "2".to_string(),
        zfar: "3".to_string(),
        znear: "4".to_string(),
    });
    assert_eq!(
        get_camera_data(&ortho, 1),
        ",, Camera Data, Othrographic Camera, X Mag, 1, Y Mag 2, Z Far 3, Z Near 4,\n"
    );
    let persp = CameraProjection::Perspective(Perspective {
        aspect_ratio: Some("1.5".to_string()),
        yfov: "0.7".to_string(),
        zfar: Some("100".to_string()),
        znear: "0.01".to_string(),
    });
    assert_eq!(
        get_camera_data(&persp, 0),
        ", Camera Data, Perspective Camera, Aspect Ratio, 1.5, Y Fov, 0.7, Z Far, 100, Z Near, 0.01,\n"
    );
}

#[test]
fn mesh_lines() {
    let mesh = MeshInfo { name: None, primitives: vec![primitive()] };
    assert_eq!(
        get_mesh_data(&mesh, 1),
        ",, Mesh Data, Name, No Name, Number of Primitives, 1,\n\
,,, Primitive Data, Material index, 2, Material Name, Stone, Positions, Normals, \
No Tangents, No Colors, Indices, No Joints, Tex Coords,No Weights\n"
    );
    let empty = MeshInfo { name: Some("Empty".to_string()), primitives: vec![] };
    assert_eq!(get_mesh_data(&empty, 0), ", Mesh Data, Name, Empty, Number of Primitives, 0,\n");
}

#[test]
fn node_subtree_lines() {
    assert_eq!(process_node(&root(), 0, false), ROOT_TEXT);
    let mut with_mesh = leaf(1, Some("M"));
    with_mesh.mesh = Some(MeshInfo { name: Some("Box".to_string()), primitives: vec![] });
    assert_eq!(
        process_node(&with_mesh, 2, true),
        ",,, Child Node, Node Index, 1, node name, M, No Camera, Mesh,\n\
,,,, Mesh Data, Name, Box, Number of Primitives, 0,\n"
    );
}

#[test]
fn scene_lines() {
    let scene = SceneInfo { index: 0, name: Some("Main".to_string()), nodes: vec![root()] };
    assert_eq!(get_scene_details(&scene), format!(",Number of Nodes, 1\n{}", ROOT_TEXT));
}

#[test]
fn material_lines() {
    assert_eq!(get_material_details(&material()), MATERIAL_TEXT);
}

#[test]
fn full_details_report() {
    let doc = DocumentInfo {
        scenes: vec![SceneInfo { index: 0, name: Some("Main".to_string()), nodes: vec![root()] }],
        materials: vec![material()],
    };
    let import_data = ImportData { doc };
    let expected = format!(
        "Details for box.gltf\nNumber of Scenes, 1\nScene Index, 0, Name, Main\n,Number of Nodes, 1\n{}{}",
        ROOT_TEXT, MATERIAL_TEXT
    );
    assert_eq!(output_details(&import_data, "box.gltf"), expected);
    let empty = ImportData { doc: DocumentInfo { scenes: vec![], materials: vec![] } };
    assert_eq!(output_details(&empty, "e.glb"), "Details for e.glb\nNumber of Scenes, 0\n");
}

#[test]
fn scene_summary_report() {
    let loader = GltfLoader::new(PathBuf::from("res"));
    assert_eq!(loader.resource_path, PathBuf::from("res"));
    let mut second = leaf(4, Some("B"));
    second.children = vec![leaf(8, Some("Hidden"))];
    let scenes = vec![SceneInfo {
        index: 1,
        name: Some("S".to_string()),
        nodes: vec![leaf(3, Some("A")), second],
    }];
    assert_eq!(
        loader.output_details("box.gltf", &scenes),
        "Details for box.gltf\nNumber of Scenes, 1\nScene Index, 1, Name, S\n,Number of Nodes, 2\n\
, Node Index, 3, node name, A\n, Node Index, 4, node name, B\n"
    );
}

#[test]
fn loader_keeps_resource_path() {
    let loader = Loader::new(PathBuf::from("assets/models"));
    assert_eq!(loader.resource_path, PathBuf::from("assets/models"));
}

#[test]
fn subtree_depth_checks() {
    let node = root();
    assert!(!node_within(&node, 0));
    assert!(!node_within(&node, 1));
    assert!(node_within(&node, 2));
    assert!(node_within(&leaf(1, None), 1));
    assert!(nodes_within(&vec![], 0));
    assert!(!nodes_within(&vec![leaf(1, None), root()], 1));
    assert!(nodes_within(&vec![leaf(1, None), root()], 2));
}

#[test]
fn shallow_documents_fit() {
    let doc = DocumentInfo {
        scenes: vec![SceneInfo {
            index: 0,
            name: None,
            nodes: vec![root()],
        }],
        materials: vec![],
    };
    assert!(check_document_fits(&doc));
    assert!(check_document_fits(&DocumentInfo {
        scenes: vec![],
        materials: vec![],
    }));
}

#[test]
fn details_files_are_named_after_the_stem() {
    assert_eq!(
        details_file_names("Box.gltf"),
        Some(("Box.csv".to_string(), "Box.json".to_string()))
    );
    assert_eq!(
        details_file_names("scene.v2.glb"),
        Some(("scene.v2.csv".to_string(), "scene.v2.json".to_string()))
    );
    assert_eq!(
        details_file_names("README"),
        Some(("README.csv".to_string(), "README.json".to_string()))
    );
    assert_eq!(details_file_names(""), None);
    assert_eq!(details_file_names(".."), None);
}

#[test]
fn summary_title_line() {
    assert_eq!(summary_title("Box.gltf"), "Details for Box.gltf\n");
}
