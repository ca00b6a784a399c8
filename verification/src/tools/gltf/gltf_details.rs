use vstd::prelude::*;

use crate::text::{
    bool_text, commas, decimal, name_or, push_bool, push_commas, push_name_or, push_usize,
};
use crate::tools::gltf::document::{
    lemma_nodes_height_bound, node_height, nodes_height, nodes_within, AlphaMode, CameraProjection,
    DocumentInfo, MaterialInfo, MeshInfo, NodeInfo, PrimitiveInfo, SceneInfo,
};
use crate::path::{file_stem, spec_file_stem};
use crate::tools::gltf::gltf_loader::ImportData;

verus! {

/// `text` when `b` holds, `otherwise` when it does not.
pub open spec fn pick(b: bool, text: Seq<char>, otherwise: Seq<char>) -> Seq<char> {
    if b {
        text
    } else {
        otherwise
    }
}

fn push_pick(out: &mut String, b: bool, text: &str, otherwise: &str)
    ensures
        final(out)@ == old(out)@ + pick(b, text@, otherwise@),
{
    if b {
        out.append(text);
    } else {
        out.append(otherwise);
    }
}

/// `depth` commas: the indentation of a line at that depth.
pub fn get_prefix(depth: u32) -> (r: String)
    ensures
        r@ == commas(depth as nat),
{
    let mut prefix = String::new();
    push_commas(&mut prefix, depth);
    prefix
}

/// The line describing a primitive at the given depth.
pub open spec fn primitive_text(p: PrimitiveInfo, depth: nat) -> Seq<char> {
    commas(depth) + " Primitive Data,"@ + " Material index, "@ + decimal(
        match p.material_index {
            Some(i) => i as nat,
            None => 999,
        },
    ) + ", Material Name, "@ + name_or(p.material_name, "No Name"@) + ","@ + pick(
        p.has_positions,
        " Positions,"@,
        " No Positions,"@,
    ) + pick(p.has_normals, " Normals,"@, " No Normals,"@) + pick(
        p.has_tangents,
        " Tangents,"@,
        " No Tangents,"@,
    ) + pick(p.has_colors, " Colors,"@, " No Colors,"@) + pick(
        p.has_indices,
        " Indices,"@,
        " No Indices,"@,
    ) + pick(p.has_joints, " Joints,"@, " No Joints,"@) + pick(
        p.has_tex_coords,
        " Tex Coords,"@,
        " No Tex Coords,"@,
    ) + pick(p.has_weights, " Weights,"@, "No Weights"@) + "\n"@
}

/// Describes a primitive: its material and which attribute sets it has.
pub fn get_primitive_data(primitive: &PrimitiveInfo, depth: u32) -> (r: String)
    ensures
        r@ == primitive_text(*primitive, depth as nat),
{
    let mut output = get_prefix(depth);
    output.append(" Primitive Data,");
    output.append(" Material index, ");
    match primitive.material_index {
        Some(i) => push_usize(&mut output, i),
        None => push_usize(&mut output, 999),
    }
    output.append(", Material Name, ");
    push_name_or(&mut output, &primitive.material_name, "No Name");
    output.append(",");
    push_pick(&mut output, primitive.has_positions, " Positions,", " No Positions,");
    push_pick(&mut output, primitive.has_normals, " Normals,", " No Normals,");
    push_pick(&mut output, primitive.has_tangents, " Tangents,", " No Tangents,");
    push_pick(&mut output, primitive.has_colors, " Colors,", " No Colors,");
    push_pick(&mut output, primitive.has_indices, " Indices,", " No Indices,");
    push_pick(&mut output, primitive.has_joints, " Joints,", " No Joints,");
    push_pick(&mut output, primitive.has_tex_coords, " Tex Coords,", " No Tex Coords,");
    push_pick(&mut output, primitive.has_weights, " Weights,", "No Weights");
    output.append("\n");
    proof {
        let p = *primitive;
        assert(output@ =~= primitive_text(p, depth as nat));
    }
    output
}

/// The warnings a primitive raises: one for each kind of attribute that comes in a
/// second set, which the renderer does not support.
pub open spec fn primitive_warning_texts(p: PrimitiveInfo) -> Seq<Seq<char>> {
    let idx = decimal(p.index as nat);
    let colors = if p.has_second_colors {
        seq!["More then one color set is not supported, primitive index: "@ + idx]
    } else {
        Seq::empty()
    };
    let joints = if p.has_second_joints {
        seq!["More then one joint set is not supported, primitive index: "@ + idx]
    } else {
        Seq::empty()
    };
    let tex = if p.has_second_tex_coords {
        seq!["More then one Texture Coordinate set in not supported, primitive index: "@ + idx]
    } else {
        Seq::empty()
    };
    let weights = if p.has_second_weights {
        seq!["More then one weight set is not supported, primitive index: "@ + idx]
    } else {
        Seq::empty()
    };
    colors + joints + tex + weights
}

fn push_warning(warnings: &mut Vec<String>, text: &str, index: usize)
    ensures
        final(warnings)@.len() == old(warnings)@.len() + 1,
        forall|i: int| 0 <= i < old(warnings)@.len() ==> final(warnings)@[i] == old(warnings)@[i],
        final(warnings)@.last()@ == text@ + decimal(index as nat),
{
    let mut line = String::from_str(text);
    push_usize(&mut line, index);
    warnings.push(line);
}

/// The warnings printed while describing a primitive, in order.
pub fn primitive_warnings(primitive: &PrimitiveInfo) -> (r: Vec<String>)
    ensures
        r@.len() == primitive_warning_texts(*primitive).len(),
        forall|i: int| 0 <= i < r@.len() ==> #[trigger] r@[i]@ == primitive_warning_texts(*primitive)[i],
{
    let mut warnings: Vec<String> = Vec::new();
    if primitive.has_second_colors {
        push_warning(
            &mut warnings,
            "More then one color set is not supported, primitive index: ",
            primitive.index,
        );
    }
    if primitive.has_second_joints {
        push_warning(
            &mut warnings,
            "More then one joint set is not supported, primitive index: ",
            primitive.index,
        );
    }
    if primitive.has_second_tex_coords {
        push_warning(
            &mut warnings,
            "More then one Texture Coordinate set in not supported, primitive index: ",
            primitive.index,
        );
    }
    if primitive.has_second_weights {
        push_warning(
            &mut warnings,
            "More then one weight set is not supported, primitive index: ",
            primitive.index,
        );
    }
    proof {
        let t = primitive_warning_texts(*primitive);
        let views = warnings@.map_values(|s: String| s@);
        assert(views =~= t);
        assert forall|i: int| 0 <= i < warnings@.len() implies #[trigger] warnings@[i]@ == t[i] by {
            assert(views[i] == warnings@[i]@);
        }
    }
    warnings
}

/// The line describing a camera at the given depth.
pub open spec fn camera_text(camera: CameraProjection, depth: nat) -> Seq<char> {
    commas(depth) + " Camera Data,"@ + match camera {
        CameraProjection::Orthographic(o) => " Othrographic Camera, X Mag, "@ + o.xmag@
            + ", Y Mag "@ + o.ymag@ + ", Z Far "@ + o.zfar@ + ", Z Near "@ + o.znear@ + ","@,
        CameraProjection::Perspective(p) => " Perspective Camera, Aspect Ratio, "@ + name_or(
            p.aspect_ratio,
            "0"@,
        ) + ", Y Fov, "@ + p.yfov@ + ", Z Far, "@ + name_or(p.zfar, "0"@) + ", Z Near, "@
            + p.znear@ + ","@,
    } + "\n"@
}

/// Describes a camera one level below `depth`. A perspective camera without an aspect
/// ratio or a far plane shows 0 for it.
pub fn get_camera_data(camera: &CameraProjection, depth: u32) -> (r: String)
    requires
        depth < u32::MAX,
    ensures
        r@ == camera_text(*camera, depth as nat + 1),
{
    let depth = depth + 1;
    let mut output = get_prefix(depth);
    output.append(" Camera Data,");
    match camera {
        CameraProjection::Orthographic(o) => {
            output.append(" Othrographic Camera, X Mag, ");
            output.append(o.xmag.as_str());
            output.append(", Y Mag ");
            output.append(o.ymag.as_str());
            output.append(", Z Far ");
            output.append(o.zfar.as_str());
            output.append(", Z Near ");
            output.append(o.znear.as_str());
            output.append(",");
        },
        CameraProjection::Perspective(p) => {
            output.append(" Perspective Camera, Aspect Ratio, ");
            push_name_or(&mut output, &p.aspect_ratio, "0");
            output.append(", Y Fov, ");
            output.append(p.yfov.as_str());
            output.append(", Z Far, ");
            push_name_or(&mut output, &p.zfar, "0");
            output.append(", Z Near, ");
            output.append(p.znear.as_str());
            output.append(",");
        },
    }
    output.append("\n");
    proof {
        assert(output@ =~= camera_text(*camera, depth as nat));
    }
    output
}

/// The text of primitives `0..n` of a mesh at the given depth.
pub open spec fn primitives_text(primitives: Seq<PrimitiveInfo>, depth: nat) -> Seq<char>
    decreases primitives.len(),
{
    if primitives.len() == 0 {
        Seq::empty()
    } else {
        primitives_text(primitives.drop_last(), depth) + primitive_text(primitives.last(), depth)
    }
}

/// The lines describing a mesh and its primitives at the given depth.
pub open spec fn mesh_text(mesh: MeshInfo, depth: nat) -> Seq<char> {
    commas(depth) + " Mesh Data, Name, "@ + name_or(mesh.name, "No Name"@)
        + ", Number of Primitives, "@ + decimal(mesh.primitives@.len()) + ",\n"@
        + primitives_text(mesh.primitives@, depth + 1)
}

/// Describes a mesh one level below `depth`, with its primitives one level further.
pub fn get_mesh_data(mesh: &MeshInfo, depth: u32) -> (r: String)
    requires
        depth < u32::MAX - 1,
    ensures
        r@ == mesh_text(*mesh, depth as nat + 1),
{
    let depth = depth + 1;
    let mut output = get_prefix(depth);
    output.append(" Mesh Data, Name, ");
    push_name_or(&mut output, &mesh.name, "No Name");
    output.append(", Number of Primitives, ");
    push_usize(&mut output, mesh.primitives.len());
    output.append(",\n");
    let ghost head = output@;
    let depth = depth + 1;
    let mut i: usize = 0;
    while i < mesh.primitives.len()
        invariant
            i <= mesh.primitives@.len(),
            output@ == head + primitives_text(mesh.primitives@.subrange(0, i as int), depth as nat),
        decreases mesh.primitives@.len() - i,
    {
        let temp = get_primitive_data(&mesh.primitives[i], depth);
        output.append(temp.as_str());
        proof {
            let ps = mesh.primitives@.subrange(0, i + 1);
            assert(ps.drop_last() =~= mesh.primitives@.subrange(0, i as int));
            assert(output@ =~= head + primitives_text(ps, depth as nat));
        }
        i = i + 1;
    }
    proof {
        assert(mesh.primitives@.subrange(0, i as int) =~= mesh.primitives@);
        assert(output@ =~= mesh_text(*mesh, (depth - 1) as nat));
    }
    output
}

/// The lines describing a node and its subtree. The node's own line sits one level
/// below `depth`; its camera and mesh are described one level further, and so are its
/// children, each marked as a child node.
pub open spec fn node_text(node: NodeInfo, depth: nat, is_child: bool) -> Seq<char>
    decreases node, 1nat,
{
    let d = depth + 1;
    commas(d) + pick(is_child, " Child Node, "@, " "@) + "Node Index, "@ + decimal(
        node.index as nat,
    ) + ", node name, "@ + name_or(node.name, "No Name"@) + ","@ + pick(
        node.camera is Some,
        " Camera,"@,
        " No Camera,"@,
    ) + pick(node.mesh is Some, " Mesh,"@, " No Mesh,"@) + "\n"@ + match node.camera {
        Some(c) => camera_text(c, d + 1),
        None => Seq::empty(),
    } + match node.mesh {
        Some(m) => mesh_text(m, d + 1),
        None => Seq::empty(),
    } + nodes_text(node.children@, d, true)
}

/// The lines describing each of `nodes` in turn, all at the same depth.
pub open spec fn nodes_text(nodes: Seq<NodeInfo>, depth: nat, is_child: bool) -> Seq<char>
    decreases nodes, 0nat,
{
    if nodes.len() == 0 {
        Seq::empty()
    } else {
        nodes_text(nodes.drop_last(), depth, is_child) + node_text(nodes.last(), depth, is_child)
    }
}

/// Describes a node and, depth first, the subtree below it.
pub fn process_node(node: &NodeInfo, depth: u32, is_child: bool) -> (r: String)
    requires
        depth + node_height(*node) + 3 <= u32::MAX,
    ensures
        r@ == node_text(*node, depth as nat, is_child),
    decreases node,
{
    let depth = depth + 1;
    let mut output = get_prefix(depth);
    if is_child {
        output.append(" Child Node, ");
    } else {
        output.append(" ");
    }
    output.append("Node Index, ");
    push_usize(&mut output, node.index);
    output.append(", node name, ");
    push_name_or(&mut output, &node.name, "No Name");
    output.append(",");
    let camera_data = match &node.camera {
        Some(camera) => {
            output.append(" Camera,");
            get_camera_data(camera, depth)
        },
        None => {
            output.append(" No Camera,");
            String::new()
        },
    };
    let mesh_data = match &node.mesh {
        Some(mesh) => {
            output.append(" Mesh,");
            get_mesh_data(mesh, depth)
        },
        None => {
            output.append(" No Mesh,");
            String::new()
        },
    };
    output.append("\n");
    output.append(camera_data.as_str());
    output.append(mesh_data.as_str());
    let ghost head = output@;
    let mut i: usize = 0;
    while i < node.children.len()
        invariant
            i <= node.children@.len(),
            depth as nat + nodes_height(node.children@) + 3 <= u32::MAX,
            output@ == head + nodes_text(node.children@.subrange(0, i as int), depth as nat, true),
        decreases node.children@.len() - i,
    {
        proof {
            lemma_nodes_height_bound(node.children@, i as int);
        }
        let child_data = process_node(&node.children[i], depth, true);
        output.append(child_data.as_str());
        proof {
            let cs = node.children@.subrange(0, i + 1);
            assert(cs.drop_last() =~= node.children@.subrange(0, i as int));
            assert(output@ =~= head + nodes_text(cs, depth as nat, true));
        }
        i = i + 1;
    }
    proof {
        assert(node.children@.subrange(0, i as int) =~= node.children@);
        assert(output@ =~= node_text(*node, (depth - 1) as nat, is_child));
    }
    output
}

/// The text describing a scene: its node count, then each root node's subtree.
pub open spec fn scene_text(scene: SceneInfo) -> Seq<char> {
    ",Number of Nodes, "@ + decimal(scene.nodes@.len()) + "\n"@ + nodes_text(scene.nodes@, 0, false)
}

/// Whether every subtree of the scene is shallow enough for its depth to be counted.
pub open spec fn scene_fits(scene: SceneInfo) -> bool {
    nodes_height(scene.nodes@) + 3 <= u32::MAX
}

/// Describes a scene: its node count, then each root node with its subtree.
pub fn get_scene_details(scene: &SceneInfo) -> (r: String)
    requires
        scene_fits(*scene),
    ensures
        r@ == scene_text(*scene),
{
    let mut output = String::from_str(",Number of Nodes, ");
    push_usize(&mut output, scene.nodes.len());
    output.append("\n");
    let ghost head = output@;
    let mut i: usize = 0;
    while i < scene.nodes.len()
        invariant
            i <= scene.nodes@.len(),
            scene_fits(*scene),
            output@ == head + nodes_text(scene.nodes@.subrange(0, i as int), 0, false),
        decreases scene.nodes@.len() - i,
    {
        proof {
            lemma_nodes_height_bound(scene.nodes@, i as int);
        }
        let temp = process_node(&scene.nodes[i], 0, false);
        output.append(temp.as_str());
        proof {
            let ns = scene.nodes@.subrange(0, i + 1);
            assert(ns.drop_last() =~= scene.nodes@.subrange(0, i as int));
            assert(output@ =~= head + nodes_text(ns, 0, false));
        }
        i = i + 1;
    }
    proof {
        assert(scene.nodes@.subrange(0, i as int) =~= scene.nodes@);
        assert(output@ =~= scene_text(*scene));
    }
    output
}

/// The text of an alpha mode.
pub open spec fn alpha_mode_text(mode: AlphaMode) -> Seq<char> {
    match mode {
        AlphaMode::Opaque => " Opaque,"@,
        AlphaMode::Mask => " Mask,"@,
        AlphaMode::Blend => " Blend,"@,
    }
}

/// The lines describing a material: index and name, alpha handling, sidedness, the
/// metallic-roughness factors, which textures it has, and its emissive factor.
pub open spec fn material_text(m: MaterialInfo) -> Seq<char> {
    " Material index, "@ + decimal(
        match m.index {
            Some(i) => i as nat,
            None => 999,
        },
    ) + ", Name, "@ + name_or(m.name, "No Name"@) + ","@ + "\n, Alpha Cutoff, "@
        + m.alpha_cutoff@ + ", Alpha Mode,"@ + alpha_mode_text(m.alpha_mode)
        + " Double Sided, "@ + bool_text(m.double_sided) + "\n, PBR Data,"@
        + " Base Color Factor, "@ + m.base_color_factor[0]@ + ", "@ + m.base_color_factor[1]@
        + ", "@ + m.base_color_factor[2]@ + ", "@ + m.base_color_factor[3]@
        + ", Metalic Factor, "@ + m.metallic_factor@ + ", Roughness Factor, "@
        + m.roughness_factor@ + "\n, Texture Data"@ + pick(
        m.has_base_color_texture,
        " Has Color Texture,"@,
        " No Color Texture,"@,
    ) + pick(
        m.has_metallic_roughness_texture,
        " Has Metallic Roughness Texture,"@,
        " No Metallic Roughness Texture,"@,
    ) + pick(m.has_normal_texture, " Has Normal Texture,"@, " No Normal Texture,"@) + pick(
        m.has_occlusion_texture,
        " Has Occlusion Texture,"@,
        " No Occlusion Texture,"@,
    ) + pick(m.has_emissive_texture, " Has Emissive Texture,"@, " No Emissive Texture,"@)
        + " Emmisive Factor, "@ + m.emissive_factor[0]@ + ", "@ + m.emissive_factor[1]@ + ", "@
        + m.emissive_factor[2]@ + "\n"@
}

/// Describes a material.
pub fn get_material_details(material: &MaterialInfo) -> (r: String)
    ensures
        r@ == material_text(*material),
{
    let mut output = String::new();
    output.append(" Material index, ");
    match material.index {
        Some(i) => push_usize(&mut output, i),
        None => push_usize(&mut output, 999),
    }
    output.append(", Name, ");
    push_name_or(&mut output, &material.name, "No Name");
    output.append(",");
    output.append("\n, Alpha Cutoff, ");
    output.append(material.alpha_cutoff.as_str());
    output.append(", Alpha Mode,");
    match material.alpha_mode {
        AlphaMode::Opaque => output.append(" Opaque,"),
        AlphaMode::Mask => output.append(" Mask,"),
        AlphaMode::Blend => output.append(" Blend,"),
    }
    output.append(" Double Sided, ");
    push_bool(&mut output, material.double_sided);
    output.append("\n, PBR Data,");
    output.append(" Base Color Factor, ");
    output.append(material.base_color_factor[0].as_str());
    output.append(", ");
    output.append(material.base_color_factor[1].as_str());
    output.append(", ");
    output.append(material.base_color_factor[2].as_str());
    output.append(", ");
    output.append(material.base_color_factor[3].as_str());
    output.append(", Metalic Factor, ");
    output.append(material.metallic_factor.as_str());
    output.append(", Roughness Factor, ");
    output.append(material.roughness_factor.as_str());
    output.append("\n, Texture Data");
    push_pick(
        &mut output,
        material.has_base_color_texture,
        " Has Color Texture,",
        " No Color Texture,",
    );
    push_pick(
        &mut output,
        material.has_metallic_roughness_texture,
        " Has Metallic Roughness Texture,",
        " No Metallic Roughness Texture,",
    );
    push_pick(
        &mut output,
        material.has_normal_texture,
        " Has Normal Texture,",
        " No Normal Texture,",
    );
    push_pick(
        &mut output,
        material.has_occlusion_texture,
        " Has Occlusion Texture,",
        " No Occlusion Texture,",
    );
    push_pick(
        &mut output,
        material.has_emissive_texture,
        " Has Emissive Texture,",
        " No Emissive Texture,",
    );
    output.append(" Emmisive Factor, ");
    output.append(material.emissive_factor[0].as_str());
    output.append(", ");
    output.append(material.emissive_factor[1].as_str());
    output.append(", ");
    output.append(material.emissive_factor[2].as_str());
    output.append("\n");
    proof {
        assert(output@ =~= material_text(*material));
    }
    output
}

/// The text of scenes `0..n`: each scene's index and name line, then its description.
pub open spec fn scenes_text(scenes: Seq<SceneInfo>) -> Seq<char>
    decreases scenes.len(),
{
    if scenes.len() == 0 {
        Seq::empty()
    } else {
        let s = scenes.last();
        scenes_text(scenes.drop_last()) + "Scene Index, "@ + decimal(s.index as nat)
            + ", Name, "@ + name_or(s.name, "No Name"@) + "\n"@ + scene_text(s)
    }
}

/// The text of materials `0..n`, one after another.
pub open spec fn materials_text(materials: Seq<MaterialInfo>) -> Seq<char>
    decreases materials.len(),
{
    if materials.len() == 0 {
        Seq::empty()
    } else {
        materials_text(materials.drop_last()) + material_text(materials.last())
    }
}

/// The full details report of a document read from the file `file_name`: a title
/// line, the scene count, each scene, then each material.
pub open spec fn details_text(doc: DocumentInfo, file_name: Seq<char>) -> Seq<char> {
    "Details for "@ + file_name + "\n"@ + "Number of Scenes, "@ + decimal(doc.scenes@.len())
        + "\n"@ + scenes_text(doc.scenes@) + materials_text(doc.materials@)
}

/// Whether every scene of the document is shallow enough to be described.
pub open spec fn document_fits(doc: DocumentInfo) -> bool {
    forall|i: int| 0 <= i < doc.scenes@.len() ==> #[trigger] scene_fits(doc.scenes@[i])
}

/// The details report (the CSV text) of a loaded document read from `file_name`.
pub fn output_details(import_data: &ImportData, file_name: &str) -> (r: String)
    requires
        document_fits(import_data.doc),
    ensures
        r@ == details_text(import_data.doc, file_name@),
{
    let doc = &import_data.doc;
    let mut csv = String::from_str("Details for ");
    csv.append(file_name);
    csv.append("\n");
    csv.append("Number of Scenes, ");
    push_usize(&mut csv, doc.scenes.len());
    csv.append("\n");
    let ghost head = csv@;
    let mut i: usize = 0;
    while i < doc.scenes.len()
        invariant
            i <= doc.scenes@.len(),
            document_fits(*doc),
            csv@ == head + scenes_text(doc.scenes@.subrange(0, i as int)),
        decreases doc.scenes@.len() - i,
    {
        let scene = &doc.scenes[i];
        assert(scene_fits(doc.scenes@[i as int]));
        csv.append("Scene Index, ");
        push_usize(&mut csv, scene.index);
        csv.append(", Name, ");
        push_name_or(&mut csv, &scene.name, "No Name");
        csv.append("\n");
        let details = get_scene_details(scene);
        csv.append(details.as_str());
        proof {
            let ss = doc.scenes@.subrange(0, i + 1);
            assert(ss.drop_last() =~= doc.scenes@.subrange(0, i as int));
            assert(csv@ =~= head + scenes_text(ss));
        }
        i = i + 1;
    }
    proof {
        assert(doc.scenes@.subrange(0, i as int) =~= doc.scenes@);
    }
    let ghost mid = csv@;
    let mut j: usize = 0;
    while j < doc.materials.len()
        invariant
            j <= doc.materials@.len(),
            csv@ == mid + materials_text(doc.materials@.subrange(0, j as int)),
        decreases doc.materials@.len() - j,
    {
        let details = get_material_details(&doc.materials[j]);
        csv.append(details.as_str());
        proof {
            let ms = doc.materials@.subrange(0, j + 1);
            assert(ms.drop_last() =~= doc.materials@.subrange(0, j as int));
            assert(csv@ =~= mid + materials_text(ms));
        }
        j = j + 1;
    }
    proof {
        assert(doc.materials@.subrange(0, j as int) =~= doc.materials@);
        assert(csv@ =~= details_text(*doc, file_name@));
    }
    csv
}


/// Tells whether every scene of the document is shallow enough to be described, as
/// `output_details` asks.
pub fn check_document_fits(doc: &DocumentInfo) -> (r: bool)
    ensures
        r == document_fits(*doc),
{
    let mut i: usize = 0;
    while i < doc.scenes.len()
        invariant
            i <= doc.scenes@.len(),
            forall|k: int| 0 <= k < i ==> #[trigger] scene_fits(doc.scenes@[k]),
        decreases doc.scenes@.len() - i,
    {
        if !nodes_within(&doc.scenes[i].nodes, u32::MAX - 3) {
            assert(!scene_fits(doc.scenes@[i as int]));
            return false;
        }
        i = i + 1;
    }
    true
}


/// The names of the two details files written for a glTF file: the file's stem with
/// `.csv` (the report), and with `.json` (the document); nothing when the name has no
/// stem.
pub fn details_file_names(file_name: &str) -> (r: Option<(String, String)>)
    ensures
        match spec_file_stem(file_name@) {
            Some(stem) => r matches Some((csv, json)) && csv@ == stem + ".csv"@ && json@ == stem
                + ".json"@,
            None => r is None,
        },
{
    match file_stem(file_name) {
        Some(stem) => {
            let mut csv = String::new();
            csv.append(stem.as_str());
            csv.append(".csv");
            let mut json = String::new();
            json.append(stem.as_str());
            json.append(".json");
            Some((csv, json))
        },
        None => None,
    }
}


/// Every primitive of a mesh is described, in order: the text of two lists one after the other is the text of the first list
/// followed by the text of the second.
pub proof fn lemma_primitives_text_concat(a: Seq<PrimitiveInfo>, b: Seq<PrimitiveInfo>, depth: nat)
    ensures
        primitives_text(a + b, depth) == primitives_text(a, depth) + primitives_text(b, depth),
    decreases b.len(),
{
    if b.len() == 0 {
        assert(a + b =~= a);
        assert(primitives_text(a, depth) + primitives_text(b, depth) =~= primitives_text(a, depth));
    } else {
        lemma_primitives_text_concat(a, b.drop_last(), depth);
        assert((a + b).drop_last() =~= a + b.drop_last());
        assert((a + b).last() == b.last());
        assert(primitives_text(a + b, depth) =~= primitives_text(a, depth) + primitives_text(b, depth));
    }
}

/// Every primitive of a mesh is described, in order: the text of a single primitive is exactly that primitive's own text.
pub proof fn lemma_primitives_text_single(x: PrimitiveInfo, depth: nat)
    ensures
        primitives_text(seq![x], depth) == primitive_text(x, depth),
{
    assert(seq![x].drop_last() =~= Seq::<PrimitiveInfo>::empty());
    assert(seq![x].last() == x);
    assert(primitives_text(seq![x].drop_last(), depth) =~= Seq::<char>::empty());
    assert(primitives_text(seq![x], depth) == primitives_text(seq![x].drop_last(), depth) + primitive_text(x, depth));
    assert(primitives_text(seq![x], depth) =~= primitive_text(x, depth));
}

/// Every primitive of a mesh is described, in order: primitive `i` has its own text at its place, between the text of the primitives
/// before it and the text of those after it.
pub proof fn lemma_primitives_text_each(s: Seq<PrimitiveInfo>, i: int, depth: nat)
    requires
        0 <= i < s.len(),
    ensures
        primitives_text(s, depth) == primitives_text(s.take(i), depth) + primitive_text(s[i], depth) + primitives_text(s.skip(i + 1), depth),
{
    assert(s =~= s.take(i) + (seq![s[i]] + s.skip(i + 1)));
    lemma_primitives_text_concat(s.take(i), seq![s[i]] + s.skip(i + 1), depth);
    lemma_primitives_text_concat(seq![s[i]], s.skip(i + 1), depth);
    lemma_primitives_text_single(s[i], depth);
    assert(primitives_text(s, depth) =~= primitives_text(s.take(i), depth) + primitive_text(s[i], depth) + primitives_text(s.skip(i + 1), depth));
}

/// Every node of a list is described with its subtree, in order: the text of two lists one after the other is the text of the first list
/// followed by the text of the second.
pub proof fn lemma_nodes_text_concat(a: Seq<NodeInfo>, b: Seq<NodeInfo>, depth: nat, is_child: bool)
    ensures
        nodes_text(a + b, depth, is_child) == nodes_text(a, depth, is_child) + nodes_text(b, depth, is_child),
    decreases b.len(),
{
    if b.len() == 0 {
        assert(a + b =~= a);
        assert(nodes_text(a, depth, is_child) + nodes_text(b, depth, is_child) =~= nodes_text(a, depth, is_child));
    } else {
        lemma_nodes_text_concat(a, b.drop_last(), depth, is_child);
        assert((a + b).drop_last() =~= a + b.drop_last());
        assert((a + b).last() == b.last());
        assert(nodes_text(a + b, depth, is_child) =~= nodes_text(a, depth, is_child) + nodes_text(b, depth, is_child));
    }
}

/// Every node of a list is described with its subtree, in order: the text of a single node is exactly that node's own text.
pub proof fn lemma_nodes_text_single(x: NodeInfo, depth: nat, is_child: bool)
    ensures
        nodes_text(seq![x], depth, is_child) == node_text(x, depth, is_child),
{
    assert(seq![x].drop_last() =~= Seq::<NodeInfo>::empty());
    assert(seq![x].last() == x);
    assert(nodes_text(seq![x].drop_last(), depth, is_child) =~= Seq::<char>::empty());
    assert(nodes_text(seq![x], depth, is_child) == nodes_text(seq![x].drop_last(), depth, is_child) + node_text(x, depth, is_child));
    assert(nodes_text(seq![x], depth, is_child) =~= node_text(x, depth, is_child));
}

/// Every node of a list is described with its subtree, in order: node `i` has its own text at its place, between the text of the nodes
/// before it and the text of those after it.
pub proof fn lemma_nodes_text_each(s: Seq<NodeInfo>, i: int, depth: nat, is_child: bool)
    requires
        0 <= i < s.len(),
    ensures
        nodes_text(s, depth, is_child) == nodes_text(s.take(i), depth, is_child) + node_text(s[i], depth, is_child) + nodes_text(s.skip(i + 1), depth, is_child),
{
    assert(s =~= s.take(i) + (seq![s[i]] + s.skip(i + 1)));
    lemma_nodes_text_concat(s.take(i), seq![s[i]] + s.skip(i + 1), depth, is_child);
    lemma_nodes_text_concat(seq![s[i]], s.skip(i + 1), depth, is_child);
    lemma_nodes_text_single(s[i], depth, is_child);
    assert(nodes_text(s, depth, is_child) =~= nodes_text(s.take(i), depth, is_child) + node_text(s[i], depth, is_child) + nodes_text(s.skip(i + 1), depth, is_child));
}

/// Every scene of a document has its block in the report, in order: the text of two lists one after the other is the text of the first list
/// followed by the text of the second.
pub proof fn lemma_scenes_text_concat(a: Seq<SceneInfo>, b: Seq<SceneInfo>)
    ensures
        scenes_text(a + b) == scenes_text(a) + scenes_text(b),
    decreases b.len(),
{
    if b.len() == 0 {
        assert(a + b =~= a);
        assert(scenes_text(a) + scenes_text(b) =~= scenes_text(a));
    } else {
        lemma_scenes_text_concat(a, b.drop_last());
        assert((a + b).drop_last() =~= a + b.drop_last());
        assert((a + b).last() == b.last());
        assert(scenes_text(a + b) =~= scenes_text(a) + scenes_text(b));
    }
}

/// Every scene of a document has its block in the report, in order: the text of a single scene is exactly that scene's own text.
pub proof fn lemma_scenes_text_single(x: SceneInfo)
    ensures
        scenes_text(seq![x]) == "Scene Index, "@ + decimal(x.index as nat) + ", Name, "@ + name_or(x.name, "No Name"@) + "\n"@ + scene_text(x),
{
    assert(seq![x].drop_last() =~= Seq::<SceneInfo>::empty());
    assert(seq![x].last() == x);
    assert(scenes_text(seq![x].drop_last()) =~= Seq::<char>::empty());
    assert(scenes_text(seq![x]) == scenes_text(seq![x].drop_last()) + "Scene Index, "@ + decimal(x.index as nat) + ", Name, "@ + name_or(x.name, "No Name"@) + "\n"@ + scene_text(x));
    assert(scenes_text(seq![x]) =~= "Scene Index, "@ + decimal(x.index as nat) + ", Name, "@ + name_or(x.name, "No Name"@) + "\n"@ + scene_text(x));
}

/// Every scene of a document has its block in the report, in order: scene `i` has its own text at its place, between the text of the scenes
/// before it and the text of those after it.
pub proof fn lemma_scenes_text_each(s: Seq<SceneInfo>, i: int)
    requires
        0 <= i < s.len(),
    ensures
        scenes_text(s) == scenes_text(s.take(i)) + "Scene Index, "@ + decimal(s[i].index as nat) + ", Name, "@ + name_or(s[i].name, "No Name"@) + "\n"@ + scene_text(s[i]) + scenes_text(s.skip(i + 1)),
{
    assert(s =~= s.take(i) + (seq![s[i]] + s.skip(i + 1)));
    lemma_scenes_text_concat(s.take(i), seq![s[i]] + s.skip(i + 1));
    lemma_scenes_text_concat(seq![s[i]], s.skip(i + 1));
    lemma_scenes_text_single(s[i]);
    assert(scenes_text(s) =~= scenes_text(s.take(i)) + "Scene Index, "@ + decimal(s[i].index as nat) + ", Name, "@ + name_or(s[i].name, "No Name"@) + "\n"@ + scene_text(s[i]) + scenes_text(s.skip(i + 1)));
}

/// Every material of a document is described, in order: the text of two lists one after the other is the text of the first list
/// followed by the text of the second.
pub proof fn lemma_materials_text_concat(a: Seq<MaterialInfo>, b: Seq<MaterialInfo>)
    ensures
        materials_text(a + b) == materials_text(a) + materials_text(b),
    decreases b.len(),
{
    if b.len() == 0 {
        assert(a + b =~= a);
        assert(materials_text(a) + materials_text(b) =~= materials_text(a));
    } else {
        lemma_materials_text_concat(a, b.drop_last());
        assert((a + b).drop_last() =~= a + b.drop_last());
        assert((a + b).last() == b.last());
        assert(materials_text(a + b) =~= materials_text(a) + materials_text(b));
    }
}

/// Every material of a document is described, in order: the text of a single material is exactly that material's own text.
pub proof fn lemma_materials_text_single(x: MaterialInfo)
    ensures
        materials_text(seq![x]) == material_text(x),
{
    assert(seq![x].drop_last() =~= Seq::<MaterialInfo>::empty());
    assert(seq![x].last() == x);
    assert(materials_text(seq![x].drop_last()) =~= Seq::<char>::empty());
    assert(materials_text(seq![x]) == materials_text(seq![x].drop_last()) + material_text(x));
    assert(materials_text(seq![x]) =~= material_text(x));
}

/// Every material of a document is described, in order: material `i` has its own text at its place, between the text of the materials
/// before it and the text of those after it.
pub proof fn lemma_materials_text_each(s: Seq<MaterialInfo>, i: int)
    requires
        0 <= i < s.len(),
    ensures
        materials_text(s) == materials_text(s.take(i)) + material_text(s[i]) + materials_text(s.skip(i + 1)),
{
    assert(s =~= s.take(i) + (seq![s[i]] + s.skip(i + 1)));
    lemma_materials_text_concat(s.take(i), seq![s[i]] + s.skip(i + 1));
    lemma_materials_text_concat(seq![s[i]], s.skip(i + 1));
    lemma_materials_text_single(s[i]);
    assert(materials_text(s) =~= materials_text(s.take(i)) + material_text(s[i]) + materials_text(s.skip(i + 1)));
}

} // verus!
