use vstd::prelude::*;

verus! {

/// An orthographic projection. Numbers are kept as the text they print as.
pub struct Orthographic {
    pub xmag: String,
    pub ymag: String,
    pub zfar: String,
    pub znear: String,
}

/// A perspective projection. Numbers are kept as the text they print as.
pub struct Perspective {
    pub aspect_ratio: Option<String>,
    pub yfov: String,
    pub zfar: Option<String>,
    pub znear: String,
}

/// The projection of a glTF camera.
pub enum CameraProjection {
    Orthographic(Orthographic),
    Perspective(Perspective),
}

/// What the details report reads of a glTF primitive: its index, its material, and
/// which vertex attribute sets and indices can be read from the loaded buffers.
pub struct PrimitiveInfo {
    pub index: usize,
    pub material_index: Option<usize>,
    pub material_name: Option<String>,
    pub has_positions: bool,
    pub has_normals: bool,
    pub has_tangents: bool,
    pub has_colors: bool,
    pub has_second_colors: bool,
    pub has_indices: bool,
    pub has_joints: bool,
    pub has_second_joints: bool,
    pub has_tex_coords: bool,
    pub has_second_tex_coords: bool,
    pub has_weights: bool,
    pub has_second_weights: bool,
}

/// A glTF mesh: its name and its primitives.
pub struct MeshInfo {
    pub name: Option<String>,
    pub primitives: Vec<PrimitiveInfo>,
}

/// A glTF node with the subtree below it.
pub struct NodeInfo {
    pub index: usize,
    pub name: Option<String>,
    pub camera: Option<CameraProjection>,
    pub mesh: Option<MeshInfo>,
    pub children: Vec<NodeInfo>,
}

/// A glTF scene: its index, name and root nodes.
pub struct SceneInfo {
    pub index: usize,
    pub name: Option<String>,
    pub nodes: Vec<NodeInfo>,
}

/// How a material's alpha value is interpreted.
#[derive(PartialEq, Eq, Structural, Debug, Clone, Copy)]
pub enum AlphaMode {
    Opaque,
    Mask,
    Blend,
}

/// What the details report reads of a glTF material. Numbers are kept as the text
/// they print as.
pub struct MaterialInfo {
    pub index: Option<usize>,
    pub name: Option<String>,
    pub alpha_cutoff: String,
    pub alpha_mode: AlphaMode,
    pub double_sided: bool,
    pub base_color_factor: [String; 4],
    pub metallic_factor: String,
    pub roughness_factor: String,
    pub has_base_color_texture: bool,
    pub has_metallic_roughness_texture: bool,
    pub has_normal_texture: bool,
    pub has_occlusion_texture: bool,
    pub has_emissive_texture: bool,
    pub emissive_factor: [String; 3],
}

/// The scenes and materials of a glTF document.
pub struct DocumentInfo {
    pub scenes: Vec<SceneInfo>,
    pub materials: Vec<MaterialInfo>,
}

/// The height of a node's subtree: 1 for a node without children.
pub open spec fn node_height(node: NodeInfo) -> nat
    decreases node, 1nat,
{
    1 + nodes_height(node.children@)
}

/// The greatest height among the subtrees of `nodes`, 0 when there are none.
pub open spec fn nodes_height(nodes: Seq<NodeInfo>) -> nat
    decreases nodes, 0nat,
{
    if nodes.len() == 0 {
        0
    } else {
        let rest = nodes_height(nodes.drop_last());
        let last = node_height(nodes.last());
        if rest >= last {
            rest
        } else {
            last
        }
    }
}

/// No subtree among `nodes` is higher than all of them together.
pub proof fn lemma_nodes_height_bound(nodes: Seq<NodeInfo>, i: int)
    requires
        0 <= i < nodes.len(),
    ensures
        node_height(nodes[i]) <= nodes_height(nodes),
    decreases nodes.len(),
{
    if i < nodes.len() - 1 {
        lemma_nodes_height_bound(nodes.drop_last(), i);
        assert(nodes.drop_last()[i] == nodes[i]);
    }
}


/// Whether the subtree below `node` is at most `limit` levels deep.
pub fn node_within(node: &NodeInfo, limit: u32) -> (r: bool)
    ensures
        r == (node_height(*node) <= limit),
    decreases node,
{
    if limit == 0 {
        return false;
    }
    let mut i: usize = 0;
    while i < node.children.len()
        invariant
            0 < limit,
            i <= node.children@.len(),
            nodes_height(node.children@.subrange(0, i as int)) <= limit - 1,
        decreases node.children@.len() - i,
    {
        let fits = node_within(&node.children[i], limit - 1);
        let ghost done = node.children@.subrange(0, i + 1);
        assert(done.drop_last() =~= node.children@.subrange(0, i as int));
        if !fits {
            proof {
                lemma_nodes_height_bound(node.children@, i as int);
            }
            return false;
        }
        i = i + 1;
    }
    assert(node.children@.subrange(0, i as int) =~= node.children@);
    true
}

/// Whether every subtree below `nodes` is at most `limit` levels deep.
pub fn nodes_within(nodes: &Vec<NodeInfo>, limit: u32) -> (r: bool)
    ensures
        r == (nodes_height(nodes@) <= limit),
{
    let mut i: usize = 0;
    while i < nodes.len()
        invariant
            i <= nodes@.len(),
            nodes_height(nodes@.subrange(0, i as int)) <= limit,
        decreases nodes@.len() - i,
    {
        let fits = node_within(&nodes[i], limit);
        let ghost done = nodes@.subrange(0, i + 1);
        assert(done.drop_last() =~= nodes@.subrange(0, i as int));
        if !fits {
            proof {
                lemma_nodes_height_bound(nodes@, i as int);
            }
            return false;
        }
        i = i + 1;
    }
    assert(nodes@.subrange(0, i as int) =~= nodes@);
    true
}

} // verus!
