pub mod document;
pub mod gltf_details;
pub mod gltf_loader;

use vstd::prelude::*;

use crate::text::{commas, decimal, push_commas, push_usize};
use crate::tools::gltf::document::{NodeInfo, SceneInfo};

verus! {

#[verifier::external_type_specification]
#[verifier::external_body]
pub struct ExPathBuf(std::path::PathBuf);

/// Writes a short summary of the scenes of a glTF file found under `resource_path`.
pub struct GltfLoader {
    pub resource_path: std::path::PathBuf,
}

impl GltfLoader {
    pub fn new(resource_path: std::path::PathBuf) -> (r: GltfLoader)
        ensures
            r.resource_path == resource_path,
    {
        GltfLoader { resource_path }
    }

    /// The summary of the scenes of the file `gltf_file`: a title line, the scene
    /// count, then each scene with its root nodes. Every scene and root node must be
    /// named.
    pub fn output_details(&self, gltf_file: &str, scenes: &Vec<SceneInfo>) -> (r: String)
        requires
            all_named(scenes@),
        ensures
            r@ == summary_text(gltf_file@, scenes@),
    {
        let mut file = summary_title(gltf_file);
        file.append("Number of Scenes, ");
        push_usize(&mut file, scenes.len());
        file.append("\n");
        let ghost head = file@;
        let mut i: usize = 0;
        while i < scenes.len()
            invariant
                i <= scenes@.len(),
                all_named(scenes@),
                file@ == head + scenes_summary_text(scenes@.subrange(0, i as int)),
            decreases scenes@.len() - i,
        {
            let scene = &scenes[i];
            assert(scene_named(scenes@[i as int]));
            file.append("Scene Index, ");
            push_usize(&mut file, scene.index);
            file.append(", Name, ");
            match &scene.name {
                Some(name) => file.append(name.as_str()),
                None => {},
            }
            file.append("\n");
            let string = get_scene_details(scene);
            file.append(string.as_str());
            proof {
                let ss = scenes@.subrange(0, i + 1);
                assert(ss.drop_last() =~= scenes@.subrange(0, i as int));
                assert(file@ =~= head + scenes_summary_text(ss));
            }
            i = i + 1;
        }
        proof {
            assert(scenes@.subrange(0, i as int) =~= scenes@);
            assert(file@ =~= summary_text(gltf_file@, scenes@));
        }
        file
    }
}

/// Whether a scene and each of its root nodes has a name.
pub open spec fn scene_named(scene: SceneInfo) -> bool {
    &&& scene.name is Some
    &&& forall|j: int| 0 <= j < scene.nodes@.len() ==> (#[trigger] scene.nodes@[j]).name is Some
}

/// Whether every scene and every root node has a name.
pub open spec fn all_named(scenes: Seq<SceneInfo>) -> bool {
    forall|i: int| 0 <= i < scenes.len() ==> #[trigger] scene_named(scenes[i])
}

/// The summary line of a node, one level below `depth`.
pub open spec fn node_summary_text(node: NodeInfo, depth: nat, is_child: bool) -> Seq<char> {
    commas(depth + 1) + (if is_child {
        " Child Node, "@
    } else {
        " "@
    }) + "Node Index, "@ + decimal(node.index as nat) + ", node name, "@ + node.name.unwrap()@
        + "\n"@
}

/// Summarizes a node (its own line only). The node must be named.
pub fn process_node(node: &NodeInfo, depth: u32, is_child: bool) -> (r: String)
    requires
        node.name is Some,
        depth < u32::MAX,
    ensures
        r@ == node_summary_text(*node, depth as nat, is_child),
{
    let depth = depth + 1;
    let mut output = String::new();
    push_commas(&mut output, depth);
    if is_child {
        output.append(" Child Node, ");
    } else {
        output.append(" ");
    }
    output.append("Node Index, ");
    push_usize(&mut output, node.index);
    output.append(", node name, ");
    match &node.name {
        Some(name) => output.append(name.as_str()),
        None => {},
    }
    output.append("\n");
    proof {
        assert(output@ =~= node_summary_text(*node, (depth - 1) as nat, is_child));
    }
    output
}

/// The summary lines of root nodes `0..n`.
pub open spec fn nodes_summary_text(nodes: Seq<NodeInfo>) -> Seq<char>
    decreases nodes.len(),
{
    if nodes.len() == 0 {
        Seq::empty()
    } else {
        nodes_summary_text(nodes.drop_last()) + node_summary_text(nodes.last(), 0, false)
    }
}

/// The summary of a scene: its node count, then a line per root node.
pub open spec fn scene_summary_text(scene: SceneInfo) -> Seq<char> {
    ",Number of Nodes, "@ + decimal(scene.nodes@.len()) + "\n"@ + nodes_summary_text(
        scene.nodes@,
    )
}

/// Summarizes a scene. Its root nodes must be named.
pub fn get_scene_details(scene: &SceneInfo) -> (r: String)
    requires
        forall|j: int| 0 <= j < scene.nodes@.len() ==> (#[trigger] scene.nodes@[j]).name is Some,
    ensures
        r@ == scene_summary_text(*scene),
{
    let mut output = String::from_str(",Number of Nodes, ");
    push_usize(&mut output, scene.nodes.len());
    output.append("\n");
    let ghost head = output@;
    let mut i: usize = 0;
    while i < scene.nodes.len()
        invariant
            i <= scene.nodes@.len(),
            forall|j: int| 0 <= j < scene.nodes@.len() ==> (#[trigger] scene.nodes@[j]).name is Some,
            output@ == head + nodes_summary_text(scene.nodes@.subrange(0, i as int)),
        decreases scene.nodes@.len() - i,
    {
        assert(scene.nodes@[i as int].name is Some);
        let temp = process_node(&scene.nodes[i], 0, false);
        output.append(temp.as_str());
        proof {
            let ns = scene.nodes@.subrange(0, i + 1);
            assert(ns.drop_last() =~= scene.nodes@.subrange(0, i as int));
            assert(output@ =~= head + nodes_summary_text(ns));
        }
        i = i + 1;
    }
    proof {
        assert(scene.nodes@.subrange(0, i as int) =~= scene.nodes@);
    }
    output
}

/// The summary lines of scenes `0..n`.
pub open spec fn scenes_summary_text(scenes: Seq<SceneInfo>) -> Seq<char>
    decreases scenes.len(),
{
    if scenes.len() == 0 {
        Seq::empty()
    } else {
        let s = scenes.last();
        scenes_summary_text(scenes.drop_last()) + "Scene Index, "@ + decimal(s.index as nat)
            + ", Name, "@ + s.name.unwrap()@ + "\n"@ + scene_summary_text(s)
    }
}

/// The whole summary of the file `gltf_file`.
pub open spec fn summary_text(gltf_file: Seq<char>, scenes: Seq<SceneInfo>) -> Seq<char> {
    "Details for "@ + gltf_file + "\n"@ + "Number of Scenes, "@ + decimal(scenes.len()) + "\n"@
        + scenes_summary_text(scenes)
}


/// The title line the scene summary of a glTF file starts with; it is written as soon
/// as the summary file is created.
pub fn summary_title(gltf_file: &str) -> (r: String)
    ensures
        r@ == "Details for "@ + gltf_file@ + "\n"@,
{
    let mut title = String::from_str("Details for ");
    title.append(gltf_file);
    title.append("\n");
    title
}


/// Every root node of a scene has its line in the summary, in order: the text of two lists one after the other is the text of the first list
/// followed by the text of the second.
pub proof fn lemma_nodes_summary_text_concat(a: Seq<NodeInfo>, b: Seq<NodeInfo>)
    ensures
        nodes_summary_text(a + b) == nodes_summary_text(a) + nodes_summary_text(b),
    decreases b.len(),
{
    if b.len() == 0 {
        assert(a + b =~= a);
        assert(nodes_summary_text(a) + nodes_summary_text(b) =~= nodes_summary_text(a));
    } else {
        lemma_nodes_summary_text_concat(a, b.drop_last());
        assert((a + b).drop_last() =~= a + b.drop_last());
        assert((a + b).last() == b.last());
        assert(nodes_summary_text(a + b) =~= nodes_summary_text(a) + nodes_summary_text(b));
    }
}

/// Every root node of a scene has its line in the summary, in order: the text of a single node is exactly that node's own text.
pub proof fn lemma_nodes_summary_text_single(x: NodeInfo)
    ensures
        nodes_summary_text(seq![x]) == node_summary_text(x, 0, false),
{
    assert(seq![x].drop_last() =~= Seq::<NodeInfo>::empty());
    assert(seq![x].last() == x);
    assert(nodes_summary_text(seq![x].drop_last()) =~= Seq::<char>::empty());
    assert(nodes_summary_text(seq![x]) == nodes_summary_text(seq![x].drop_last()) + node_summary_text(x, 0, false));
    assert(nodes_summary_text(seq![x]) =~= node_summary_text(x, 0, false));
}

/// Every root node of a scene has its line in the summary, in order: node `i` has its own text at its place, between the text of the nodes
/// before it and the text of those after it.
pub proof fn lemma_nodes_summary_text_each(s: Seq<NodeInfo>, i: int)
    requires
        0 <= i < s.len(),
    ensures
        nodes_summary_text(s) == nodes_summary_text(s.take(i)) + node_summary_text(s[i], 0, false) + nodes_summary_text(s.skip(i + 1)),
{
    assert(s =~= s.take(i) + (seq![s[i]] + s.skip(i + 1)));
    lemma_nodes_summary_text_concat(s.take(i), seq![s[i]] + s.skip(i + 1));
    lemma_nodes_summary_text_concat(seq![s[i]], s.skip(i + 1));
    lemma_nodes_summary_text_single(s[i]);
    assert(nodes_summary_text(s) =~= nodes_summary_text(s.take(i)) + node_summary_text(s[i], 0, false) + nodes_summary_text(s.skip(i + 1)));
}

/// Every scene of a file has its block in the summary, in order: the text of two lists one after the other is the text of the first list
/// followed by the text of the second.
pub proof fn lemma_scenes_summary_text_concat(a: Seq<SceneInfo>, b: Seq<SceneInfo>)
    ensures
        scenes_summary_text(a + b) == scenes_summary_text(a) + scenes_summary_text(b),
    decreases b.len(),
{
    if b.len() == 0 {
        assert(a + b =~= a);
        assert(scenes_summary_text(a) + scenes_summary_text(b) =~= scenes_summary_text(a));
    } else {
        lemma_scenes_summary_text_concat(a, b.drop_last());
        assert((a + b).drop_last() =~= a + b.drop_last());
        assert((a + b).last() == b.last());
        assert(scenes_summary_text(a + b) =~= scenes_summary_text(a) + scenes_summary_text(b));
    }
}

/// Every scene of a file has its block in the summary, in order: the text of a single scene is exactly that scene's own text.
pub proof fn lemma_scenes_summary_text_single(x: SceneInfo)
    ensures
        scenes_summary_text(seq![x]) == "Scene Index, "@ + decimal(x.index as nat) + ", Name, "@ + x.name.unwrap()@ + "\n"@ + scene_summary_text(x),
{
    assert(seq![x].drop_last() =~= Seq::<SceneInfo>::empty());
    assert(seq![x].last() == x);
    assert(scenes_summary_text(seq![x].drop_last()) =~= Seq::<char>::empty());
    assert(scenes_summary_text(seq![x]) == scenes_summary_text(seq![x].drop_last()) + "Scene Index, "@ + decimal(x.index as nat) + ", Name, "@ + x.name.unwrap()@ + "\n"@ + scene_summary_text(x));
    assert(scenes_summary_text(seq![x]) =~= "Scene Index, "@ + decimal(x.index as nat) + ", Name, "@ + x.name.unwrap()@ + "\n"@ + scene_summary_text(x));
}

/// Every scene of a file has its block in the summary, in order: scene `i` has its own text at its place, between the text of the scenes
/// before it and the text of those after it.
pub proof fn lemma_scenes_summary_text_each(s: Seq<SceneInfo>, i: int)
    requires
        0 <= i < s.len(),
    ensures
        scenes_summary_text(s) == scenes_summary_text(s.take(i)) + "Scene Index, "@ + decimal(s[i].index as nat) + ", Name, "@ + s[i].name.unwrap()@ + "\n"@ + scene_summary_text(s[i]) + scenes_summary_text(s.skip(i + 1)),
{
    assert(s =~= s.take(i) + (seq![s[i]] + s.skip(i + 1)));
    lemma_scenes_summary_text_concat(s.take(i), seq![s[i]] + s.skip(i + 1));
    lemma_scenes_summary_text_concat(seq![s[i]], s.skip(i + 1));
    lemma_scenes_summary_text_single(s[i]);
    assert(scenes_summary_text(s) =~= scenes_summary_text(s.take(i)) + "Scene Index, "@ + decimal(s[i].index as nat) + ", Name, "@ + s[i].name.unwrap()@ + "\n"@ + scene_summary_text(s[i]) + scenes_summary_text(s.skip(i + 1)));
}

} // verus!
