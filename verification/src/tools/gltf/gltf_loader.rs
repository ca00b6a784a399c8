use vstd::prelude::*;

use crate::error::HobbyError;
use crate::geometry::mesh::Mesh;
use crate::geometry::vertex::Vertex;
use crate::tools::gltf::document::DocumentInfo;

verus! {

/// A loaded glTF document, as far as the details report reads it.
pub struct ImportData {
    pub doc: DocumentInfo,
}

/// Loads glTF files found under `resource_path`.
pub struct GltfLoader {
    pub resource_path: std::path::PathBuf,
}

impl GltfLoader {
    pub fn new(resource_path: std::path::PathBuf) -> (r: GltfLoader)
        ensures
            r.resource_path == resource_path,
    {
        GltfLoader { resource_path }
    }
}

/// The vertex data read from a glTF primitive: each attribute set that could be read
/// (`None` when the primitive lacks it), and the primitive's index for error reports.
pub struct PrimitiveData<S> {
    pub index: usize,
    pub positions: Option<Vec<[S; 3]>>,
    pub normals: Option<Vec<[S; 3]>>,
    pub tangents: Option<Vec<[S; 4]>>,
    pub tex_coords: Option<Vec<[S; 2]>>,
    pub colors: Option<Vec<[S; 4]>>,
    pub indices: Option<Vec<u32>>,
}

/// Value `i` of an optional attribute set, if the set exists and is that long.
pub open spec fn attribute_at<T>(values: Option<Vec<T>>, i: int) -> Option<T> {
    match values {
        Some(v) => if 0 <= i < v@.len() {
            Some(v@[i])
        } else {
            None
        },
        None => None,
    }
}

/// Whether an optional attribute set is no longer than `n`.
pub open spec fn set_within<T>(values: Option<Vec<T>>, n: nat) -> bool {
    match values {
        Some(v) => v@.len() <= n,
        None => true,
    }
}

/// Whether no attribute set of a primitive with positions has more values than it has
/// positions (each value is stored into the vertex at the same position).
pub open spec fn primitive_fits<S>(p: PrimitiveData<S>) -> bool {
    match p.positions {
        Some(ps) => {
            &&& set_within(p.normals, ps@.len())
            &&& set_within(p.tangents, ps@.len())
            &&& set_within(p.tex_coords, ps@.len())
            &&& set_within(p.colors, ps@.len())
        },
        None => true,
    }
}

/// Vertex `i` of a primitive: its position, and each attribute that has a value there.
pub open spec fn assembled_vertex<S>(p: PrimitiveData<S>, i: int) -> Vertex<S> {
    Vertex {
        position: p.positions.unwrap()@[i],
        color: attribute_at(p.colors, i),
        normal: attribute_at(p.normals, i),
        tangent: attribute_at(p.tangents, i),
        tex_coord: attribute_at(p.tex_coords, i),
    }
}

/// What processing a primitive gives: an error for a primitive without positions, then
/// one for a primitive without indices, and otherwise its mesh.
pub open spec fn primitive_result<S>(p: PrimitiveData<S>, mesh_index: usize, r: Result<
    Mesh<S>,
    HobbyError,
>) -> bool {
    if p.positions is None {
        r == Err::<Mesh<S>, HobbyError>(
            HobbyError::MissingPositions { mesh_index, primitive_index: p.index },
        )
    } else if p.indices is None {
        r == Err::<Mesh<S>, HobbyError>(
            HobbyError::MissingIndices { mesh_index, primitive_index: p.index },
        )
    } else {
        &&& r is Ok
        &&& r.unwrap().vertices@.len() == p.positions.unwrap()@.len()
        &&& forall|i: int|
            0 <= i < p.positions.unwrap()@.len() ==> #[trigger] r.unwrap().vertices@[i]
                == assembled_vertex(p, i)
        &&& r.unwrap().indices@ == p.indices.unwrap()@
    }
}

fn value_at<T: Copy>(values: &Option<Vec<T>>, i: usize) -> (r: Option<T>)
    ensures
        r == attribute_at(*values, i as int),
{
    match values {
        Some(v) => if i < v.len() {
            Some(v[i])
        } else {
            None
        },
        None => None,
    }
}

/// Builds the mesh of a primitive of mesh `mesh_index`: one vertex per position, with
/// the normal, tangent, texture coordinate and color found at the same position, and
/// the primitive's indices. A primitive without positions or without indices is refused.
pub fn process_primitive<S: Copy>(primitive: &PrimitiveData<S>, mesh_index: usize) -> (r: Result<
    Mesh<S>,
    HobbyError,
>)
    requires
        primitive_fits(*primitive),
    ensures
        primitive_result(*primitive, mesh_index, r),
{
    let positions = match &primitive.positions {
        Some(positions) => positions,
        None => {
            return Err(
                HobbyError::MissingPositions { mesh_index, primitive_index: primitive.index },
            );
        },
    };
    let mut vertices: Vec<Vertex<S>> = Vec::new();
    let mut i: usize = 0;
    while i < positions.len()
        invariant
            primitive.positions == Some(*positions),
            i <= positions@.len(),
            vertices@.len() == i,
            forall|k: int| 0 <= k < i ==> #[trigger] vertices@[k] == assembled_vertex(*primitive, k),
        decreases positions@.len() - i,
    {
        let vertex = Vertex {
            position: positions[i],
            color: value_at(&primitive.colors, i),
            normal: value_at(&primitive.normals, i),
            tangent: value_at(&primitive.tangents, i),
            tex_coord: value_at(&primitive.tex_coords, i),
        };
        vertices.push(vertex);
        i = i + 1;
    }
    let indices = match &primitive.indices {
        Some(indices) => indices,
        None => {
            return Err(HobbyError::MissingIndices { mesh_index, primitive_index: primitive.index });
        },
    };
    let mut index_list: Vec<u32> = Vec::new();
    let mut j: usize = 0;
    while j < indices.len()
        invariant
            j <= indices@.len(),
            index_list@ == indices@.subrange(0, j as int),
        decreases indices@.len() - j,
    {
        index_list.push(indices[j]);
        j = j + 1;
    }
    assert(index_list@ =~= indices@);
    Ok(Mesh::new(vertices, index_list))
}

/// The meshes of the primitives of mesh `mesh_index`, one per primitive, in order; the
/// first primitive that is refused makes the whole mesh fail with its error.
pub fn create_meshes<S: Copy>(primitives: &Vec<PrimitiveData<S>>, mesh_index: usize) -> (r: Result<
    Vec<Mesh<S>>,
    HobbyError,
>)
    requires
        fit_until_refused(primitives@),
    ensures
        match r {
            Ok(meshes) => {
                &&& meshes@.len() == primitives@.len()
                &&& forall|i: int|
                    0 <= i < primitives@.len() ==> primitive_result(
                        #[trigger] primitives@[i],
                        mesh_index,
                        Ok::<Mesh<S>, HobbyError>(meshes@[i]),
                    )
            },
            Err(e) => exists|k: int|
                0 <= k < primitives@.len() && primitive_result(
                    #[trigger] primitives@[k],
                    mesh_index,
                    Err::<Mesh<S>, HobbyError>(e),
                ) && forall|i: int|
                    0 <= i < k ==> primitive_ok(#[trigger] primitives@[i]),
        },
{
    let mut meshes: Vec<Mesh<S>> = Vec::new();
    let mut i: usize = 0;
    while i < primitives.len()
        invariant
            i <= primitives@.len(),
            fit_until_refused(primitives@),
            meshes@.len() == i,
            forall|k: int|
                0 <= k < i ==> primitive_result(
                    #[trigger] primitives@[k],
                    mesh_index,
                    Ok::<Mesh<S>, HobbyError>(meshes@[k]),
                ),
            forall|k: int| 0 <= k < i ==> primitive_ok(#[trigger] primitives@[k]),
        decreases primitives@.len() - i,
    {
        assert(primitive_fits(primitives@[i as int]));
        let mesh = process_primitive(&primitives[i], mesh_index);
        match mesh {
            Ok(mesh) => {
                meshes.push(mesh);
                assert(primitive_ok(primitives@[i as int]));
            },
            Err(e) => {
                assert(primitive_result(primitives@[i as int], mesh_index, Err::<Mesh<S>, HobbyError>(e)));
                return Err(e);
            },
        }
        i = i + 1;
    }
    Ok(meshes)
}

/// Whether a primitive has both positions and indices, so that processing it succeeds.
pub open spec fn primitive_ok<S>(p: PrimitiveData<S>) -> bool {
    p.positions is Some && p.indices is Some
}


/// The primitives of the mesh of one node, and that mesh's index.
pub struct NodeMeshData<S> {
    pub mesh_index: usize,
    pub primitives: Vec<PrimitiveData<S>>,
}

/// Whether `meshes` are the meshes of `primitives` (of mesh `mesh_index`), one per
/// primitive, in order.
pub open spec fn meshes_of<S>(primitives: Seq<PrimitiveData<S>>, mesh_index: usize, meshes: Seq<
    Mesh<S>,
>) -> bool {
    &&& meshes.len() == primitives.len()
    &&& forall|i: int|
        0 <= i < primitives.len() ==> primitive_result(
            #[trigger] primitives[i],
            mesh_index,
            Ok::<Mesh<S>, HobbyError>(meshes[i]),
        )
}

/// The meshes of the models of a document: for each node that has a mesh, in node
/// order, the meshes of its primitives, in order. The first primitive that is refused,
/// in that order, makes the whole document fail with its error.
pub fn create_model_meshes<S: Copy>(nodes: &Vec<NodeMeshData<S>>) -> (r: Result<
    Vec<Vec<Mesh<S>>>,
    HobbyError,
>)
    requires
        nodes_fit_until_refused(nodes@),
    ensures
        match r {
            Ok(groups) => {
                &&& groups@.len() == nodes@.len()
                &&& forall|n: int|
                    0 <= n < nodes@.len() ==> meshes_of(
                        #[trigger] nodes@[n].primitives@,
                        nodes@[n].mesh_index,
                        groups@[n]@,
                    )
            },
            Err(e) => exists|n: int, k: int|
                {
                    &&& 0 <= n < nodes@.len()
                    &&& 0 <= k < nodes@[n].primitives@.len()
                    &&& primitive_result(
                        #[trigger] nodes@[n].primitives@[k],
                        nodes@[n].mesh_index,
                        Err::<Mesh<S>, HobbyError>(e),
                    )
                    &&& forall|m: int, i: int|
                        0 <= m < n && 0 <= i < nodes@[m].primitives@.len() ==> primitive_ok(
                            #[trigger] nodes@[m].primitives@[i],
                        )
                    &&& forall|i: int| 0 <= i < k ==> primitive_ok(#[trigger] nodes@[n].primitives@[i])
                },
        },
{
    let mut groups: Vec<Vec<Mesh<S>>> = Vec::new();
    let mut n: usize = 0;
    while n < nodes.len()
        invariant
            n <= nodes@.len(),
            nodes_fit_until_refused(nodes@),
            groups@.len() == n,
            forall|m: int|
                0 <= m < n ==> meshes_of(
                    #[trigger] nodes@[m].primitives@,
                    nodes@[m].mesh_index,
                    groups@[m]@,
                ),
            forall|m: int, i: int|
                0 <= m < n && 0 <= i < nodes@[m].primitives@.len() ==> primitive_ok(
                    #[trigger] nodes@[m].primitives@[i],
                ),
        decreases nodes@.len() - n,
    {
        let node = &nodes[n];
        assert forall|i: int|
            0 <= i < node.primitives@.len() && (forall|j: int|
                0 <= j < i ==> primitive_ok(#[trigger] node.primitives@[j])) implies primitive_fits(
            #[trigger] node.primitives@[i],
        ) by {
            assert(nodes@[n as int].primitives@[i] == node.primitives@[i]);
            assert(earlier_nodes_ok(nodes@, n as int));
        }
        match create_meshes(&node.primitives, node.mesh_index) {
            Ok(meshes) => {
                assert forall|i: int| 0 <= i < node.primitives@.len() implies primitive_ok(
                    #[trigger] node.primitives@[i],
                ) by {
                    assert(primitive_result(
                        node.primitives@[i],
                        node.mesh_index,
                        Ok::<Mesh<S>, HobbyError>(meshes@[i]),
                    ));
                }
                groups.push(meshes);
                assert(meshes_of(nodes@[n as int].primitives@, nodes@[n as int].mesh_index, groups@[n as int]@));
            },
            Err(e) => {
                let ghost k = choose|k: int|
                    0 <= k < node.primitives@.len() && primitive_result(
                        #[trigger] node.primitives@[k],
                        node.mesh_index,
                        Err::<Mesh<S>, HobbyError>(e),
                    ) && forall|i: int| 0 <= i < k ==> primitive_ok(#[trigger] node.primitives@[i]);
                assert(primitive_result(
                    nodes@[n as int].primitives@[k],
                    nodes@[n as int].mesh_index,
                    Err::<Mesh<S>, HobbyError>(e),
                ));
                return Err(e);
            },
        }
        n = n + 1;
    }
    Ok(groups)
}


/// Whether each primitive fits (see `primitive_fits`) when every primitive before it can
/// be processed: the primitives that are reached must fit, those after the first refused
/// one are never looked at.
pub open spec fn fit_until_refused<S>(primitives: Seq<PrimitiveData<S>>) -> bool {
    forall|i: int|
        0 <= i < primitives.len() && (forall|j: int| 0 <= j < i ==> primitive_ok(#[trigger] primitives[j]))
            ==> primitive_fits(#[trigger] primitives[i])
}

/// Whether every primitive of the nodes before node `n` can be processed.
pub open spec fn earlier_nodes_ok<S>(nodes: Seq<NodeMeshData<S>>, n: int) -> bool {
    forall|m: int, j: int|
        0 <= m < n && 0 <= j < nodes[m].primitives@.len() ==> primitive_ok(
            #[trigger] nodes[m].primitives@[j],
        )
}

/// Whether each primitive of the nodes fits when every primitive before it, in node then
/// primitive order, can be processed.
pub open spec fn nodes_fit_until_refused<S>(nodes: Seq<NodeMeshData<S>>) -> bool {
    forall|n: int, i: int|
        0 <= n < nodes.len() && 0 <= i < nodes[n].primitives@.len() && earlier_nodes_ok(nodes, n)
            && (forall|j: int| 0 <= j < i ==> primitive_ok(#[trigger] nodes[n].primitives@[j]))
            ==> primitive_fits(#[trigger] nodes[n].primitives@[i])
}


/// Each vertex of a processed primitive takes every attribute from the attribute set of
/// the same name, at its own position: position `i` of the positions, color `i` of the
/// colors, normal `i` of the normals, tangent `i` of the tangents and texture coordinate
/// `i` of the texture coordinates; an attribute the primitive lacks, or has no value for
/// at that position, is left out.
pub proof fn lemma_processed_vertex_attributes<S>(
    p: PrimitiveData<S>,
    mesh_index: usize,
    mesh: Mesh<S>,
    i: int,
)
    requires
        primitive_result(p, mesh_index, Ok::<Mesh<S>, HobbyError>(mesh)),
        0 <= i < mesh.vertices@.len(),
    ensures
        p.positions matches Some(ps) && i < ps@.len() && mesh.vertices@[i].position == ps@[i],
        mesh.indices@ == p.indices.unwrap()@,
        match p.colors {
            Some(cs) => mesh.vertices@[i].color == if i < cs@.len() {
                Some(cs@[i])
            } else {
                None
            },
            None => mesh.vertices@[i].color is None,
        },
        match p.tangents {
            Some(ts) => mesh.vertices@[i].tangent == if i < ts@.len() {
                Some(ts@[i])
            } else {
                None
            },
            None => mesh.vertices@[i].tangent is None,
        },
        match p.normals {
            Some(ns) => mesh.vertices@[i].normal == if i < ns@.len() {
                Some(ns@[i])
            } else {
                None
            },
            None => mesh.vertices@[i].normal is None,
        },
        match p.tex_coords {
            Some(ts) => mesh.vertices@[i].tex_coord == if i < ts@.len() {
                Some(ts@[i])
            } else {
                None
            },
            None => mesh.vertices@[i].tex_coord is None,
        },
{
    assert(mesh.vertices@[i] == assembled_vertex(p, i));
}

/// A primitive with both positions and indices always becomes a mesh with one vertex per
/// position; without positions it is refused for them, and with positions but without
/// indices it is refused for the indices.
pub proof fn lemma_processed_primitive_outcome<S>(
    p: PrimitiveData<S>,
    mesh_index: usize,
    r: Result<Mesh<S>, HobbyError>,
)
    requires
        primitive_result(p, mesh_index, r),
    ensures
        (p.positions is Some && p.indices is Some) <==> r is Ok,
        r matches Ok(m) ==> m.vertices@.len() == p.positions.unwrap()@.len(),
        p.positions is None ==> r == Err::<Mesh<S>, HobbyError>(
            HobbyError::MissingPositions { mesh_index, primitive_index: p.index },
        ),
        p.positions is Some && p.indices is None ==> r == Err::<Mesh<S>, HobbyError>(
            HobbyError::MissingIndices { mesh_index, primitive_index: p.index },
        ),
{
}

} // verus!
