use vstd::prelude::*;

use crate::error::HobbyError;
use crate::geometry::mesh::Mesh;
use crate::geometry::vertex::Vertex;

verus! {

/// The vertex layout of the textured material: a position and a texture coordinate.
#[derive(Clone, Copy)]
pub struct TexturedVertex<S> {
    pub position: [S; 3],
    pub tex_coord: [S; 2],
}

impl<S: Copy> TexturedVertex<S> {
    /// The textured-material vertex of a mesh vertex that has a texture coordinate.
    pub fn from_vertex(vertex: &Vertex<S>) -> (r: TexturedVertex<S>)
        requires
            vertex.tex_coord is Some,
        ensures
            r.position == vertex.position,
            r.tex_coord == vertex.tex_coord.unwrap(),
    {
        TexturedVertex { position: vertex.position, tex_coord: vertex.tex_coord.unwrap() }
    }
}

/// Whether a mesh can be drawn with the textured material: its first vertex must have a
/// texture coordinate.
pub fn check_mesh<S: Copy>(mesh: &Mesh<S>) -> (r: Result<(), HobbyError>)
    requires
        mesh.vertices@.len() > 0,
    ensures
        mesh.vertices@[0].tex_coord is Some ==> r is Ok,
        mesh.vertices@[0].tex_coord is None ==> r == Err::<(), HobbyError>(
            HobbyError::MissingVertexTexCoord,
        ),
{
    let vertex = &mesh.vertices[0];
    if vertex.tex_coord.is_none() {
        return Err(HobbyError::MissingVertexTexCoord);
    }
    Ok(())
}

/// The textured-material vertices of a mesh whose vertices all have texture coordinates.
pub fn textured_vertices<S: Copy>(mesh: &Mesh<S>) -> (r: Vec<TexturedVertex<S>>)
    requires
        forall|i: int| 0 <= i < mesh.vertices@.len() ==> (#[trigger] mesh.vertices@[i]).tex_coord is Some,
    ensures
        r@.len() == mesh.vertices@.len(),
        forall|i: int|
            0 <= i < r@.len() ==> (#[trigger] r@[i]).position == mesh.vertices@[i].position
                && r@[i].tex_coord == mesh.vertices@[i].tex_coord.unwrap(),
{
    let mut vertices: Vec<TexturedVertex<S>> = Vec::new();
    let mut i: usize = 0;
    while i < mesh.vertices.len()
        invariant
            i <= mesh.vertices@.len(),
            forall|k: int| 0 <= k < mesh.vertices@.len() ==> (#[trigger] mesh.vertices@[k]).tex_coord is Some,
            vertices@.len() == i,
            forall|k: int|
                0 <= k < i ==> (#[trigger] vertices@[k]).position == mesh.vertices@[k].position
                    && vertices@[k].tex_coord == mesh.vertices@[k].tex_coord.unwrap(),
        decreases mesh.vertices@.len() - i,
    {
        vertices.push(TexturedVertex::from_vertex(&mesh.vertices[i]));
        i = i + 1;
    }
    vertices
}

} // verus!
