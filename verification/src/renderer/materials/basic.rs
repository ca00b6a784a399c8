use vstd::prelude::*;

use crate::error::HobbyError;
use crate::geometry::mesh::Mesh;
use crate::geometry::vertex::Vertex;

verus! {

/// The vertex layout of the basic material: a position and a color.
#[derive(Clone, Copy)]
pub struct BasicVertex<S> {
    pub position: [S; 3],
    pub color: [S; 4],
}

impl<S: Copy> BasicVertex<S> {
    /// The basic-material vertex of a mesh vertex that has a color.
    pub fn from_vertex(vertex: &Vertex<S>) -> (r: BasicVertex<S>)
        requires
            vertex.color is Some,
        ensures
            r.position == vertex.position,
            r.color == vertex.color.unwrap(),
    {
        BasicVertex { position: vertex.position, color: vertex.color.unwrap() }
    }
}

/// Whether a mesh can be drawn with the basic material: its first vertex must have a
/// color.
pub fn check_mesh<S: Copy>(mesh: &Mesh<S>) -> (r: Result<(), HobbyError>)
    requires
        mesh.vertices@.len() > 0,
    ensures
        mesh.vertices@[0].color is Some ==> r is Ok,
        mesh.vertices@[0].color is None ==> r == Err::<(), HobbyError>(
            HobbyError::MissingVertexColor,
        ),
{
    let vertex = mesh.vertices[0];
    if vertex.color.is_none() {
        return Err(HobbyError::MissingVertexColor);
    }
    Ok(())
}

/// The basic-material vertices of a mesh whose vertices all have colors.
pub fn basic_vertices<S: Copy>(mesh: &Mesh<S>) -> (r: Vec<BasicVertex<S>>)
    requires
        forall|i: int| 0 <= i < mesh.vertices@.len() ==> (#[trigger] mesh.vertices@[i]).color is Some,
    ensures
        r@.len() == mesh.vertices@.len(),
        forall|i: int|
            0 <= i < r@.len() ==> (#[trigger] r@[i]).position == mesh.vertices@[i].position
                && r@[i].color == mesh.vertices@[i].color.unwrap(),
{
    let mut vertices: Vec<BasicVertex<S>> = Vec::new();
    let mut i: usize = 0;
    while i < mesh.vertices.len()
        invariant
            i <= mesh.vertices@.len(),
            forall|k: int| 0 <= k < mesh.vertices@.len() ==> (#[trigger] mesh.vertices@[k]).color is Some,
            vertices@.len() == i,
            forall|k: int|
                0 <= k < i ==> (#[trigger] vertices@[k]).position == mesh.vertices@[k].position
                    && vertices@[k].color == mesh.vertices@[k].color.unwrap(),
        decreases mesh.vertices@.len() - i,
    {
        vertices.push(BasicVertex::from_vertex(&mesh.vertices[i]));
        i = i + 1;
    }
    vertices
}

} // verus!
