use vstd::prelude::*;

use crate::error::HobbyError;
use crate::geometry::vertex::Vertex;

verus! {

/// The vertex layout of the basic pipeline: a position and a color.
#[derive(Clone, Copy)]
pub struct BasicVertex<S> {
    pub position: [S; 3],
    pub color: [S; 4],
}

impl<S: Copy> BasicVertex<S> {
    /// Whether a mesh vertex can feed the basic pipeline: it needs a color.
    pub fn check_vertex(vertex: &Vertex<S>) -> (r: Result<(), HobbyError>)
        ensures
            vertex.color is Some ==> r is Ok,
            vertex.color is None ==> r == Err::<(), HobbyError>(HobbyError::MissingVertexColor),
    {
        if vertex.color.is_none() {
            return Err(HobbyError::MissingVertexColor);
        }
        Ok(())
    }

    /// The basic-pipeline vertex of a mesh vertex that has a color.
    pub fn from_vertex(vertex: &Vertex<S>) -> (r: BasicVertex<S>)
        requires
            vertex.color is Some,
        ensures
            r.position == vertex.position,
            r.color == vertex.color.unwrap(),
    {
        BasicVertex { position: vertex.position, color: vertex.color.unwrap() }
    }

    /// The basic-pipeline vertices of a mesh's vertices. Only the first vertex is checked:
    /// without a color the mesh is refused, and with one every vertex must have one.
    pub fn from_vertices(vertices: &Vec<Vertex<S>>) -> (r: Result<Vec<BasicVertex<S>>, HobbyError>)
        requires
            vertices@.len() > 0,
            vertices@[0].color is Some ==> forall|i: int|
                0 <= i < vertices@.len() ==> (#[trigger] vertices@[i]).color is Some,
        ensures
            vertices@[0].color is None ==> r == Err::<Vec<BasicVertex<S>>, HobbyError>(
                HobbyError::MissingVertexColor,
            ),
            vertices@[0].color is Some ==> (r matches Ok(v) && v@.len() == vertices@.len() && (
            forall|i: int|
                0 <= i < v@.len() ==> (#[trigger] v@[i]).position == vertices@[i].position
                    && v@[i].color == vertices@[i].color.unwrap())),
    {
        Self::check_vertex(&vertices[0])?;
        let mut converted: Vec<BasicVertex<S>> = Vec::new();
        let mut i: usize = 0;
        while i < vertices.len()
            invariant
                i <= vertices@.len(),
                forall|k: int| 0 <= k < vertices@.len() ==> (#[trigger] vertices@[k]).color is Some,
                converted@.len() == i,
                forall|k: int|
                    0 <= k < i ==> (#[trigger] converted@[k]).position == vertices@[k].position
                        && converted@[k].color == vertices@[k].color.unwrap(),
            decreases vertices@.len() - i,
        {
            converted.push(Self::from_vertex(&vertices[i]));
            i = i + 1;
        }
        Ok(converted)
    }
}

} // verus!
