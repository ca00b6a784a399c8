use vstd::prelude::*;

use crate::geometry::vertex::Vertex;

verus! {

/// The vertices of a mesh and the indices that make its triangles.
pub struct Mesh<S> {
    pub vertices: Vec<Vertex<S>>,
    pub indices: Vec<u32>,
}

impl<S> Mesh<S> {
    pub fn new(vertices: Vec<Vertex<S>>, indices: Vec<u32>) -> (m: Mesh<S>)
        ensures
            m.vertices@ == vertices@,
            m.indices@ == indices@,
    {
        Mesh { vertices, indices }
    }
}

} // verus!
