use vstd::prelude::*;

verus! {

/// A vertex: a position and the optional attributes a mesh may carry. `S` is the
/// scalar type of the coordinates.
#[derive(Clone, Copy)]
pub struct Vertex<S> {
    pub position: [S; 3],
    pub color: Option<[S; 4]>,
    pub normal: Option<[S; 3]>,
    pub tangent: Option<[S; 4]>,
    pub tex_coord: Option<[S; 2]>,
}

impl<S: Copy + Default> Vertex<S> {
    /// A builder that starts from the default vertex.
    pub fn builder() -> (b: VertexBuilder<S>)
        ensures
            b.position@[0] == b.position@[1],
            b.position@[1] == b.position@[2],
            b.color is None,
            b.normal is None,
            b.tangent is None,
            b.tex_coord is None,
    {
        VertexBuilder::new()
    }
}

impl<S: Copy + Default> Default for Vertex<S> {
    /// The vertex at the scalar default in every coordinate, with no other attribute.
    fn default() -> (v: Vertex<S>)
        ensures
            v.position@[0] == v.position@[1],
            v.position@[1] == v.position@[2],
            v.color is None,
            v.normal is None,
            v.tangent is None,
            v.tex_coord is None,
    {
        let zero = S::default();
        Vertex { position: [zero, zero, zero], color: None, normal: None, tangent: None, tex_coord: None }
    }
}

/// Builds a vertex one attribute at a time.
pub struct VertexBuilder<S> {
    pub position: [S; 3],
    pub color: Option<[S; 4]>,
    pub normal: Option<[S; 3]>,
    pub tangent: Option<[S; 4]>,
    pub tex_coord: Option<[S; 2]>,
}

impl<S: Copy + Default> VertexBuilder<S> {
    /// A builder holding the default vertex.
    pub fn new() -> (b: VertexBuilder<S>)
        ensures
            b.position@[0] == b.position@[1],
            b.position@[1] == b.position@[2],
            b.color is None,
            b.normal is None,
            b.tangent is None,
            b.tex_coord is None,
    {
        let vertex: Vertex<S> = Vertex::default();
        VertexBuilder {
            position: vertex.position,
            color: vertex.color,
            normal: vertex.normal,
            tangent: vertex.tangent,
            tex_coord: vertex.tex_coord,
        }
    }
}

impl<S: Copy> VertexBuilder<S> {
    pub fn with_position(self, position: [S; 3]) -> (b: VertexBuilder<S>)
        ensures
            b == (VertexBuilder { position, ..self }),
    {
        VertexBuilder {
            position: position,
            color: self.color,
            normal: self.normal,
            tangent: self.tangent,
            tex_coord: self.tex_coord,
        }
    }

    pub fn with_color(self, color: [S; 4]) -> (b: VertexBuilder<S>)
        ensures
            b == (VertexBuilder { color: Some(color), ..self }),
    {
        VertexBuilder {
            position: self.position,
            color: Some(color),
            normal: self.normal,
            tangent: self.tangent,
            tex_coord: self.tex_coord,
        }
    }

    pub fn with_normal(self, normal: [S; 3]) -> (b: VertexBuilder<S>)
        ensures
            b == (VertexBuilder { normal: Some(normal), ..self }),
    {
        VertexBuilder {
            position: self.position,
            color: self.color,
            normal: Some(normal),
            tangent: self.tangent,
            tex_coord: self.tex_coord,
        }
    }

    pub fn with_tangent(self, tangent: [S; 4]) -> (b: VertexBuilder<S>)
        ensures
            b == (VertexBuilder { tangent: Some(tangent), ..self }),
    {
        VertexBuilder {
            position: self.position,
            color: self.color,
            normal: self.normal,
            tangent: Some(tangent),
            tex_coord: self.tex_coord,
        }
    }

    pub fn with_tex_coord(self, tex_coord: [S; 2]) -> (b: VertexBuilder<S>)
        ensures
            b == (VertexBuilder { tex_coord: Some(tex_coord), ..self }),
    {
        VertexBuilder {
            position: self.position,
            color: self.color,
            normal: self.normal,
            tangent: self.tangent,
            tex_coord: Some(tex_coord),
        }
    }

    /// The vertex with the attributes set so far.
    pub fn build(self) -> (v: Vertex<S>)
        ensures
            v.position == self.position,
            v.color == self.color,
            v.normal == self.normal,
            v.tangent == self.tangent,
            v.tex_coord == self.tex_coord,
    {
        Vertex {
            position: self.position,
            color: self.color,
            normal: self.normal,
            tangent: self.tangent,
            tex_coord: self.tex_coord,
        }
    }
}

} // verus!
