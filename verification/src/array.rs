use vstd::prelude::*;

verus! {

/// Wrapper over an OpenGL "Vertex Array Object" name.
#[derive(Debug)]
pub struct VertexArrayObject(pub u32);

impl VertexArrayObject {
    /// The raw object name, as the graphics API knows it.
    pub fn handle(&self) -> (r: u32)
        ensures
            r == self.0,
    {
        self.0
    }
}

} // verus!
