use vstd::prelude::*;

verus! {

/// Wrapper over an OpenGL "Texture Object" name.
#[derive(Debug)]
pub struct TextureObject(pub u32);

impl TextureObject {
    /// The raw object name, as the graphics API knows it.
    pub fn handle(&self) -> (r: u32)
        ensures
            r == self.0,
    {
        self.0
    }
}

} // verus!
