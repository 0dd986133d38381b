use std::marker::PhantomData;
use vstd::prelude::*;

verus! {

/// Wrapper over an OpenGL "Shader Object" name.
#[derive(Debug)]
pub struct ShaderObject(pub u32);

impl ShaderObject {
    /// The raw object name, as the graphics API knows it.
    pub fn handle(&self) -> (r: u32)
        ensures
            r == self.0,
    {
        self.0
    }
}

/// Wrapper over an OpenGL "Program Object" name.
#[derive(Debug)]
pub struct ProgramObject(pub u32);

impl ProgramObject {
    /// The raw object name, as the graphics API knows it.
    pub fn handle(&self) -> (r: u32)
        ensures
            r == self.0,
    {
        self.0
    }
}

/// Location of a uniform within a program, tied to the program's lifetime
/// for type safety.
#[derive(Debug)]
pub struct UniformLocation<'a>(pub u32, pub PhantomData<&'a ()>);

impl<'a> UniformLocation<'a> {
    /// The raw location, as the graphics API knows it.
    pub fn get(&self) -> (r: u32)
        ensures
            r == self.0,
    {
        self.0
    }
}

} // verus!
