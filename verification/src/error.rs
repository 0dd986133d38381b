use vstd::prelude::*;

verus! {

/// An error condition reported by the graphics context.
#[derive(Debug, Clone, Copy, PartialEq, Eq, Structural)]
pub enum GlError {
    InvalidEnum,
    InvalidValue,
    InvalidOperation,
    InvalidFramebufferOperation,
    OutOfMemory,
}

impl GlError {
    /// The human-readable name of each error condition.
    pub open spec fn spec_message(self) -> Seq<char> {
        match self {
            GlError::InvalidEnum => "Invalid Enum"@,
            GlError::InvalidValue => "Invalid Value"@,
            GlError::InvalidOperation => "Invalid Operation"@,
            GlError::InvalidFramebufferOperation => "Invalid Framebuffer Operation"@,
            GlError::OutOfMemory => "Out Of Memory"@,
        }
    }

    /// A human-readable description of the error condition.
    pub fn message(&self) -> (r: &'static str)
        ensures
            r@ == self.spec_message(),
    {
        match self {
            GlError::InvalidEnum => "Invalid Enum",
            GlError::InvalidValue => "Invalid Value",
            GlError::InvalidOperation => "Invalid Operation",
            GlError::InvalidFramebufferOperation => "Invalid Framebuffer Operation",
            GlError::OutOfMemory => "Out Of Memory",
        }
    }
}

} // verus!
