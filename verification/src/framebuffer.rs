use vstd::arithmetic::power2::{lemma2_to64, lemma_pow2_strictly_increases, lemma_pow2_unfold, pow2};
use vstd::prelude::*;

use crate::formats::{is_cube_map_face, TexImage1DTarget, TexImage2DTarget};

verus! {

/// Wrapper over an OpenGL "Framebuffer Object" name.
#[derive(Debug)]
pub struct FramebufferObject(pub u32);

impl FramebufferObject {
    /// The raw object name, as the graphics API knows it.
    pub fn handle(&self) -> (r: u32)
        ensures
            r == self.0,
    {
        self.0
    }
}

/// Wrapper over an OpenGL "Renderbuffer Object" name.
#[derive(Debug)]
pub struct RenderbufferObject(pub u32);

impl RenderbufferObject {
    /// The raw object name, as the graphics API knows it.
    pub fn handle(&self) -> (r: u32)
        ensures
            r == self.0,
    {
        self.0
    }
}

/// An attachment point of a framebuffer.
#[derive(Debug, Clone, Copy, PartialEq, Eq, Structural)]
pub enum FramebufferAttachment {
    ColorAttachment(u8),
    DepthAttachment,
    StencilAttachment,
    DepthStencilAttachment,
}

impl FramebufferAttachment {
    /// Checks that a color attachment's index stays below the context's
    /// color-attachment limit; the fixed attachment points always pass.
    pub fn valid_index(&self, max_color_attachments: u32) -> (r: bool)
        ensures
            r == (*self matches FramebufferAttachment::ColorAttachment(x) ==> (x as u32)
                < max_color_attachments),
    {
        match self {
            FramebufferAttachment::ColorAttachment(x) => (*x as u32) < max_color_attachments,
            _ => true,
        }
    }
}

/// Whether two to the power `exp` is at most `bound`.
fn pow2_at_most(exp: u16, bound: u32) -> (r: bool)
    ensures
        r == (pow2(exp as nat) <= bound),
{
    if exp >= 32 {
        proof {
            lemma2_to64();
            if exp > 32 {
                lemma_pow2_strictly_increases(32, exp as nat);
            }
        }
        return false;
    }
    let mut p: u64 = 1;
    let mut i: u16 = 0;
    proof {
        lemma2_to64();
    }
    while i < exp
        invariant
            i <= exp,
            exp < 32,
            p == pow2(i as nat),
        decreases exp - i,
    {
        proof {
            lemma2_to64();
            if (i as nat) < 31 {
                lemma_pow2_strictly_increases(i as nat, 31);
            }
            lemma_pow2_unfold((i + 1) as nat);
        }
        p = p * 2;
        i = i + 1;
    }
    p <= bound as u64
}

/// A texture may back a one-dimensional framebuffer attachment only through
/// the plain one-dimensional target.
pub open spec fn framebuffer_texture_1d_ok(textarget: TexImage1DTarget, has_texture: bool) -> bool {
    has_texture ==> textarget is Texture1D
}

/// Checks the target of a one-dimensional framebuffer texture attachment.
pub fn framebuffer_texture_1d_valid(textarget: TexImage1DTarget, has_texture: bool) -> (r: bool)
    ensures
        r == framebuffer_texture_1d_ok(textarget, has_texture),
{
    if has_texture {
        match textarget {
            TexImage1DTarget::Texture1D => true,
            _ => false,
        }
    } else {
        true
    }
}

/// The two-dimensional targets a texture may be attached through.
pub open spec fn is_attachable_2d(t: TexImage2DTarget) -> bool {
    match t {
        TexImage2DTarget::Texture2D => true,
        TexImage2DTarget::TextureRectangle => true,
        _ => is_cube_map_face(t),
    }
}

/// What a two-dimensional framebuffer texture attachment requires: an
/// attachable target when a texture is given, level zero for rectangle
/// textures, and a mip level whose power of two stays within the relevant
/// size limit (the cube-map limit for cube-map faces, the general texture
/// limit otherwise).
pub open spec fn framebuffer_texture_2d_ok(
    textarget: TexImage2DTarget,
    has_texture: bool,
    level: u16,
    max_texture_size: u32,
    max_cube_map_texture_size: u32,
) -> bool {
    &&& has_texture ==> is_attachable_2d(textarget)
    &&& textarget is TextureRectangle ==> level == 0
    &&& if is_cube_map_face(textarget) {
        pow2(level as nat) <= max_cube_map_texture_size
    } else {
        pow2(level as nat) <= max_texture_size
    }
}

/// Checks the arguments of a two-dimensional framebuffer texture
/// attachment against the context's size limits.
pub fn framebuffer_texture_2d_valid(
    textarget: TexImage2DTarget,
    has_texture: bool,
    level: u16,
    max_texture_size: u32,
    max_cube_map_texture_size: u32,
) -> (r: bool)
    ensures
        r == framebuffer_texture_2d_ok(
            textarget,
            has_texture,
            level,
            max_texture_size,
            max_cube_map_texture_size,
        ),
{
    let cube_face = match textarget {
        | TexImage2DTarget::TextureCubeMapPositiveX
        | TexImage2DTarget::TextureCubeMapNegativeX
        | TexImage2DTarget::TextureCubeMapPositiveY
        | TexImage2DTarget::TextureCubeMapNegativeY
        | TexImage2DTarget::TextureCubeMapPositiveZ
        | TexImage2DTarget::TextureCubeMapNegativeZ => true,
        _ => false,
    };
    if has_texture {
        let attachable = match textarget {
            TexImage2DTarget::Texture2D | TexImage2DTarget::TextureRectangle => true,
            _ => cube_face,
        };
        if !attachable {
            return false;
        }
    }
    let rectangle = match textarget {
        TexImage2DTarget::TextureRectangle => true,
        _ => false,
    };
    if rectangle && level != 0 {
        return false;
    }
    if cube_face {
        pow2_at_most(level, max_cube_map_texture_size)
    } else {
        pow2_at_most(level, max_texture_size)
    }
}

} // verus!
