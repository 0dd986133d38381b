//! Typed, verified core of a thin OpenGL wrapper.
//!
//! The crate models the wrapper's handle types and, above all, its one piece
//! of genuine logic: validation of pixel-transfer arguments for texture image
//! uploads (format/type compatibility, internal-format consistency, and
//! source-buffer size checks). The raw graphics calls themselves live outside
//! the verified library.

mod array;
mod buffer;
mod error;
mod formats;
mod framebuffer;
mod sampler;
mod shader;
mod texture;
mod transfer;
mod upload;

pub use array::VertexArrayObject;
pub use buffer::BufferObject;
pub use error::GlError;
pub use sampler::SamplerObject;
pub use shader::{ProgramObject, ShaderObject, UniformLocation};
pub use texture::TextureObject;
pub use framebuffer::{
    framebuffer_texture_1d_ok, framebuffer_texture_1d_valid, framebuffer_texture_2d_ok,
    framebuffer_texture_2d_valid, is_attachable_2d, FramebufferAttachment, FramebufferObject,
    RenderbufferObject,
};
pub use formats::{TexImageDataFormat, TexImageDataType, TexImageInnerFormat};
pub use formats::{TexImage1DTarget, TexImage2DTarget, TexImage3DTarget};
pub use formats::{
    is_cube_map_face, is_depth_only_inner, is_depth_stencil_inner, is_packed_3, is_packed_4,
    is_rectangle_2d,
};
pub use upload::{
    data_buffer_ok, tex_image_2d_target_ok, tex_image_3d_format_ok, validate_tex_image_1d,
    validate_tex_image_2d, validate_tex_image_3d, TexImageError,
};
pub use transfer::{
    buffer_sufficient, format_type_ok, inner_compatible, inner_format_ok,
    lemma_packed3_rgb_only, lemma_packed4_four_channel_only, lemma_sample_size_bounds,
    lemma_scalar_any_format, lemma_uncovered_never_sufficient, spec_buffer_ok,
    spec_channel_stride, spec_sample_size, transfer_compatible, util_datavalidation,
    util_samplesize,
};
