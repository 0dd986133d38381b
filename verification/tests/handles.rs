use std::marker::PhantomData;

use glwrap::{
    framebuffer_texture_1d_valid, framebuffer_texture_2d_valid, BufferObject,
    FramebufferAttachment, FramebufferObject, GlError, ProgramObject, RenderbufferObject,
    SamplerObject, ShaderObject, TexImage1DTarget, TexImage2DTarget, TextureObject,
    UniformLocation, VertexArrayObject,
};

#[test]
fn handles_return_their_raw_names() {
    assert_eq!(VertexArrayObject(7).handle(), 7);
    assert_eq!(BufferObject(8).handle(), 8);
    assert_eq!(FramebufferObject(9).handle(), 9);
    assert_eq!(RenderbufferObject(10).handle(), 10);
    assert_eq!(SamplerObject(11).handle(), 11);
    assert_eq!(ShaderObject(12).handle(), 12);
    assert_eq!(ProgramObject(13).handle(), 13);
    assert_eq!(TextureObject(14).handle(), 14);
    assert_eq!(UniformLocation(15, PhantomData).get(), 15);
}

#[test]
fn gl_error_messages() {
    assert_eq!(GlError::InvalidEnum.message(), "Invalid Enum");
    assert_eq!(GlError::InvalidValue.message(), "Invalid Value");
    assert_eq!(GlError::InvalidOperation.message(), "Invalid Operation");
    assert_eq!(
        GlError::InvalidFramebufferOperation.message(),
        "Invalid Framebuffer Operation"
    );
    assert_eq!(GlError::OutOfMemory.message(), "Out Of Memory");
}

#[test]
fn color_attachment_indices_are_bounded() {
    assert!(FramebufferAttachment::ColorAttachment(0).valid_index(8));
    assert!(FramebufferAttachment::ColorAttachment(7).valid_index(8));
    assert!(!FramebufferAttachment::ColorAttachment(8).valid_index(8));
    assert!(FramebufferAttachment::DepthAttachment.valid_index(0));
    assert!(FramebufferAttachment::StencilAttachment.valid_index(0));
    assert!(FramebufferAttachment::DepthStencilAttachment.valid_index(0));
}

#[test]
fn one_d_attachment_takes_only_the_plain_target() {
    assert!(framebuffer_texture_1d_valid(TexImage1DTarget::Texture1D, true));
    assert!(!framebuffer_texture_1d_valid(TexImage1DTarget::ProxyTexture1D, true));
    assert!(framebuffer_texture_1d_valid(TexImage1DTarget::ProxyTexture1D, false));
}

#[test]
fn two_d_attachment_requires_an_attachable_target() {
    assert!(framebuffer_texture_2d_valid(TexImage2DTarget::Texture2D, true, 0, 1024, 1024));
    assert!(framebuffer_texture_2d_valid(
        TexImage2DTarget::TextureCubeMapNegativeZ,
        true,
        0,
        1024,
        1024
    ));
    assert!(!framebuffer_texture_2d_valid(TexImage2DTarget::ProxyTexture2D, true, 0, 1024, 1024));
    assert!(!framebuffer_texture_2d_valid(TexImage2DTarget::Texture1DArray, true, 0, 1024, 1024));
    assert!(framebuffer_texture_2d_valid(TexImage2DTarget::Texture1DArray, false, 0, 1024, 1024));
}

#[test]
fn two_d_attachment_levels_stay_within_the_size_limits() {
    // 2^10 == 1024, so levels up to 10 pass against a 1024 limit.
    assert!(framebuffer_texture_2d_valid(TexImage2DTarget::Texture2D, true, 10, 1024, 16));
    assert!(!framebuffer_texture_2d_valid(TexImage2DTarget::Texture2D, true, 11, 1024, 16));
    // Cube-map faces go by the cube-map limit instead.
    assert!(framebuffer_texture_2d_valid(
        TexImage2DTarget::TextureCubeMapPositiveY,
        true,
        4,
        1024,
        16
    ));
    assert!(!framebuffer_texture_2d_valid(
        TexImage2DTarget::TextureCubeMapPositiveY,
        true,
        5,
        1024,
        16
    ));
    // Levels of 32 and above can never fit a 32-bit size limit.
    assert!(!framebuffer_texture_2d_valid(TexImage2DTarget::Texture2D, true, 32, u32::MAX, 16));
    assert!(!framebuffer_texture_2d_valid(TexImage2DTarget::Texture2D, true, 40000, u32::MAX, 16));
}

#[test]
fn rectangle_attachment_takes_only_level_zero() {
    assert!(framebuffer_texture_2d_valid(
        TexImage2DTarget::TextureRectangle,
        true,
        0,
        1024,
        1024
    ));
    assert!(!framebuffer_texture_2d_valid(
        TexImage2DTarget::TextureRectangle,
        true,
        1,
        1024,
        1024
    ));
}
