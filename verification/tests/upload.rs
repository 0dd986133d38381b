use glwrap::{
    validate_tex_image_1d, validate_tex_image_2d, validate_tex_image_3d, TexImage2DTarget,
    TexImageDataFormat, TexImageDataType, TexImageError, TexImageInnerFormat,
};

#[test]
fn two_d_upload_of_4x4_rgba_bytes_needs_64_bytes() {
    let exact = vec![0u8; 64];
    assert_eq!(
        validate_tex_image_2d(
            TexImage2DTarget::Texture2D,
            0,
            TexImageInnerFormat::RGBA8,
            4,
            4,
            TexImageDataFormat::RGBA,
            TexImageDataType::UnsignedByte,
            Some(&exact),
        ),
        Ok(())
    );
    let short = vec![0u8; 63];
    assert_eq!(
        validate_tex_image_2d(
            TexImage2DTarget::Texture2D,
            0,
            TexImageInnerFormat::RGBA8,
            4,
            4,
            TexImageDataFormat::RGBA,
            TexImageDataType::UnsignedByte,
            Some(&short),
        ),
        Err(TexImageError::UndersizedBuffer)
    );
}

#[test]
fn one_d_upload_checks_width_against_buffer() {
    let buf = vec![0u8; 12];
    assert_eq!(
        validate_tex_image_1d(
            TexImageInnerFormat::RGB8,
            4,
            TexImageDataFormat::RGB,
            TexImageDataType::UnsignedByte,
            Some(&buf),
        ),
        Ok(())
    );
    assert_eq!(
        validate_tex_image_1d(
            TexImageInnerFormat::RGB8,
            5,
            TexImageDataFormat::RGB,
            TexImageDataType::UnsignedByte,
            Some(&buf),
        ),
        Err(TexImageError::UndersizedBuffer)
    );
}

#[test]
fn upload_without_data_skips_the_buffer_check() {
    assert_eq!(
        validate_tex_image_2d(
            TexImage2DTarget::Texture2D,
            0,
            TexImageInnerFormat::RGBA8,
            usize::MAX,
            usize::MAX,
            TexImageDataFormat::RGBA,
            TexImageDataType::UnsignedByte,
            None,
        ),
        Ok(())
    );
}

#[test]
fn incompatible_formats_are_rejected_before_the_buffer() {
    let buf = vec![0u8; 1024];
    assert_eq!(
        validate_tex_image_1d(
            TexImageInnerFormat::RGBA8,
            4,
            TexImageDataFormat::RGBA,
            TexImageDataType::UnsignedShort_5_6_5,
            Some(&buf),
        ),
        Err(TexImageError::IncompatibleFormat)
    );
    assert_eq!(
        validate_tex_image_2d(
            TexImage2DTarget::Texture2D,
            0,
            TexImageInnerFormat::DepthComponent16,
            4,
            4,
            TexImageDataFormat::RGBA,
            TexImageDataType::UnsignedByte,
            Some(&buf),
        ),
        Err(TexImageError::IncompatibleFormat)
    );
}

#[test]
fn rectangle_targets_take_only_level_zero() {
    assert_eq!(
        validate_tex_image_2d(
            TexImage2DTarget::TextureRectangle,
            1,
            TexImageInnerFormat::RGBA8,
            4,
            4,
            TexImageDataFormat::RGBA,
            TexImageDataType::UnsignedByte,
            None,
        ),
        Err(TexImageError::InvalidTarget)
    );
    assert_eq!(
        validate_tex_image_2d(
            TexImage2DTarget::TextureRectangle,
            0,
            TexImageInnerFormat::RGBA8,
            4,
            4,
            TexImageDataFormat::RGBA,
            TexImageDataType::UnsignedByte,
            None,
        ),
        Ok(())
    );
}

#[test]
fn cube_map_faces_take_only_square_images() {
    assert_eq!(
        validate_tex_image_2d(
            TexImage2DTarget::TextureCubeMapPositiveX,
            0,
            TexImageInnerFormat::RGBA8,
            4,
            8,
            TexImageDataFormat::RGBA,
            TexImageDataType::UnsignedByte,
            None,
        ),
        Err(TexImageError::InvalidTarget)
    );
    assert_eq!(
        validate_tex_image_2d(
            TexImage2DTarget::TextureCubeMapPositiveX,
            0,
            TexImageInnerFormat::RGBA8,
            8,
            8,
            TexImageDataFormat::RGBA,
            TexImageDataType::UnsignedByte,
            None,
        ),
        Ok(())
    );
}

#[test]
fn three_d_upload_rejects_stencil_index() {
    let buf = vec![0u8; 1 << 16];
    assert_eq!(
        validate_tex_image_3d(
            TexImageInnerFormat::RGBA8,
            4,
            4,
            4,
            TexImageDataFormat::StencilIndex,
            TexImageDataType::UnsignedByte,
            Some(&buf),
        ),
        Err(TexImageError::IncompatibleFormat)
    );
}

#[test]
fn three_d_combined_depth_stencil_needs_depth_stencil_transfer() {
    assert_eq!(
        validate_tex_image_3d(
            TexImageInnerFormat::Depth24Stencil8,
            4,
            4,
            4,
            TexImageDataFormat::RGBA,
            TexImageDataType::UnsignedByte,
            None,
        ),
        Err(TexImageError::IncompatibleFormat)
    );
    assert_eq!(
        validate_tex_image_3d(
            TexImageInnerFormat::Depth24Stencil8,
            4,
            4,
            4,
            TexImageDataFormat::DepthStencil,
            TexImageDataType::UnsignedInt,
            None,
        ),
        Ok(())
    );
}

#[test]
fn three_d_upload_checks_the_volume_against_the_buffer() {
    let buf = vec![0u8; 2 * 2 * 2 * 4];
    assert_eq!(
        validate_tex_image_3d(
            TexImageInnerFormat::RGBA8,
            2,
            2,
            2,
            TexImageDataFormat::RGBA,
            TexImageDataType::UnsignedByte,
            Some(&buf),
        ),
        Ok(())
    );
    assert_eq!(
        validate_tex_image_3d(
            TexImageInnerFormat::RGBA8,
            2,
            2,
            3,
            TexImageDataFormat::RGBA,
            TexImageDataType::UnsignedByte,
            Some(&buf),
        ),
        Err(TexImageError::UndersizedBuffer)
    );
}

#[test]
fn uncovered_pixel_size_fails_whatever_the_buffer_holds() {
    let big = vec![0u8; 1 << 20];
    assert_eq!(
        validate_tex_image_1d(
            TexImageInnerFormat::RGBA8,
            1,
            TexImageDataFormat::StencilIndex,
            TexImageDataType::UnsignedByte,
            Some(&big),
        ),
        Err(TexImageError::UndersizedBuffer)
    );
}

#[test]
fn half_float_uploads_check_two_bytes_per_component() {
    // 4 x 4 pixels of four 16-bit float channels each: 128 bytes.
    let exact = vec![0u8; 128];
    assert_eq!(
        validate_tex_image_2d(
            TexImage2DTarget::Texture2D,
            0,
            TexImageInnerFormat::RGBA16F,
            4,
            4,
            TexImageDataFormat::RGBA,
            TexImageDataType::HalfFloat,
            Some(&exact),
        ),
        Ok(())
    );
    let short = vec![0u8; 127];
    assert_eq!(
        validate_tex_image_2d(
            TexImage2DTarget::Texture2D,
            0,
            TexImageInnerFormat::RGBA16F,
            4,
            4,
            TexImageDataFormat::RGBA,
            TexImageDataType::HalfFloat,
            Some(&short),
        ),
        Err(TexImageError::UndersizedBuffer)
    );
}

#[test]
fn zero_sized_images_accept_an_empty_buffer() {
    let empty: Vec<u8> = Vec::new();
    assert_eq!(
        validate_tex_image_2d(
            TexImage2DTarget::Texture2D,
            0,
            TexImageInnerFormat::RGBA8,
            0,
            usize::MAX,
            TexImageDataFormat::RGBA,
            TexImageDataType::UnsignedByte,
            Some(&empty),
        ),
        Ok(())
    );
}

#[test]
fn overflowing_dimension_products_count_as_undersized() {
    let buf = vec![0u8; 1024];
    assert_eq!(
        validate_tex_image_3d(
            TexImageInnerFormat::RGBA8,
            usize::MAX,
            usize::MAX,
            usize::MAX,
            TexImageDataFormat::RGBA,
            TexImageDataType::UnsignedByte,
            Some(&buf),
        ),
        Err(TexImageError::UndersizedBuffer)
    );
}
