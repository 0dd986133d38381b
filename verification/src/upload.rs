use vstd::prelude::*;

use crate::formats::{
    is_cube_map_face, is_depth_stencil_inner, is_rectangle_2d, TexImage2DTarget,
    TexImageDataFormat, TexImageDataType, TexImageInnerFormat,
};
use crate::transfer::{
    format_type_ok, inner_format_ok, lemma_sample_size_bounds, spec_buffer_ok, spec_sample_size,
    util_datavalidation, util_samplesize,
};

verus! {

/// Why a set of pixel-transfer arguments was rejected.
#[derive(Debug, Clone, Copy, PartialEq, Eq, Structural)]
pub enum TexImageError {
    /// The transfer format, transfer type and internal format do not go
    /// together.
    IncompatibleFormat,
    /// An argument broke a constraint tied to the chosen target.
    InvalidTarget,
    /// The supplied source buffer is smaller than the image needs, or the
    /// combination's pixel size is not covered.
    UndersizedBuffer,
}

/// Sufficiency of an optional source buffer for `pixels` samples; absent
/// data passes unconditionally.
pub open spec fn data_buffer_ok(
    f: TexImageDataFormat,
    t: TexImageDataType,
    pixels: int,
    data: Option<&[u8]>,
) -> bool {
    match data {
        Some(bytes) => spec_buffer_ok(f, t, pixels, bytes@.len() as int),
        None => true,
    }
}

/// Checks that a buffer of `len` bytes can hold a `width` x `height` x
/// `depth` image under the given transfer format and type.
fn image_buffer_fits(
    f: TexImageDataFormat,
    t: TexImageDataType,
    width: usize,
    height: usize,
    depth: usize,
    len: usize,
) -> (r: bool)
    ensures
        r == spec_buffer_ok(f, t, width as int * height as int * depth as int, len as int),
{
    proof {
        lemma_sample_size_bounds(f, t);
    }
    match util_samplesize(f, t) {
        None => false,
        Some(s) => {
            if width == 0 || height == 0 || depth == 0 {
                proof {
                    assert(width as int * height as int * depth as int == 0) by (nonlinear_arith)
                        requires
                            width == 0 || height == 0 || depth == 0,
                    ;
                }
                true
            } else {
                let ghost total: int = width as int * height as int * depth as int;
                match width.checked_mul(height) {
                    None => {
                        proof {
                            assert(s as int * total > len as int) by (nonlinear_arith)
                                requires
                                    total == width as int * height as int * depth as int,
                                    width as int * height as int > len as int,
                                    depth >= 1,
                                    s >= 1,
                            ;
                        }
                        false
                    },
                    Some(wh) => match wh.checked_mul(depth) {
                        None => {
                            proof {
                                assert(s as int * total > len as int) by (nonlinear_arith)
                                    requires
                                        total == width as int * height as int * depth as int,
                                        wh == width as int * height as int,
                                        wh as int * depth as int > len as int,
                                        s >= 1,
                                ;
                            }
                            false
                        },
                        Some(whd) => {
                            proof {
                                assert(whd == total) by (nonlinear_arith)
                                    requires
                                        total == width as int * height as int * depth as int,
                                        wh == width as int * height as int,
                                        whd == wh as int * depth as int,
                                ;
                            }
                            match s.checked_mul(whd) {
                                None => false,
                                Some(required) => required <= len,
                            }
                        },
                    },
                }
            }
        },
    }
}

/// Validates the arguments of a one-dimensional texture image upload:
/// the format/type pair and the internal format must go together, and a
/// supplied buffer must cover `width` samples.
pub fn validate_tex_image_1d(
    inner_format: TexImageInnerFormat,
    width: usize,
    data_format: TexImageDataFormat,
    data_type: TexImageDataType,
    data: Option<&[u8]>,
) -> (r: Result<(), TexImageError>)
    ensures
        r is Ok <==> (format_type_ok(data_format, data_type) && inner_format_ok(
            inner_format,
            data_format,
        ) && data_buffer_ok(data_format, data_type, width as int, data)),
        r == Err::<(), TexImageError>(TexImageError::IncompatibleFormat) <==> !(format_type_ok(
            data_format,
            data_type,
        ) && inner_format_ok(inner_format, data_format)),
        r == Err::<(), TexImageError>(TexImageError::UndersizedBuffer) <==> (format_type_ok(
            data_format,
            data_type,
        ) && inner_format_ok(inner_format, data_format) && !data_buffer_ok(
            data_format,
            data_type,
            width as int,
            data,
        )),
{
    if !util_datavalidation(inner_format, data_format, data_type) {
        return Err(TexImageError::IncompatibleFormat);
    }
    match data {
        None => Ok(()),
        Some(bytes) => {
            if image_buffer_fits(data_format, data_type, width, 1, 1, bytes.len()) {
                Ok(())
            } else {
                Err(TexImageError::UndersizedBuffer)
            }
        },
    }
}

/// Constraints a two-dimensional upload's target places on the other
/// arguments: rectangle targets take only level zero, and cube-map faces
/// take only square images.
pub open spec fn tex_image_2d_target_ok(
    target: TexImage2DTarget,
    level: u16,
    width: usize,
    height: usize,
) -> bool {
    &&& is_rectangle_2d(target) ==> level == 0
    &&& is_cube_map_face(target) ==> width == height
}

/// Validates the arguments of a two-dimensional texture image upload:
/// the formats must go together, the target's level and shape constraints
/// must hold, and a supplied buffer must cover `width * height` samples.
pub fn validate_tex_image_2d(
    target: TexImage2DTarget,
    level: u16,
    inner_format: TexImageInnerFormat,
    width: usize,
    height: usize,
    data_format: TexImageDataFormat,
    data_type: TexImageDataType,
    data: Option<&[u8]>,
) -> (r: Result<(), TexImageError>)
    ensures
        r is Ok <==> (format_type_ok(data_format, data_type) && inner_format_ok(
            inner_format,
            data_format,
        ) && tex_image_2d_target_ok(target, level, width, height) && data_buffer_ok(
            data_format,
            data_type,
            width as int * height as int,
            data,
        )),
        r == Err::<(), TexImageError>(TexImageError::IncompatibleFormat) <==> !(format_type_ok(
            data_format,
            data_type,
        ) && inner_format_ok(inner_format, data_format)),
        r == Err::<(), TexImageError>(TexImageError::InvalidTarget) <==> (format_type_ok(
            data_format,
            data_type,
        ) && inner_format_ok(inner_format, data_format) && !tex_image_2d_target_ok(
            target,
            level,
            width,
            height,
        )),
        r == Err::<(), TexImageError>(TexImageError::UndersizedBuffer) <==> (format_type_ok(
            data_format,
            data_type,
        ) && inner_format_ok(inner_format, data_format) && tex_image_2d_target_ok(
            target,
            level,
            width,
            height,
        ) && !data_buffer_ok(data_format, data_type, width as int * height as int, data)),
{
    if !util_datavalidation(inner_format, data_format, data_type) {
        return Err(TexImageError::IncompatibleFormat);
    }
    let rectangle = match target {
        TexImage2DTarget::TextureRectangle | TexImage2DTarget::ProxyTextureRectangle => true,
        _ => false,
    };
    if rectangle && level != 0 {
        return Err(TexImageError::InvalidTarget);
    }
    let cube_face = match target {
        | TexImage2DTarget::TextureCubeMapPositiveX
        | TexImage2DTarget::TextureCubeMapNegativeX
        | TexImage2DTarget::TextureCubeMapPositiveY
        | TexImage2DTarget::TextureCubeMapNegativeY
        | TexImage2DTarget::TextureCubeMapPositiveZ
        | TexImage2DTarget::TextureCubeMapNegativeZ => true,
        _ => false,
    };
    if cube_face && width != height {
        return Err(TexImageError::InvalidTarget);
    }
    match data {
        None => Ok(()),
        Some(bytes) => {
            if image_buffer_fits(data_format, data_type, width, height, 1, bytes.len()) {
                Ok(())
            } else {
                Err(TexImageError::UndersizedBuffer)
            }
        },
    }
}

/// Constraints special to a three-dimensional upload: the stencil-only
/// transfer format is never accepted, and a combined depth+stencil internal
/// format takes exactly the combined depth+stencil transfer format.
pub open spec fn tex_image_3d_format_ok(
    i: TexImageInnerFormat,
    f: TexImageDataFormat,
) -> bool {
    &&& !(f is StencilIndex)
    &&& is_depth_stencil_inner(i) ==> f is DepthStencil
}

/// Validates the arguments of a three-dimensional texture image upload:
/// the formats must go together, the depth+stencil rules special to this
/// entry point must hold, and a supplied buffer must cover
/// `width * height * depth` samples.
pub fn validate_tex_image_3d(
    inner_format: TexImageInnerFormat,
    width: usize,
    height: usize,
    depth: usize,
    data_format: TexImageDataFormat,
    data_type: TexImageDataType,
    data: Option<&[u8]>,
) -> (r: Result<(), TexImageError>)
    ensures
        r is Ok <==> (format_type_ok(data_format, data_type) && inner_format_ok(
            inner_format,
            data_format,
        ) && tex_image_3d_format_ok(inner_format, data_format) && data_buffer_ok(
            data_format,
            data_type,
            width as int * height as int * depth as int,
            data,
        )),
        r == Err::<(), TexImageError>(TexImageError::IncompatibleFormat) <==> !(format_type_ok(
            data_format,
            data_type,
        ) && inner_format_ok(inner_format, data_format) && tex_image_3d_format_ok(
            inner_format,
            data_format,
        )),
        r == Err::<(), TexImageError>(TexImageError::UndersizedBuffer) <==> (format_type_ok(
            data_format,
            data_type,
        ) && inner_format_ok(inner_format, data_format) && tex_image_3d_format_ok(
            inner_format,
            data_format,
        ) && !data_buffer_ok(
            data_format,
            data_type,
            width as int * height as int * depth as int,
            data,
        )),
{
    if !util_datavalidation(inner_format, data_format, data_type) {
        return Err(TexImageError::IncompatibleFormat);
    }
    let stencil_index = match data_format {
        TexImageDataFormat::StencilIndex => true,
        _ => false,
    };
    if stencil_index {
        return Err(TexImageError::IncompatibleFormat);
    }
    let combined = match inner_format {
        | TexImageInnerFormat::DepthStencil
        | TexImageInnerFormat::Depth24Stencil8
        | TexImageInnerFormat::Depth32FStencil8 => true,
        _ => false,
    };
    let depth_stencil_format = match data_format {
        TexImageDataFormat::DepthStencil => true,
        _ => false,
    };
    if combined && !depth_stencil_format {
        return Err(TexImageError::IncompatibleFormat);
    }
    match data {
        None => Ok(()),
        Some(bytes) => {
            if image_buffer_fits(data_format, data_type, width, height, depth, bytes.len()) {
                Ok(())
            } else {
                Err(TexImageError::UndersizedBuffer)
            }
        },
    }
}

} // verus!
