use vstd::prelude::*;

verus! {

/// The storage layout requested for a texture image.
#[derive(Debug, Clone, Copy, PartialEq, Eq, Structural)]
pub enum TexImageInnerFormat {
    // base formats
    Red,
    RG,
    RGB,
    RGBA,
    DepthComponent,
    DepthStencil,
    // texture and renderbuffer color formats
    RGBA32F,
    RGBA32I,
    RGBA32UI,
    RGBA16,
    RGBA16F,
    RGBA16I,
    RGBA16UI,
    RGBA8,
    RGBA8I,
    RGBA8UI,
    SRGB8Alpha8,
    RGB10A2,
    RGB10A2UI,
    R11FG11FB10F,
    RG32F,
    RG32I,
    RG32UI,
    RG16,
    RG16F,
    RG16I,
    RG16UI,
    RG8,
    RG8I,
    RG8UI,
    // texture-only color formats
    RGBA16SNorm,
    RGBA8SNorm,
    RGB32F,
    RGB32I,
    RGB32UI,
    RGB16SNorm,
    RGB16F,
    RGB16I,
    RGB16UI,
    RGB16,
    RGB8SNorm,
    RGB8,
    RGB8I,
    RGB8UI,
    SRGB8,
    RGB9E5,
    RG16SNorm,
    RG8SNorm,
    R16SNorm,
    R8SNorm,
    // depth formats
    DepthComponent32F,
    DepthComponent24,
    DepthComponent16,
    // combined depth+stencil formats
    Depth32FStencil8,
    Depth24Stencil8,
    // compressed formats
    CompressedRed,
    CompressedRG,
    CompressedRGB,
    CompressedRGBA,
}

/// The channel layout of client-supplied pixel source data.
#[derive(Debug, Clone, Copy, PartialEq, Eq, Structural)]
pub enum TexImageDataFormat {
    Red,
    Green,
    Blue,
    RG,
    RGB,
    RGBA,
    BGR,
    BGRA,
    RedInteger,
    GreenInteger,
    BlueInteger,
    RGInteger,
    RGBInteger,
    RGBAInteger,
    BGRInteger,
    BGRAInteger,
    DepthComponent,
    DepthStencil,
    StencilIndex,
}

/// The per-channel (or packed multi-channel) encoding of client-supplied
/// pixel source data.
#[derive(Debug, Clone, Copy, PartialEq, Eq, Structural)]
#[allow(non_camel_case_types)]
pub enum TexImageDataType {
    UnsignedByte,
    Byte,
    UnsignedShort,
    Short,
    UnsignedInt,
    Int,
    HalfFloat,
    Float,
    UnsignedByte_3_3_2,
    UnsignedByte_2_3_3_Rev,
    UnsignedShort_5_6_5,
    UnsignedShort_5_6_5_Rev,
    UnsignedShort_4_4_4_4,
    UnsignedShort_4_4_4_4_Rev,
    UnsignedShort_5_5_5_1,
    UnsignedShort_1_5_5_5_Rev,
    UnsignedInt_8_8_8_8,
    UnsignedInt_8_8_8_8_Rev,
    UnsignedInt_10_10_10_2,
    UnsignedInt_2_10_10_10_Rev,
}

/// Targets accepted by a one-dimensional texture image upload.
#[derive(Debug, Clone, Copy, PartialEq, Eq, Structural)]
pub enum TexImage1DTarget {
    Texture1D,
    ProxyTexture1D,
}

/// Targets accepted by a two-dimensional texture image upload.
#[derive(Debug, Clone, Copy, PartialEq, Eq, Structural)]
pub enum TexImage2DTarget {
    Texture2D,
    Texture1DArray,
    TextureRectangle,
    TextureCubeMapPositiveX,
    TextureCubeMapNegativeX,
    TextureCubeMapPositiveY,
    TextureCubeMapNegativeY,
    TextureCubeMapPositiveZ,
    TextureCubeMapNegativeZ,
    ProxyTexture2D,
    ProxyTexture1DArray,
    ProxyTextureRectangle,
    ProxyTextureCubeMap,
}

/// Targets accepted by a three-dimensional texture image upload.
#[derive(Debug, Clone, Copy, PartialEq, Eq, Structural)]
pub enum TexImage3DTarget {
    Texture3D,
    Texture2DArray,
    ProxyTexture3D,
    ProxyTexture2DArray,
}

/// The two-dimensional targets that address a rectangle texture.
pub open spec fn is_rectangle_2d(t: TexImage2DTarget) -> bool {
    match t {
        TexImage2DTarget::TextureRectangle => true,
        TexImage2DTarget::ProxyTextureRectangle => true,
        _ => false,
    }
}

/// The two-dimensional targets that address one face of a cube map.
pub open spec fn is_cube_map_face(t: TexImage2DTarget) -> bool {
    match t {
        TexImage2DTarget::TextureCubeMapPositiveX => true,
        TexImage2DTarget::TextureCubeMapNegativeX => true,
        TexImage2DTarget::TextureCubeMapPositiveY => true,
        TexImage2DTarget::TextureCubeMapNegativeY => true,
        TexImage2DTarget::TextureCubeMapPositiveZ => true,
        TexImage2DTarget::TextureCubeMapNegativeZ => true,
        _ => false,
    }
}

/// The packed encodings that interleave three channels into one machine word.
pub open spec fn is_packed_3(t: TexImageDataType) -> bool {
    match t {
        TexImageDataType::UnsignedByte_3_3_2 => true,
        TexImageDataType::UnsignedByte_2_3_3_Rev => true,
        TexImageDataType::UnsignedShort_5_6_5 => true,
        TexImageDataType::UnsignedShort_5_6_5_Rev => true,
        _ => false,
    }
}

/// The packed encodings that interleave four channels into one machine word.
pub open spec fn is_packed_4(t: TexImageDataType) -> bool {
    match t {
        TexImageDataType::UnsignedShort_4_4_4_4 => true,
        TexImageDataType::UnsignedShort_4_4_4_4_Rev => true,
        TexImageDataType::UnsignedShort_5_5_5_1 => true,
        TexImageDataType::UnsignedShort_1_5_5_5_Rev => true,
        TexImageDataType::UnsignedInt_8_8_8_8 => true,
        TexImageDataType::UnsignedInt_8_8_8_8_Rev => true,
        TexImageDataType::UnsignedInt_10_10_10_2 => true,
        TexImageDataType::UnsignedInt_2_10_10_10_Rev => true,
        _ => false,
    }
}

/// The depth-only internal formats: plain depth component and the
/// fixed-bit-width depth-only variants. Combined depth+stencil formats are
/// deliberately not included.
pub open spec fn is_depth_only_inner(i: TexImageInnerFormat) -> bool {
    match i {
        TexImageInnerFormat::DepthComponent => true,
        TexImageInnerFormat::DepthComponent16 => true,
        TexImageInnerFormat::DepthComponent24 => true,
        TexImageInnerFormat::DepthComponent32F => true,
        _ => false,
    }
}

/// The combined depth+stencil internal formats.
pub open spec fn is_depth_stencil_inner(i: TexImageInnerFormat) -> bool {
    match i {
        TexImageInnerFormat::DepthStencil => true,
        TexImageInnerFormat::Depth24Stencil8 => true,
        TexImageInnerFormat::Depth32FStencil8 => true,
        _ => false,
    }
}

} // verus!
