use vstd::prelude::*;

use crate::formats::{
    is_depth_only_inner, is_packed_3, is_packed_4, TexImageDataFormat, TexImageDataType,
    TexImageInnerFormat,
};

verus! {

/// Legality of a transfer format / transfer type pair: three-channel packed
/// types pair only with the three-channel format, four-channel packed types
/// only with a four-channel format, and uniform scalar types with anything.
pub open spec fn format_type_ok(f: TexImageDataFormat, t: TexImageDataType) -> bool {
    if is_packed_3(t) {
        f is RGB
    } else if is_packed_4(t) {
        f is RGBA || f is BGRA
    } else {
        true
    }
}

/// Legality of an internal format / transfer format pair: a depth-only
/// internal format takes exactly the depth-only transfer format, and no
/// other internal format takes it.
pub open spec fn inner_format_ok(i: TexImageInnerFormat, f: TexImageDataFormat) -> bool {
    if is_depth_only_inner(i) {
        f is DepthComponent
    } else {
        !(f is DepthComponent)
    }
}

/// Checks a transfer format against a transfer type.
pub fn transfer_compatible(data_format: TexImageDataFormat, data_type: TexImageDataType) -> (r:
    bool)
    ensures
        r == format_type_ok(data_format, data_type),
{
    match data_type {
        | TexImageDataType::UnsignedByte_3_3_2
        | TexImageDataType::UnsignedByte_2_3_3_Rev
        | TexImageDataType::UnsignedShort_5_6_5
        | TexImageDataType::UnsignedShort_5_6_5_Rev => match data_format {
            TexImageDataFormat::RGB => true,
            _ => false,
        },
        | TexImageDataType::UnsignedShort_4_4_4_4
        | TexImageDataType::UnsignedShort_4_4_4_4_Rev
        | TexImageDataType::UnsignedShort_5_5_5_1
        | TexImageDataType::UnsignedShort_1_5_5_5_Rev
        | TexImageDataType::UnsignedInt_8_8_8_8
        | TexImageDataType::UnsignedInt_8_8_8_8_Rev
        | TexImageDataType::UnsignedInt_10_10_10_2
        | TexImageDataType::UnsignedInt_2_10_10_10_Rev => match data_format {
            TexImageDataFormat::RGBA | TexImageDataFormat::BGRA => true,
            _ => false,
        },
        _ => true,
    }
}

/// Checks an internal format against a transfer format.
pub fn inner_compatible(inner_format: TexImageInnerFormat, data_format: TexImageDataFormat) -> (r:
    bool)
    ensures
        r == inner_format_ok(inner_format, data_format),
{
    match inner_format {
        | TexImageInnerFormat::DepthComponent
        | TexImageInnerFormat::DepthComponent16
        | TexImageInnerFormat::DepthComponent24
        | TexImageInnerFormat::DepthComponent32F => match data_format {
            TexImageDataFormat::DepthComponent => true,
            _ => false,
        },
        _ => match data_format {
            TexImageDataFormat::DepthComponent => false,
            _ => true,
        },
    }
}

/// The combined pixel-transfer argument check that every upload runs: the
/// format/type pair is legal and the internal format agrees with the
/// transfer format.
pub fn util_datavalidation(
    inner_format: TexImageInnerFormat,
    data_format: TexImageDataFormat,
    data_type: TexImageDataType,
) -> (r: bool)
    ensures
        r == (format_type_ok(data_format, data_type) && inner_format_ok(inner_format, data_format)),
{
    let a = transfer_compatible(data_format, data_type);
    let b = inner_compatible(inner_format, data_format);
    a && b
}

/// Bytes each pixel sample occupies under a transfer format alone: the
/// per-pixel channel count, or `None` for formats outside the covered
/// enumeration.
pub open spec fn spec_channel_stride(f: TexImageDataFormat) -> Option<int> {
    match f {
        TexImageDataFormat::Red => Some(1),
        TexImageDataFormat::RG => Some(2),
        TexImageDataFormat::RGB => Some(3),
        TexImageDataFormat::BGR => Some(3),
        TexImageDataFormat::RGBA => Some(4),
        TexImageDataFormat::BGRA => Some(4),
        TexImageDataFormat::DepthComponent => Some(1),
        _ => None,
    }
}

/// Bytes each pixel sample occupies under a transfer format and type: the
/// channel stride times the per-component width for scalar types, a fixed
/// word width for packed types, or `None` where the combination is not
/// covered.
pub open spec fn spec_sample_size(f: TexImageDataFormat, t: TexImageDataType) -> Option<int> {
    match spec_channel_stride(f) {
        None => None,
        Some(stride) => match t {
            TexImageDataType::Byte => Some(stride),
            TexImageDataType::UnsignedByte => Some(stride),
            TexImageDataType::UnsignedByte_3_3_2 => Some(1),
            TexImageDataType::UnsignedByte_2_3_3_Rev => Some(1),
            TexImageDataType::Short => Some(stride * 2),
            TexImageDataType::UnsignedShort => Some(stride * 2),
            TexImageDataType::HalfFloat => Some(stride * 2),
            TexImageDataType::UnsignedShort_5_6_5 => Some(2),
            TexImageDataType::UnsignedShort_5_6_5_Rev => Some(2),
            TexImageDataType::UnsignedShort_4_4_4_4 => Some(2),
            TexImageDataType::UnsignedShort_4_4_4_4_Rev => Some(2),
            TexImageDataType::UnsignedShort_5_5_5_1 => Some(2),
            TexImageDataType::UnsignedShort_1_5_5_5_Rev => Some(2),
            TexImageDataType::Int => Some(stride * 4),
            TexImageDataType::UnsignedInt => Some(stride * 4),
            TexImageDataType::Float => Some(stride * 4),
            TexImageDataType::UnsignedInt_8_8_8_8 => Some(4),
            TexImageDataType::UnsignedInt_8_8_8_8_Rev => Some(4),
            TexImageDataType::UnsignedInt_10_10_10_2 => Some(4),
            TexImageDataType::UnsignedInt_2_10_10_10_Rev => Some(4),
        },
    }
}

/// Sufficiency of a source buffer: the per-sample byte size is known and the
/// size times the pixel count fits in the buffer. An uncovered combination
/// is conservatively insufficient.
pub open spec fn spec_buffer_ok(
    f: TexImageDataFormat,
    t: TexImageDataType,
    pixels: int,
    len: int,
) -> bool {
    match spec_sample_size(f, t) {
        Some(s) => s * pixels <= len,
        None => false,
    }
}

/// Every covered combination needs between one and sixteen bytes per pixel.
pub proof fn lemma_sample_size_bounds(f: TexImageDataFormat, t: TexImageDataType)
    ensures
        spec_sample_size(f, t) matches Some(s) ==> 1 <= s <= 16,
{
}

/// Computes the bytes each pixel sample needs under a transfer format and
/// type, or `None` where the combination is not covered.
pub fn util_samplesize(data_format: TexImageDataFormat, data_type: TexImageDataType) -> (r: Option<
    usize,
>)
    ensures
        r matches Some(s) ==> spec_sample_size(data_format, data_type) == Some(s as int),
        r is None ==> spec_sample_size(data_format, data_type) is None,
{
    let stride: usize = match data_format {
        TexImageDataFormat::Red => 1,
        TexImageDataFormat::RG => 2,
        TexImageDataFormat::RGB | TexImageDataFormat::BGR => 3,
        TexImageDataFormat::RGBA | TexImageDataFormat::BGRA => 4,
        TexImageDataFormat::DepthComponent => 1,
        _ => {
            return None;
        },
    };
    let size: usize = match data_type {
        TexImageDataType::Byte | TexImageDataType::UnsignedByte => stride * 1,
        TexImageDataType::UnsignedByte_3_3_2 | TexImageDataType::UnsignedByte_2_3_3_Rev => 1,
        | TexImageDataType::Short
        | TexImageDataType::UnsignedShort
        | TexImageDataType::HalfFloat => stride * 2,
        | TexImageDataType::UnsignedShort_5_6_5
        | TexImageDataType::UnsignedShort_5_6_5_Rev
        | TexImageDataType::UnsignedShort_4_4_4_4
        | TexImageDataType::UnsignedShort_4_4_4_4_Rev
        | TexImageDataType::UnsignedShort_5_5_5_1
        | TexImageDataType::UnsignedShort_1_5_5_5_Rev => 2,
        TexImageDataType::Int | TexImageDataType::UnsignedInt | TexImageDataType::Float => stride
            * 4,
        | TexImageDataType::UnsignedInt_8_8_8_8
        | TexImageDataType::UnsignedInt_8_8_8_8_Rev
        | TexImageDataType::UnsignedInt_10_10_10_2
        | TexImageDataType::UnsignedInt_2_10_10_10_Rev => 4,
    };
    Some(size)
}

/// A three-channel packed transfer type pairs with the three-channel RGB
/// transfer format and with no other.
pub proof fn lemma_packed3_rgb_only(f: TexImageDataFormat, t: TexImageDataType)
    requires
        is_packed_3(t),
    ensures
        format_type_ok(f, t) <==> f is RGB,
{
}

/// A four-channel packed transfer type pairs with the RGBA and BGRA
/// transfer formats and with no other.
pub proof fn lemma_packed4_four_channel_only(f: TexImageDataFormat, t: TexImageDataType)
    requires
        is_packed_4(t),
    ensures
        format_type_ok(f, t) <==> (f is RGBA || f is BGRA),
{
}

/// A uniform scalar transfer type pairs with every transfer format.
pub proof fn lemma_scalar_any_format(f: TexImageDataFormat, t: TexImageDataType)
    requires
        !is_packed_3(t),
        !is_packed_4(t),
    ensures
        format_type_ok(f, t),
{
}

/// A combination whose per-sample size is not covered never has a
/// sufficient buffer, whatever the pixel count and the buffer length.
pub proof fn lemma_uncovered_never_sufficient(
    f: TexImageDataFormat,
    t: TexImageDataType,
    pixels: int,
    len: int,
)
    requires
        spec_sample_size(f, t) is None,
    ensures
        !spec_buffer_ok(f, t, pixels, len),
{
}

/// Checks that a buffer of `buffer_len` bytes holds `pixel_count` samples of
/// `sample_size` bytes each; an unknown sample size is conservatively
/// insufficient.
pub fn buffer_sufficient(sample_size: Option<usize>, pixel_count: usize, buffer_len: usize) -> (r:
    bool)
    ensures
        r == (match sample_size {
            Some(s) => s as int * pixel_count as int <= buffer_len as int,
            None => false,
        }),
{
    match sample_size {
        Some(s) => match s.checked_mul(pixel_count) {
            Some(required) => required <= buffer_len,
            None => false,
        },
        None => false,
    }
}

} // verus!
