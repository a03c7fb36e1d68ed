//! Texture formats and their numbering in the C interface.
use vstd::prelude::*;

use crate::native;

verus! {

/// Block size of an ASTC compressed texture format.
#[derive(Clone, Copy, Debug, PartialEq, Eq, Structural)]
pub enum AstcBlock {
    B4x4,
    B5x4,
    B5x5,
    B6x5,
    B6x6,
    B8x5,
    B8x6,
    B8x8,
    B10x5,
    B10x6,
    B10x8,
    B10x10,
    B12x10,
    B12x12,
}

/// Channel interpretation of an ASTC compressed texture format.
#[derive(Clone, Copy, Debug, PartialEq, Eq, Structural)]
pub enum AstcChannel {
    Unorm,
    UnormSrgb,
    Hdr,
}

/// The texture formats of the graphics library.
#[derive(Clone, Copy, Debug, PartialEq, Eq, Structural)]
pub enum TextureFormat {
    R8Unorm,
    R8Snorm,
    R8Uint,
    R8Sint,
    R16Uint,
    R16Sint,
    R16Unorm,
    R16Snorm,
    R16Float,
    Rg8Unorm,
    Rg8Snorm,
    Rg8Uint,
    Rg8Sint,
    R32Uint,
    R32Sint,
    R32Float,
    Rg16Uint,
    Rg16Sint,
    Rg16Unorm,
    Rg16Snorm,
    Rg16Float,
    Rgba8Unorm,
    Rgba8UnormSrgb,
    Rgba8Snorm,
    Rgba8Uint,
    Rgba8Sint,
    Bgra8Unorm,
    Bgra8UnormSrgb,
    Rgb9e5Ufloat,
    Rgb10a2Uint,
    Rgb10a2Unorm,
    Rg11b10Ufloat,
    R64Uint,
    Rg32Uint,
    Rg32Sint,
    Rg32Float,
    Rgba16Uint,
    Rgba16Sint,
    Rgba16Unorm,
    Rgba16Snorm,
    Rgba16Float,
    Rgba32Uint,
    Rgba32Sint,
    Rgba32Float,
    Stencil8,
    Depth16Unorm,
    Depth24Plus,
    Depth24PlusStencil8,
    Depth24UnormStencil8,
    Depth32Float,
    Depth32FloatStencil8,
    NV12,
    P010,
    Bc1RgbaUnorm,
    Bc1RgbaUnormSrgb,
    Bc2RgbaUnorm,
    Bc2RgbaUnormSrgb,
    Bc3RgbaUnorm,
    Bc3RgbaUnormSrgb,
    Bc4RUnorm,
    Bc4RSnorm,
    Bc5RgUnorm,
    Bc5RgSnorm,
    Bc6hRgbUfloat,
    Bc6hRgbFloat,
    Bc7RgbaUnorm,
    Bc7RgbaUnormSrgb,
    Etc2Rgb8Unorm,
    Etc2Rgb8UnormSrgb,
    Etc2Rgb8A1Unorm,
    Etc2Rgb8A1UnormSrgb,
    Etc2Rgba8Unorm,
    Etc2Rgba8UnormSrgb,
    EacR11Unorm,
    EacR11Snorm,
    EacRg11Unorm,
    EacRg11Snorm,
    Astc { block: AstcBlock, channel: AstcChannel },
}

/// The C interface's number for a texture format, where the C interface has one that the
/// conversions support. Stencil8, Depth16Unorm and Bc6hRgbFloat have numbers in the header
/// but are not converted in either direction.
pub open spec fn texture_format_code(f: TextureFormat) -> Option<u32> {
    match f {
        TextureFormat::R8Unorm => Some(native::WGPUTextureFormat_R8Unorm),
        TextureFormat::R8Snorm => Some(native::WGPUTextureFormat_R8Snorm),
        TextureFormat::R8Uint => Some(native::WGPUTextureFormat_R8Uint),
        TextureFormat::R8Sint => Some(native::WGPUTextureFormat_R8Sint),
        TextureFormat::R16Uint => Some(native::WGPUTextureFormat_R16Uint),
        TextureFormat::R16Sint => Some(native::WGPUTextureFormat_R16Sint),
        TextureFormat::R16Float => Some(native::WGPUTextureFormat_R16Float),
        TextureFormat::Rg8Unorm => Some(native::WGPUTextureFormat_RG8Unorm),
        TextureFormat::Rg8Snorm => Some(native::WGPUTextureFormat_RG8Snorm),
        TextureFormat::Rg8Uint => Some(native::WGPUTextureFormat_RG8Uint),
        TextureFormat::Rg8Sint => Some(native::WGPUTextureFormat_RG8Sint),
        TextureFormat::R32Float => Some(native::WGPUTextureFormat_R32Float),
        TextureFormat::R32Uint => Some(native::WGPUTextureFormat_R32Uint),
        TextureFormat::R32Sint => Some(native::WGPUTextureFormat_R32Sint),
        TextureFormat::Rg16Uint => Some(native::WGPUTextureFormat_RG16Uint),
        TextureFormat::Rg16Sint => Some(native::WGPUTextureFormat_RG16Sint),
        TextureFormat::Rg16Float => Some(native::WGPUTextureFormat_RG16Float),
        TextureFormat::Rgba8Unorm => Some(native::WGPUTextureFormat_RGBA8Unorm),
        TextureFormat::Rgba8UnormSrgb => Some(native::WGPUTextureFormat_RGBA8UnormSrgb),
        TextureFormat::Rgba8Snorm => Some(native::WGPUTextureFormat_RGBA8Snorm),
        TextureFormat::Rgba8Uint => Some(native::WGPUTextureFormat_RGBA8Uint),
        TextureFormat::Rgba8Sint => Some(native::WGPUTextureFormat_RGBA8Sint),
        TextureFormat::Bgra8Unorm => Some(native::WGPUTextureFormat_BGRA8Unorm),
        TextureFormat::Bgra8UnormSrgb => Some(native::WGPUTextureFormat_BGRA8UnormSrgb),
        TextureFormat::Rgb10a2Unorm => Some(native::WGPUTextureFormat_RGB10A2Unorm),
        TextureFormat::Rg11b10Ufloat => Some(native::WGPUTextureFormat_RG11B10Ufloat),
        TextureFormat::Rgb9e5Ufloat => Some(native::WGPUTextureFormat_RGB9E5Ufloat),
        TextureFormat::Rg32Float => Some(native::WGPUTextureFormat_RG32Float),
        TextureFormat::R64Uint => Some(native::WGPUNativeTextureFormat_R64Uint),
        TextureFormat::Rg32Uint => Some(native::WGPUTextureFormat_RG32Uint),
        TextureFormat::Rg32Sint => Some(native::WGPUTextureFormat_RG32Sint),
        TextureFormat::Rgba16Uint => Some(native::WGPUTextureFormat_RGBA16Uint),
        TextureFormat::Rgba16Sint => Some(native::WGPUTextureFormat_RGBA16Sint),
        TextureFormat::Rgba16Float => Some(native::WGPUTextureFormat_RGBA16Float),
        TextureFormat::Rgba32Float => Some(native::WGPUTextureFormat_RGBA32Float),
        TextureFormat::Rgba32Uint => Some(native::WGPUTextureFormat_RGBA32Uint),
        TextureFormat::Rgba32Sint => Some(native::WGPUTextureFormat_RGBA32Sint),
        TextureFormat::Depth24Plus => Some(native::WGPUTextureFormat_Depth24Plus),
        TextureFormat::Depth24PlusStencil8 => Some(native::WGPUTextureFormat_Depth24PlusStencil8),
        TextureFormat::Depth24UnormStencil8 => Some(native::WGPUTextureFormat_Depth24UnormStencil8),
        TextureFormat::Depth32Float => Some(native::WGPUTextureFormat_Depth32Float),
        TextureFormat::Depth32FloatStencil8 => Some(native::WGPUTextureFormat_Depth32FloatStencil8),
        TextureFormat::Bc1RgbaUnorm => Some(native::WGPUTextureFormat_BC1RGBAUnorm),
        TextureFormat::Bc1RgbaUnormSrgb => Some(native::WGPUTextureFormat_BC1RGBAUnormSrgb),
        TextureFormat::Bc2RgbaUnorm => Some(native::WGPUTextureFormat_BC2RGBAUnorm),
        TextureFormat::Bc2RgbaUnormSrgb => Some(native::WGPUTextureFormat_BC2RGBAUnormSrgb),
        TextureFormat::Bc3RgbaUnorm => Some(native::WGPUTextureFormat_BC3RGBAUnorm),
        TextureFormat::Bc3RgbaUnormSrgb => Some(native::WGPUTextureFormat_BC3RGBAUnormSrgb),
        TextureFormat::Bc4RUnorm => Some(native::WGPUTextureFormat_BC4RUnorm),
        TextureFormat::Bc4RSnorm => Some(native::WGPUTextureFormat_BC4RSnorm),
        TextureFormat::Bc5RgUnorm => Some(native::WGPUTextureFormat_BC5RGUnorm),
        TextureFormat::Bc5RgSnorm => Some(native::WGPUTextureFormat_BC5RGSnorm),
        TextureFormat::Bc6hRgbUfloat => Some(native::WGPUTextureFormat_BC6HRGBUfloat),
        TextureFormat::Bc7RgbaUnorm => Some(native::WGPUTextureFormat_BC7RGBAUnorm),
        TextureFormat::Bc7RgbaUnormSrgb => Some(native::WGPUTextureFormat_BC7RGBAUnormSrgb),
        TextureFormat::Etc2Rgb8Unorm => Some(native::WGPUTextureFormat_ETC2RGB8Unorm),
        TextureFormat::Etc2Rgb8UnormSrgb => Some(native::WGPUTextureFormat_ETC2RGB8UnormSrgb),
        TextureFormat::Etc2Rgb8A1Unorm => Some(native::WGPUTextureFormat_ETC2RGB8A1Unorm),
        TextureFormat::Etc2Rgb8A1UnormSrgb => Some(native::WGPUTextureFormat_ETC2RGB8A1UnormSrgb),
        TextureFormat::Etc2Rgba8Unorm => Some(native::WGPUTextureFormat_ETC2RGBA8Unorm),
        TextureFormat::Etc2Rgba8UnormSrgb => Some(native::WGPUTextureFormat_ETC2RGBA8UnormSrgb),
        TextureFormat::EacR11Unorm => Some(native::WGPUTextureFormat_EACR11Unorm),
        TextureFormat::EacR11Snorm => Some(native::WGPUTextureFormat_EACR11Snorm),
        TextureFormat::EacRg11Unorm => Some(native::WGPUTextureFormat_EACRG11Unorm),
        TextureFormat::EacRg11Snorm => Some(native::WGPUTextureFormat_EACRG11Snorm),
        TextureFormat::Astc { block: AstcBlock::B4x4, channel: AstcChannel::Unorm } => Some(native::WGPUTextureFormat_ASTC4x4Unorm),
        TextureFormat::Astc { block: AstcBlock::B4x4, channel: AstcChannel::UnormSrgb } => Some(native::WGPUTextureFormat_ASTC4x4UnormSrgb),
        TextureFormat::Astc { block: AstcBlock::B5x4, channel: AstcChannel::Unorm } => Some(native::WGPUTextureFormat_ASTC5x4Unorm),
        TextureFormat::Astc { block: AstcBlock::B5x4, channel: AstcChannel::UnormSrgb } => Some(native::WGPUTextureFormat_ASTC5x4UnormSrgb),
        TextureFormat::Astc { block: AstcBlock::B5x5, channel: AstcChannel::Unorm } => Some(native::WGPUTextureFormat_ASTC5x5Unorm),
        TextureFormat::Astc { block: AstcBlock::B5x5, channel: AstcChannel::UnormSrgb } => Some(native::WGPUTextureFormat_ASTC5x5UnormSrgb),
        TextureFormat::Astc { block: AstcBlock::B6x5, channel: AstcChannel::Unorm } => Some(native::WGPUTextureFormat_ASTC6x5Unorm),
        TextureFormat::Astc { block: AstcBlock::B6x5, channel: AstcChannel::UnormSrgb } => Some(native::WGPUTextureFormat_ASTC6x5UnormSrgb),
        TextureFormat::Astc { block: AstcBlock::B6x6, channel: AstcChannel::Unorm } => Some(native::WGPUTextureFormat_ASTC6x6Unorm),
        TextureFormat::Astc { block: AstcBlock::B6x6, channel: AstcChannel::UnormSrgb } => Some(native::WGPUTextureFormat_ASTC6x6UnormSrgb),
        TextureFormat::Astc { block: AstcBlock::B8x5, channel: AstcChannel::Unorm } => Some(native::WGPUTextureFormat_ASTC8x5Unorm),
        TextureFormat::Astc { block: AstcBlock::B8x5, channel: AstcChannel::UnormSrgb } => Some(native::WGPUTextureFormat_ASTC8x5UnormSrgb),
        TextureFormat::Astc { block: AstcBlock::B8x6, channel: AstcChannel::Unorm } => Some(native::WGPUTextureFormat_ASTC8x6Unorm),
        TextureFormat::Astc { block: AstcBlock::B8x6, channel: AstcChannel::UnormSrgb } => Some(native::WGPUTextureFormat_ASTC8x6UnormSrgb),
        TextureFormat::Astc { block: AstcBlock::B8x8, channel: AstcChannel::Unorm } => Some(native::WGPUTextureFormat_ASTC8x8Unorm),
        TextureFormat::Astc { block: AstcBlock::B8x8, channel: AstcChannel::UnormSrgb } => Some(native::WGPUTextureFormat_ASTC8x8UnormSrgb),
        TextureFormat::Astc { block: AstcBlock::B10x5, channel: AstcChannel::Unorm } => Some(native::WGPUTextureFormat_ASTC10x5Unorm),
        TextureFormat::Astc { block: AstcBlock::B10x5, channel: AstcChannel::UnormSrgb } => Some(native::WGPUTextureFormat_ASTC10x5UnormSrgb),
        TextureFormat::Astc { block: AstcBlock::B10x6, channel: AstcChannel::Unorm } => Some(native::WGPUTextureFormat_ASTC10x6Unorm),
        TextureFormat::Astc { block: AstcBlock::B10x6, channel: AstcChannel::UnormSrgb } => Some(native::WGPUTextureFormat_ASTC10x6UnormSrgb),
        TextureFormat::Astc { block: AstcBlock::B10x8, channel: AstcChannel::Unorm } => Some(native::WGPUTextureFormat_ASTC10x8Unorm),
        TextureFormat::Astc { block: AstcBlock::B10x8, channel: AstcChannel::UnormSrgb } => Some(native::WGPUTextureFormat_ASTC10x8UnormSrgb),
        TextureFormat::Astc { block: AstcBlock::B10x10, channel: AstcChannel::Unorm } => Some(native::WGPUTextureFormat_ASTC10x10Unorm),
        TextureFormat::Astc { block: AstcBlock::B10x10, channel: AstcChannel::UnormSrgb } => Some(native::WGPUTextureFormat_ASTC10x10UnormSrgb),
        TextureFormat::Astc { block: AstcBlock::B12x10, channel: AstcChannel::Unorm } => Some(native::WGPUTextureFormat_ASTC12x10Unorm),
        TextureFormat::Astc { block: AstcBlock::B12x10, channel: AstcChannel::UnormSrgb } => Some(native::WGPUTextureFormat_ASTC12x10UnormSrgb),
        TextureFormat::Astc { block: AstcBlock::B12x12, channel: AstcChannel::Unorm } => Some(native::WGPUTextureFormat_ASTC12x12Unorm),
        TextureFormat::Astc { block: AstcBlock::B12x12, channel: AstcChannel::UnormSrgb } => Some(native::WGPUTextureFormat_ASTC12x12UnormSrgb),
        _ => None,
    }
}

/// The texture format that a C texture format number stands for, if any.
pub open spec fn texture_format_of_code(value: u32) -> Option<TextureFormat> {
    if exists|f: TextureFormat| texture_format_code(f) == Some(value) {
        Some(choose|f: TextureFormat| texture_format_code(f) == Some(value))
    } else {
        None
    }
}

/// No two texture formats share a C number.
pub proof fn lemma_texture_format_code_injective(f: TextureFormat, g: TextureFormat)
    requires
        texture_format_code(f) is Some,
        texture_format_code(f) == texture_format_code(g),
    ensures
        f == g,
{
}

/// Converting a texture format to its C number and back gives the same format.
pub proof fn texture_format_round_trip(f: TextureFormat)
    requires
        texture_format_code(f) is Some,
    ensures
        texture_format_of_code(texture_format_code(f)->0) == Some(f),
{
    let v = texture_format_code(f)->0;
    let g = choose|g: TextureFormat| texture_format_code(g) == Some(v);
    lemma_texture_format_code_injective(f, g);
}

/// Converting a C texture format number to a format and back gives the same number.
pub proof fn texture_format_code_round_trip(value: u32)
    requires
        texture_format_of_code(value) is Some,
    ensures
        texture_format_code(texture_format_of_code(value)->0) == Some(value),
{
}

/// Converts a C texture format number to a texture format.
///
/// The result is `Some(f)` exactly when `f` is the format whose number is `value`,
/// and `None` when no converted format has that number.
pub fn map_texture_format(value: u32) -> (r: Option<TextureFormat>)
    ensures
        r == texture_format_of_code(value),
        forall|f: TextureFormat| (r == Some(f)) <==> texture_format_code(f) == Some(value),
{
    proof {
        assert forall|f: TextureFormat, g: TextureFormat|
            texture_format_code(f) is Some && texture_format_code(f) == texture_format_code(g)
            implies f == g by {
            lemma_texture_format_code_injective(f, g);
        }
    }
    let r = match value {
        native::WGPUTextureFormat_R8Unorm => Some(TextureFormat::R8Unorm),
        native::WGPUTextureFormat_R8Snorm => Some(TextureFormat::R8Snorm),
        native::WGPUTextureFormat_R8Uint => Some(TextureFormat::R8Uint),
        native::WGPUTextureFormat_R8Sint => Some(TextureFormat::R8Sint),
        native::WGPUTextureFormat_R16Uint => Some(TextureFormat::R16Uint),
        native::WGPUTextureFormat_R16Sint => Some(TextureFormat::R16Sint),
        native::WGPUTextureFormat_R16Float => Some(TextureFormat::R16Float),
        native::WGPUTextureFormat_RG8Unorm => Some(TextureFormat::Rg8Unorm),
        native::WGPUTextureFormat_RG8Snorm => Some(TextureFormat::Rg8Snorm),
        native::WGPUTextureFormat_RG8Uint => Some(TextureFormat::Rg8Uint),
        native::WGPUTextureFormat_RG8Sint => Some(TextureFormat::Rg8Sint),
        native::WGPUTextureFormat_R32Float => Some(TextureFormat::R32Float),
        native::WGPUTextureFormat_R32Uint => Some(TextureFormat::R32Uint),
        native::WGPUTextureFormat_R32Sint => Some(TextureFormat::R32Sint),
        native::WGPUTextureFormat_RG16Uint => Some(TextureFormat::Rg16Uint),
        native::WGPUTextureFormat_RG16Sint => Some(TextureFormat::Rg16Sint),
        native::WGPUTextureFormat_RG16Float => Some(TextureFormat::Rg16Float),
        native::WGPUTextureFormat_RGBA8Unorm => Some(TextureFormat::Rgba8Unorm),
        native::WGPUTextureFormat_RGBA8UnormSrgb => Some(TextureFormat::Rgba8UnormSrgb),
        native::WGPUTextureFormat_RGBA8Snorm => Some(TextureFormat::Rgba8Snorm),
        native::WGPUTextureFormat_RGBA8Uint => Some(TextureFormat::Rgba8Uint),
        native::WGPUTextureFormat_RGBA8Sint => Some(TextureFormat::Rgba8Sint),
        native::WGPUTextureFormat_BGRA8Unorm => Some(TextureFormat::Bgra8Unorm),
        native::WGPUTextureFormat_BGRA8UnormSrgb => Some(TextureFormat::Bgra8UnormSrgb),
        native::WGPUTextureFormat_RGB10A2Unorm => Some(TextureFormat::Rgb10a2Unorm),
        native::WGPUTextureFormat_RG11B10Ufloat => Some(TextureFormat::Rg11b10Ufloat),
        native::WGPUTextureFormat_RGB9E5Ufloat => Some(TextureFormat::Rgb9e5Ufloat),
        native::WGPUTextureFormat_RG32Float => Some(TextureFormat::Rg32Float),
        native::WGPUNativeTextureFormat_R64Uint => Some(TextureFormat::R64Uint),
        native::WGPUTextureFormat_RG32Uint => Some(TextureFormat::Rg32Uint),
        native::WGPUTextureFormat_RG32Sint => Some(TextureFormat::Rg32Sint),
        native::WGPUTextureFormat_RGBA16Uint => Some(TextureFormat::Rgba16Uint),
        native::WGPUTextureFormat_RGBA16Sint => Some(TextureFormat::Rgba16Sint),
        native::WGPUTextureFormat_RGBA16Float => Some(TextureFormat::Rgba16Float),
        native::WGPUTextureFormat_RGBA32Float => Some(TextureFormat::Rgba32Float),
        native::WGPUTextureFormat_RGBA32Uint => Some(TextureFormat::Rgba32Uint),
        native::WGPUTextureFormat_RGBA32Sint => Some(TextureFormat::Rgba32Sint),
        native::WGPUTextureFormat_Depth24Plus => Some(TextureFormat::Depth24Plus),
        native::WGPUTextureFormat_Depth24PlusStencil8 => Some(TextureFormat::Depth24PlusStencil8),
        native::WGPUTextureFormat_Depth24UnormStencil8 => Some(TextureFormat::Depth24UnormStencil8),
        native::WGPUTextureFormat_Depth32Float => Some(TextureFormat::Depth32Float),
        native::WGPUTextureFormat_Depth32FloatStencil8 => Some(TextureFormat::Depth32FloatStencil8),
        native::WGPUTextureFormat_BC1RGBAUnorm => Some(TextureFormat::Bc1RgbaUnorm),
        native::WGPUTextureFormat_BC1RGBAUnormSrgb => Some(TextureFormat::Bc1RgbaUnormSrgb),
        native::WGPUTextureFormat_BC2RGBAUnorm => Some(TextureFormat::Bc2RgbaUnorm),
        native::WGPUTextureFormat_BC2RGBAUnormSrgb => Some(TextureFormat::Bc2RgbaUnormSrgb),
        native::WGPUTextureFormat_BC3RGBAUnorm => Some(TextureFormat::Bc3RgbaUnorm),
        native::WGPUTextureFormat_BC3RGBAUnormSrgb => Some(TextureFormat::Bc3RgbaUnormSrgb),
        native::WGPUTextureFormat_BC4RUnorm => Some(TextureFormat::Bc4RUnorm),
        native::WGPUTextureFormat_BC4RSnorm => Some(TextureFormat::Bc4RSnorm),
        native::WGPUTextureFormat_BC5RGUnorm => Some(TextureFormat::Bc5RgUnorm),
        native::WGPUTextureFormat_BC5RGSnorm => Some(TextureFormat::Bc5RgSnorm),
        native::WGPUTextureFormat_BC6HRGBUfloat => Some(TextureFormat::Bc6hRgbUfloat),
        native::WGPUTextureFormat_BC7RGBAUnorm => Some(TextureFormat::Bc7RgbaUnorm),
        native::WGPUTextureFormat_BC7RGBAUnormSrgb => Some(TextureFormat::Bc7RgbaUnormSrgb),
        native::WGPUTextureFormat_ETC2RGB8Unorm => Some(TextureFormat::Etc2Rgb8Unorm),
        native::WGPUTextureFormat_ETC2RGB8UnormSrgb => Some(TextureFormat::Etc2Rgb8UnormSrgb),
        native::WGPUTextureFormat_ETC2RGB8A1Unorm => Some(TextureFormat::Etc2Rgb8A1Unorm),
        native::WGPUTextureFormat_ETC2RGB8A1UnormSrgb => Some(TextureFormat::Etc2Rgb8A1UnormSrgb),
        native::WGPUTextureFormat_ETC2RGBA8Unorm => Some(TextureFormat::Etc2Rgba8Unorm),
        native::WGPUTextureFormat_ETC2RGBA8UnormSrgb => Some(TextureFormat::Etc2Rgba8UnormSrgb),
        native::WGPUTextureFormat_EACR11Unorm => Some(TextureFormat::EacR11Unorm),
        native::WGPUTextureFormat_EACR11Snorm => Some(TextureFormat::EacR11Snorm),
        native::WGPUTextureFormat_EACRG11Unorm => Some(TextureFormat::EacRg11Unorm),
        native::WGPUTextureFormat_EACRG11Snorm => Some(TextureFormat::EacRg11Snorm),
        native::WGPUTextureFormat_ASTC4x4Unorm => Some(TextureFormat::Astc { block: AstcBlock::B4x4, channel: AstcChannel::Unorm }),
        native::WGPUTextureFormat_ASTC4x4UnormSrgb => Some(TextureFormat::Astc { block: AstcBlock::B4x4, channel: AstcChannel::UnormSrgb }),
        native::WGPUTextureFormat_ASTC5x4Unorm => Some(TextureFormat::Astc { block: AstcBlock::B5x4, channel: AstcChannel::Unorm }),
        native::WGPUTextureFormat_ASTC5x4UnormSrgb => Some(TextureFormat::Astc { block: AstcBlock::B5x4, channel: AstcChannel::UnormSrgb }),
        native::WGPUTextureFormat_ASTC5x5Unorm => Some(TextureFormat::Astc { block: AstcBlock::B5x5, channel: AstcChannel::Unorm }),
        native::WGPUTextureFormat_ASTC5x5UnormSrgb => Some(TextureFormat::Astc { block: AstcBlock::B5x5, channel: AstcChannel::UnormSrgb }),
        native::WGPUTextureFormat_ASTC6x5Unorm => Some(TextureFormat::Astc { block: AstcBlock::B6x5, channel: AstcChannel::Unorm }),
        native::WGPUTextureFormat_ASTC6x5UnormSrgb => Some(TextureFormat::Astc { block: AstcBlock::B6x5, channel: AstcChannel::UnormSrgb }),
        native::WGPUTextureFormat_ASTC6x6Unorm => Some(TextureFormat::Astc { block: AstcBlock::B6x6, channel: AstcChannel::Unorm }),
        native::WGPUTextureFormat_ASTC6x6UnormSrgb => Some(TextureFormat::Astc { block: AstcBlock::B6x6, channel: AstcChannel::UnormSrgb }),
        native::WGPUTextureFormat_ASTC8x5Unorm => Some(TextureFormat::Astc { block: AstcBlock::B8x5, channel: AstcChannel::Unorm }),
        native::WGPUTextureFormat_ASTC8x5UnormSrgb => Some(TextureFormat::Astc { block: AstcBlock::B8x5, channel: AstcChannel::UnormSrgb }),
        native::WGPUTextureFormat_ASTC8x6Unorm => Some(TextureFormat::Astc { block: AstcBlock::B8x6, channel: AstcChannel::Unorm }),
        native::WGPUTextureFormat_ASTC8x6UnormSrgb => Some(TextureFormat::Astc { block: AstcBlock::B8x6, channel: AstcChannel::UnormSrgb }),
        native::WGPUTextureFormat_ASTC8x8Unorm => Some(TextureFormat::Astc { block: AstcBlock::B8x8, channel: AstcChannel::Unorm }),
        native::WGPUTextureFormat_ASTC8x8UnormSrgb => Some(TextureFormat::Astc { block: AstcBlock::B8x8, channel: AstcChannel::UnormSrgb }),
        native::WGPUTextureFormat_ASTC10x5Unorm => Some(TextureFormat::Astc { block: AstcBlock::B10x5, channel: AstcChannel::Unorm }),
        native::WGPUTextureFormat_ASTC10x5UnormSrgb => Some(TextureFormat::Astc { block: AstcBlock::B10x5, channel: AstcChannel::UnormSrgb }),
        native::WGPUTextureFormat_ASTC10x6Unorm => Some(TextureFormat::Astc { block: AstcBlock::B10x6, channel: AstcChannel::Unorm }),
        native::WGPUTextureFormat_ASTC10x6UnormSrgb => Some(TextureFormat::Astc { block: AstcBlock::B10x6, channel: AstcChannel::UnormSrgb }),
        native::WGPUTextureFormat_ASTC10x8Unorm => Some(TextureFormat::Astc { block: AstcBlock::B10x8, channel: AstcChannel::Unorm }),
        native::WGPUTextureFormat_ASTC10x8UnormSrgb => Some(TextureFormat::Astc { block: AstcBlock::B10x8, channel: AstcChannel::UnormSrgb }),
        native::WGPUTextureFormat_ASTC10x10Unorm => Some(TextureFormat::Astc { block: AstcBlock::B10x10, channel: AstcChannel::Unorm }),
        native::WGPUTextureFormat_ASTC10x10UnormSrgb => Some(TextureFormat::Astc { block: AstcBlock::B10x10, channel: AstcChannel::UnormSrgb }),
        native::WGPUTextureFormat_ASTC12x10Unorm => Some(TextureFormat::Astc { block: AstcBlock::B12x10, channel: AstcChannel::Unorm }),
        native::WGPUTextureFormat_ASTC12x10UnormSrgb => Some(TextureFormat::Astc { block: AstcBlock::B12x10, channel: AstcChannel::UnormSrgb }),
        native::WGPUTextureFormat_ASTC12x12Unorm => Some(TextureFormat::Astc { block: AstcBlock::B12x12, channel: AstcChannel::Unorm }),
        native::WGPUTextureFormat_ASTC12x12UnormSrgb => Some(TextureFormat::Astc { block: AstcBlock::B12x12, channel: AstcChannel::UnormSrgb }),
        _ => None,
    };
    proof {
        if let Some(f) = r {
            assert(texture_format_code(f) == Some(value));
        } else {
            assert(forall|f: TextureFormat| texture_format_code(f) != Some(value));
        }
    }
    r
}

/// Converts a texture format to its C number, if the C interface has one for it.
pub fn to_native_texture_format(format: TextureFormat) -> (r: Option<u32>)
    ensures
        r == texture_format_code(format),
{
    match format {
        TextureFormat::R8Unorm => Some(native::WGPUTextureFormat_R8Unorm),
        TextureFormat::R8Snorm => Some(native::WGPUTextureFormat_R8Snorm),
        TextureFormat::R8Uint => Some(native::WGPUTextureFormat_R8Uint),
        TextureFormat::R8Sint => Some(native::WGPUTextureFormat_R8Sint),
        TextureFormat::R16Uint => Some(native::WGPUTextureFormat_R16Uint),
        TextureFormat::R16Sint => Some(native::WGPUTextureFormat_R16Sint),
        TextureFormat::R16Float => Some(native::WGPUTextureFormat_R16Float),
        TextureFormat::Rg8Unorm => Some(native::WGPUTextureFormat_RG8Unorm),
        TextureFormat::Rg8Snorm => Some(native::WGPUTextureFormat_RG8Snorm),
        TextureFormat::Rg8Uint => Some(native::WGPUTextureFormat_RG8Uint),
        TextureFormat::Rg8Sint => Some(native::WGPUTextureFormat_RG8Sint),
        TextureFormat::R32Float => Some(native::WGPUTextureFormat_R32Float),
        TextureFormat::R32Uint => Some(native::WGPUTextureFormat_R32Uint),
        TextureFormat::R32Sint => Some(native::WGPUTextureFormat_R32Sint),
        TextureFormat::Rg16Uint => Some(native::WGPUTextureFormat_RG16Uint),
        TextureFormat::Rg16Sint => Some(native::WGPUTextureFormat_RG16Sint),
        TextureFormat::Rg16Float => Some(native::WGPUTextureFormat_RG16Float),
        TextureFormat::Rgba8Unorm => Some(native::WGPUTextureFormat_RGBA8Unorm),
        TextureFormat::Rgba8UnormSrgb => Some(native::WGPUTextureFormat_RGBA8UnormSrgb),
        TextureFormat::Rgba8Snorm => Some(native::WGPUTextureFormat_RGBA8Snorm),
        TextureFormat::Rgba8Uint => Some(native::WGPUTextureFormat_RGBA8Uint),
        TextureFormat::Rgba8Sint => Some(native::WGPUTextureFormat_RGBA8Sint),
        TextureFormat::Bgra8Unorm => Some(native::WGPUTextureFormat_BGRA8Unorm),
        TextureFormat::Bgra8UnormSrgb => Some(native::WGPUTextureFormat_BGRA8UnormSrgb),
        TextureFormat::Rgb10a2Unorm => Some(native::WGPUTextureFormat_RGB10A2Unorm),
        TextureFormat::Rg11b10Ufloat => Some(native::WGPUTextureFormat_RG11B10Ufloat),
        TextureFormat::Rgb9e5Ufloat => Some(native::WGPUTextureFormat_RGB9E5Ufloat),
        TextureFormat::Rg32Float => Some(native::WGPUTextureFormat_RG32Float),
        TextureFormat::R64Uint => Some(native::WGPUNativeTextureFormat_R64Uint),
        TextureFormat::Rg32Uint => Some(native::WGPUTextureFormat_RG32Uint),
        TextureFormat::Rg32Sint => Some(native::WGPUTextureFormat_RG32Sint),
        TextureFormat::Rgba16Uint => Some(native::WGPUTextureFormat_RGBA16Uint),
        TextureFormat::Rgba16Sint => Some(native::WGPUTextureFormat_RGBA16Sint),
        TextureFormat::Rgba16Float => Some(native::WGPUTextureFormat_RGBA16Float),
        TextureFormat::Rgba32Float => Some(native::WGPUTextureFormat_RGBA32Float),
        TextureFormat::Rgba32Uint => Some(native::WGPUTextureFormat_RGBA32Uint),
        TextureFormat::Rgba32Sint => Some(native::WGPUTextureFormat_RGBA32Sint),
        TextureFormat::Depth24Plus => Some(native::WGPUTextureFormat_Depth24Plus),
        TextureFormat::Depth24PlusStencil8 => Some(native::WGPUTextureFormat_Depth24PlusStencil8),
        TextureFormat::Depth24UnormStencil8 => Some(native::WGPUTextureFormat_Depth24UnormStencil8),
        TextureFormat::Depth32Float => Some(native::WGPUTextureFormat_Depth32Float),
        TextureFormat::Depth32FloatStencil8 => Some(native::WGPUTextureFormat_Depth32FloatStencil8),
        TextureFormat::Bc1RgbaUnorm => Some(native::WGPUTextureFormat_BC1RGBAUnorm),
        TextureFormat::Bc1RgbaUnormSrgb => Some(native::WGPUTextureFormat_BC1RGBAUnormSrgb),
        TextureFormat::Bc2RgbaUnorm => Some(native::WGPUTextureFormat_BC2RGBAUnorm),
        TextureFormat::Bc2RgbaUnormSrgb => Some(native::WGPUTextureFormat_BC2RGBAUnormSrgb),
        TextureFormat::Bc3RgbaUnorm => Some(native::WGPUTextureFormat_BC3RGBAUnorm),
        TextureFormat::Bc3RgbaUnormSrgb => Some(native::WGPUTextureFormat_BC3RGBAUnormSrgb),
        TextureFormat::Bc4RUnorm => Some(native::WGPUTextureFormat_BC4RUnorm),
        TextureFormat::Bc4RSnorm => Some(native::WGPUTextureFormat_BC4RSnorm),
        TextureFormat::Bc5RgUnorm => Some(native::WGPUTextureFormat_BC5RGUnorm),
        TextureFormat::Bc5RgSnorm => Some(native::WGPUTextureFormat_BC5RGSnorm),
        TextureFormat::Bc6hRgbUfloat => Some(native::WGPUTextureFormat_BC6HRGBUfloat),
        TextureFormat::Bc7RgbaUnorm => Some(native::WGPUTextureFormat_BC7RGBAUnorm),
        TextureFormat::Bc7RgbaUnormSrgb => Some(native::WGPUTextureFormat_BC7RGBAUnormSrgb),
        TextureFormat::Etc2Rgb8Unorm => Some(native::WGPUTextureFormat_ETC2RGB8Unorm),
        TextureFormat::Etc2Rgb8UnormSrgb => Some(native::WGPUTextureFormat_ETC2RGB8UnormSrgb),
        TextureFormat::Etc2Rgb8A1Unorm => Some(native::WGPUTextureFormat_ETC2RGB8A1Unorm),
        TextureFormat::Etc2Rgb8A1UnormSrgb => Some(native::WGPUTextureFormat_ETC2RGB8A1UnormSrgb),
        TextureFormat::Etc2Rgba8Unorm => Some(native::WGPUTextureFormat_ETC2RGBA8Unorm),
        TextureFormat::Etc2Rgba8UnormSrgb => Some(native::WGPUTextureFormat_ETC2RGBA8UnormSrgb),
        TextureFormat::EacR11Unorm => Some(native::WGPUTextureFormat_EACR11Unorm),
        TextureFormat::EacR11Snorm => Some(native::WGPUTextureFormat_EACR11Snorm),
        TextureFormat::EacRg11Unorm => Some(native::WGPUTextureFormat_EACRG11Unorm),
        TextureFormat::EacRg11Snorm => Some(native::WGPUTextureFormat_EACRG11Snorm),
        TextureFormat::Astc { block: AstcBlock::B4x4, channel: AstcChannel::Unorm } => Some(native::WGPUTextureFormat_ASTC4x4Unorm),
        TextureFormat::Astc { block: AstcBlock::B4x4, channel: AstcChannel::UnormSrgb } => Some(native::WGPUTextureFormat_ASTC4x4UnormSrgb),
        TextureFormat::Astc { block: AstcBlock::B5x4, channel: AstcChannel::Unorm } => Some(native::WGPUTextureFormat_ASTC5x4Unorm),
        TextureFormat::Astc { block: AstcBlock::B5x4, channel: AstcChannel::UnormSrgb } => Some(native::WGPUTextureFormat_ASTC5x4UnormSrgb),
        TextureFormat::Astc { block: AstcBlock::B5x5, channel: AstcChannel::Unorm } => Some(native::WGPUTextureFormat_ASTC5x5Unorm),
        TextureFormat::Astc { block: AstcBlock::B5x5, channel: AstcChannel::UnormSrgb } => Some(native::WGPUTextureFormat_ASTC5x5UnormSrgb),
        TextureFormat::Astc { block: AstcBlock::B6x5, channel: AstcChannel::Unorm } => Some(native::WGPUTextureFormat_ASTC6x5Unorm),
        TextureFormat::Astc { block: AstcBlock::B6x5, channel: AstcChannel::UnormSrgb } => Some(native::WGPUTextureFormat_ASTC6x5UnormSrgb),
        TextureFormat::Astc { block: AstcBlock::B6x6, channel: AstcChannel::Unorm } => Some(native::WGPUTextureFormat_ASTC6x6Unorm),
        TextureFormat::Astc { block: AstcBlock::B6x6, channel: AstcChannel::UnormSrgb } => Some(native::WGPUTextureFormat_ASTC6x6UnormSrgb),
        TextureFormat::Astc { block: AstcBlock::B8x5, channel: AstcChannel::Unorm } => Some(native::WGPUTextureFormat_ASTC8x5Unorm),
        TextureFormat::Astc { block: AstcBlock::B8x5, channel: AstcChannel::UnormSrgb } => Some(native::WGPUTextureFormat_ASTC8x5UnormSrgb),
        TextureFormat::Astc { block: AstcBlock::B8x6, channel: AstcChannel::Unorm } => Some(native::WGPUTextureFormat_ASTC8x6Unorm),
        TextureFormat::Astc { block: AstcBlock::B8x6, channel: AstcChannel::UnormSrgb } => Some(native::WGPUTextureFormat_ASTC8x6UnormSrgb),
        TextureFormat::Astc { block: AstcBlock::B8x8, channel: AstcChannel::Unorm } => Some(native::WGPUTextureFormat_ASTC8x8Unorm),
        TextureFormat::Astc { block: AstcBlock::B8x8, channel: AstcChannel::UnormSrgb } => Some(native::WGPUTextureFormat_ASTC8x8UnormSrgb),
        TextureFormat::Astc { block: AstcBlock::B10x5, channel: AstcChannel::Unorm } => Some(native::WGPUTextureFormat_ASTC10x5Unorm),
        TextureFormat::Astc { block: AstcBlock::B10x5, channel: AstcChannel::UnormSrgb } => Some(native::WGPUTextureFormat_ASTC10x5UnormSrgb),
        TextureFormat::Astc { block: AstcBlock::B10x6, channel: AstcChannel::Unorm } => Some(native::WGPUTextureFormat_ASTC10x6Unorm),
        TextureFormat::Astc { block: AstcBlock::B10x6, channel: AstcChannel::UnormSrgb } => Some(native::WGPUTextureFormat_ASTC10x6UnormSrgb),
        TextureFormat::Astc { block: AstcBlock::B10x8, channel: AstcChannel::Unorm } => Some(native::WGPUTextureFormat_ASTC10x8Unorm),
        TextureFormat::Astc { block: AstcBlock::B10x8, channel: AstcChannel::UnormSrgb } => Some(native::WGPUTextureFormat_ASTC10x8UnormSrgb),
        TextureFormat::Astc { block: AstcBlock::B10x10, channel: AstcChannel::Unorm } => Some(native::WGPUTextureFormat_ASTC10x10Unorm),
        TextureFormat::Astc { block: AstcBlock::B10x10, channel: AstcChannel::UnormSrgb } => Some(native::WGPUTextureFormat_ASTC10x10UnormSrgb),
        TextureFormat::Astc { block: AstcBlock::B12x10, channel: AstcChannel::Unorm } => Some(native::WGPUTextureFormat_ASTC12x10Unorm),
        TextureFormat::Astc { block: AstcBlock::B12x10, channel: AstcChannel::UnormSrgb } => Some(native::WGPUTextureFormat_ASTC12x10UnormSrgb),
        TextureFormat::Astc { block: AstcBlock::B12x12, channel: AstcChannel::Unorm } => Some(native::WGPUTextureFormat_ASTC12x12Unorm),
        TextureFormat::Astc { block: AstcBlock::B12x12, channel: AstcChannel::UnormSrgb } => Some(native::WGPUTextureFormat_ASTC12x12UnormSrgb),
        _ => None,
    }
}

/// Each texture format that the conversions support is numbered by the header constant of the
/// same name; Stencil8, Depth16Unorm, Bc6hRgbFloat, Rgb10a2Uint, the 16-bit normalized formats,
/// the video formats and the HDR ASTC formats have no number.
pub proof fn texture_format_numbers_are_the_header_constants()
    ensures
        texture_format_code(TextureFormat::R8Unorm) == Some(native::WGPUTextureFormat_R8Unorm),
        texture_format_code(TextureFormat::R8Snorm) == Some(native::WGPUTextureFormat_R8Snorm),
        texture_format_code(TextureFormat::R8Uint) == Some(native::WGPUTextureFormat_R8Uint),
        texture_format_code(TextureFormat::R8Sint) == Some(native::WGPUTextureFormat_R8Sint),
        texture_format_code(TextureFormat::R16Uint) == Some(native::WGPUTextureFormat_R16Uint),
        texture_format_code(TextureFormat::R16Sint) == Some(native::WGPUTextureFormat_R16Sint),
        texture_format_code(TextureFormat::R16Unorm) is None,
        texture_format_code(TextureFormat::R16Snorm) is None,
        texture_format_code(TextureFormat::R16Float) == Some(native::WGPUTextureFormat_R16Float),
        texture_format_code(TextureFormat::Rg8Unorm) == Some(native::WGPUTextureFormat_RG8Unorm),
        texture_format_code(TextureFormat::Rg8Snorm) == Some(native::WGPUTextureFormat_RG8Snorm),
        texture_format_code(TextureFormat::Rg8Uint) == Some(native::WGPUTextureFormat_RG8Uint),
        texture_format_code(TextureFormat::Rg8Sint) == Some(native::WGPUTextureFormat_RG8Sint),
        texture_format_code(TextureFormat::R32Uint) == Some(native::WGPUTextureFormat_R32Uint),
        texture_format_code(TextureFormat::R32Sint) == Some(native::WGPUTextureFormat_R32Sint),
        texture_format_code(TextureFormat::R32Float) == Some(native::WGPUTextureFormat_R32Float),
        texture_format_code(TextureFormat::Rg16Uint) == Some(native::WGPUTextureFormat_RG16Uint),
        texture_format_code(TextureFormat::Rg16Sint) == Some(native::WGPUTextureFormat_RG16Sint),
        texture_format_code(TextureFormat::Rg16Unorm) is None,
        texture_format_code(TextureFormat::Rg16Snorm) is None,
        texture_format_code(TextureFormat::Rg16Float) == Some(native::WGPUTextureFormat_RG16Float),
        texture_format_code(TextureFormat::Rgba8Unorm) == Some(native::WGPUTextureFormat_RGBA8Unorm),
        texture_format_code(TextureFormat::Rgba8UnormSrgb) == Some(native::WGPUTextureFormat_RGBA8UnormSrgb),
        texture_format_code(TextureFormat::Rgba8Snorm) == Some(native::WGPUTextureFormat_RGBA8Snorm),
        texture_format_code(TextureFormat::Rgba8Uint) == Some(native::WGPUTextureFormat_RGBA8Uint),
        texture_format_code(TextureFormat::Rgba8Sint) == Some(native::WGPUTextureFormat_RGBA8Sint),
        texture_format_code(TextureFormat::Bgra8Unorm) == Some(native::WGPUTextureFormat_BGRA8Unorm),
        texture_format_code(TextureFormat::Bgra8UnormSrgb) == Some(native::WGPUTextureFormat_BGRA8UnormSrgb),
        texture_format_code(TextureFormat::Rgb9e5Ufloat) == Some(native::WGPUTextureFormat_RGB9E5Ufloat),
        texture_format_code(TextureFormat::Rgb10a2Uint) is None,
        texture_format_code(TextureFormat::Rgb10a2Unorm) == Some(native::WGPUTextureFormat_RGB10A2Unorm),
        texture_format_code(TextureFormat::Rg11b10Ufloat) == Some(native::WGPUTextureFormat_RG11B10Ufloat),
        texture_format_code(TextureFormat::R64Uint) == Some(native::WGPUNativeTextureFormat_R64Uint),
        texture_format_code(TextureFormat::Rg32Uint) == Some(native::WGPUTextureFormat_RG32Uint),
        texture_format_code(TextureFormat::Rg32Sint) == Some(native::WGPUTextureFormat_RG32Sint),
        texture_format_code(TextureFormat::Rg32Float) == Some(native::WGPUTextureFormat_RG32Float),
        texture_format_code(TextureFormat::Rgba16Uint) == Some(native::WGPUTextureFormat_RGBA16Uint),
        texture_format_code(TextureFormat::Rgba16Sint) == Some(native::WGPUTextureFormat_RGBA16Sint),
        texture_format_code(TextureFormat::Rgba16Unorm) is None,
        texture_format_code(TextureFormat::Rgba16Snorm) is None,
        texture_format_code(TextureFormat::Rgba16Float) == Some(native::WGPUTextureFormat_RGBA16Float),
        texture_format_code(TextureFormat::Rgba32Uint) == Some(native::WGPUTextureFormat_RGBA32Uint),
        texture_format_code(TextureFormat::Rgba32Sint) == Some(native::WGPUTextureFormat_RGBA32Sint),
        texture_format_code(TextureFormat::Rgba32Float) == Some(native::WGPUTextureFormat_RGBA32Float),
        texture_format_code(TextureFormat::Stencil8) is None,
        texture_format_code(TextureFormat::Depth16Unorm) is None,
        texture_format_code(TextureFormat::Depth24Plus) == Some(native::WGPUTextureFormat_Depth24Plus),
        texture_format_code(TextureFormat::Depth24PlusStencil8) == Some(native::WGPUTextureFormat_Depth24PlusStencil8),
        texture_format_code(TextureFormat::Depth24UnormStencil8) == Some(native::WGPUTextureFormat_Depth24UnormStencil8),
        texture_format_code(TextureFormat::Depth32Float) == Some(native::WGPUTextureFormat_Depth32Float),
        texture_format_code(TextureFormat::Depth32FloatStencil8) == Some(native::WGPUTextureFormat_Depth32FloatStencil8),
        texture_format_code(TextureFormat::NV12) is None,
        texture_format_code(TextureFormat::P010) is None,
        texture_format_code(TextureFormat::Bc1RgbaUnorm) == Some(native::WGPUTextureFormat_BC1RGBAUnorm),
        texture_format_code(TextureFormat::Bc1RgbaUnormSrgb) == Some(native::WGPUTextureFormat_BC1RGBAUnormSrgb),
        texture_format_code(TextureFormat::Bc2RgbaUnorm) == Some(native::WGPUTextureFormat_BC2RGBAUnorm),
        texture_format_code(TextureFormat::Bc2RgbaUnormSrgb) == Some(native::WGPUTextureFormat_BC2RGBAUnormSrgb),
        texture_format_code(TextureFormat::Bc3RgbaUnorm) == Some(native::WGPUTextureFormat_BC3RGBAUnorm),
        texture_format_code(TextureFormat::Bc3RgbaUnormSrgb) == Some(native::WGPUTextureFormat_BC3RGBAUnormSrgb),
        texture_format_code(TextureFormat::Bc4RUnorm) == Some(native::WGPUTextureFormat_BC4RUnorm),
        texture_format_code(TextureFormat::Bc4RSnorm) == Some(native::WGPUTextureFormat_BC4RSnorm),
        texture_format_code(TextureFormat::Bc5RgUnorm) == Some(native::WGPUTextureFormat_BC5RGUnorm),
        texture_format_code(TextureFormat::Bc5RgSnorm) == Some(native::WGPUTextureFormat_BC5RGSnorm),
        texture_format_code(TextureFormat::Bc6hRgbUfloat) == Some(native::WGPUTextureFormat_BC6HRGBUfloat),
        texture_format_code(TextureFormat::Bc6hRgbFloat) is None,
        texture_format_code(TextureFormat::Bc7RgbaUnorm) == Some(native::WGPUTextureFormat_BC7RGBAUnorm),
        texture_format_code(TextureFormat::Bc7RgbaUnormSrgb) == Some(native::WGPUTextureFormat_BC7RGBAUnormSrgb),
        texture_format_code(TextureFormat::Etc2Rgb8Unorm) == Some(native::WGPUTextureFormat_ETC2RGB8Unorm),
        texture_format_code(TextureFormat::Etc2Rgb8UnormSrgb) == Some(native::WGPUTextureFormat_ETC2RGB8UnormSrgb),
        texture_format_code(TextureFormat::Etc2Rgb8A1Unorm) == Some(native::WGPUTextureFormat_ETC2RGB8A1Unorm),
        texture_format_code(TextureFormat::Etc2Rgb8A1UnormSrgb) == Some(native::WGPUTextureFormat_ETC2RGB8A1UnormSrgb),
        texture_format_code(TextureFormat::Etc2Rgba8Unorm) == Some(native::WGPUTextureFormat_ETC2RGBA8Unorm),
        texture_format_code(TextureFormat::Etc2Rgba8UnormSrgb) == Some(native::WGPUTextureFormat_ETC2RGBA8UnormSrgb),
        texture_format_code(TextureFormat::EacR11Unorm) == Some(native::WGPUTextureFormat_EACR11Unorm),
        texture_format_code(TextureFormat::EacR11Snorm) == Some(native::WGPUTextureFormat_EACR11Snorm),
        texture_format_code(TextureFormat::EacRg11Unorm) == Some(native::WGPUTextureFormat_EACRG11Unorm),
        texture_format_code(TextureFormat::EacRg11Snorm) == Some(native::WGPUTextureFormat_EACRG11Snorm),
        texture_format_code(TextureFormat::Astc { block: AstcBlock::B4x4, channel: AstcChannel::Unorm }) == Some(native::WGPUTextureFormat_ASTC4x4Unorm),
        texture_format_code(TextureFormat::Astc { block: AstcBlock::B4x4, channel: AstcChannel::UnormSrgb }) == Some(native::WGPUTextureFormat_ASTC4x4UnormSrgb),
        texture_format_code(TextureFormat::Astc { block: AstcBlock::B4x4, channel: AstcChannel::Hdr }) is None,
        texture_format_code(TextureFormat::Astc { block: AstcBlock::B5x4, channel: AstcChannel::Unorm }) == Some(native::WGPUTextureFormat_ASTC5x4Unorm),
        texture_format_code(TextureFormat::Astc { block: AstcBlock::B5x4, channel: AstcChannel::UnormSrgb }) == Some(native::WGPUTextureFormat_ASTC5x4UnormSrgb),
        texture_format_code(TextureFormat::Astc { block: AstcBlock::B5x4, channel: AstcChannel::Hdr }) is None,
        texture_format_code(TextureFormat::Astc { block: AstcBlock::B5x5, channel: AstcChannel::Unorm }) == Some(native::WGPUTextureFormat_ASTC5x5Unorm),
        texture_format_code(TextureFormat::Astc { block: AstcBlock::B5x5, channel: AstcChannel::UnormSrgb }) == Some(native::WGPUTextureFormat_ASTC5x5UnormSrgb),
        texture_format_code(TextureFormat::Astc { block: AstcBlock::B5x5, channel: AstcChannel::Hdr }) is None,
        texture_format_code(TextureFormat::Astc { block: AstcBlock::B6x5, channel: AstcChannel::Unorm }) == Some(native::WGPUTextureFormat_ASTC6x5Unorm),
        texture_format_code(TextureFormat::Astc { block: AstcBlock::B6x5, channel: AstcChannel::UnormSrgb }) == Some(native::WGPUTextureFormat_ASTC6x5UnormSrgb),
        texture_format_code(TextureFormat::Astc { block: AstcBlock::B6x5, channel: AstcChannel::Hdr }) is None,
        texture_format_code(TextureFormat::Astc { block: AstcBlock::B6x6, channel: AstcChannel::Unorm }) == Some(native::WGPUTextureFormat_ASTC6x6Unorm),
        texture_format_code(TextureFormat::Astc { block: AstcBlock::B6x6, channel: AstcChannel::UnormSrgb }) == Some(native::WGPUTextureFormat_ASTC6x6UnormSrgb),
        texture_format_code(TextureFormat::Astc { block: AstcBlock::B6x6, channel: AstcChannel::Hdr }) is None,
        texture_format_code(TextureFormat::Astc { block: AstcBlock::B8x5, channel: AstcChannel::Unorm }) == Some(native::WGPUTextureFormat_ASTC8x5Unorm),
        texture_format_code(TextureFormat::Astc { block: AstcBlock::B8x5, channel: AstcChannel::UnormSrgb }) == Some(native::WGPUTextureFormat_ASTC8x5UnormSrgb),
        texture_format_code(TextureFormat::Astc { block: AstcBlock::B8x5, channel: AstcChannel::Hdr }) is None,
        texture_format_code(TextureFormat::Astc { block: AstcBlock::B8x6, channel: AstcChannel::Unorm }) == Some(native::WGPUTextureFormat_ASTC8x6Unorm),
        texture_format_code(TextureFormat::Astc { block: AstcBlock::B8x6, channel: AstcChannel::UnormSrgb }) == Some(native::WGPUTextureFormat_ASTC8x6UnormSrgb),
        texture_format_code(TextureFormat::Astc { block: AstcBlock::B8x6, channel: AstcChannel::Hdr }) is None,
        texture_format_code(TextureFormat::Astc { block: AstcBlock::B8x8, channel: AstcChannel::Unorm }) == Some(native::WGPUTextureFormat_ASTC8x8Unorm),
        texture_format_code(TextureFormat::Astc { block: AstcBlock::B8x8, channel: AstcChannel::UnormSrgb }) == Some(native::WGPUTextureFormat_ASTC8x8UnormSrgb),
        texture_format_code(TextureFormat::Astc { block: AstcBlock::B8x8, channel: AstcChannel::Hdr }) is None,
        texture_format_code(TextureFormat::Astc { block: AstcBlock::B10x5, channel: AstcChannel::Unorm }) == Some(native::WGPUTextureFormat_ASTC10x5Unorm),
        texture_format_code(TextureFormat::Astc { block: AstcBlock::B10x5, channel: AstcChannel::UnormSrgb }) == Some(native::WGPUTextureFormat_ASTC10x5UnormSrgb),
        texture_format_code(TextureFormat::Astc { block: AstcBlock::B10x5, channel: AstcChannel::Hdr }) is None,
        texture_format_code(TextureFormat::Astc { block: AstcBlock::B10x6, channel: AstcChannel::Unorm }) == Some(native::WGPUTextureFormat_ASTC10x6Unorm),
        texture_format_code(TextureFormat::Astc { block: AstcBlock::B10x6, channel: AstcChannel::UnormSrgb }) == Some(native::WGPUTextureFormat_ASTC10x6UnormSrgb),
        texture_format_code(TextureFormat::Astc { block: AstcBlock::B10x6, channel: AstcChannel::Hdr }) is None,
        texture_format_code(TextureFormat::Astc { block: AstcBlock::B10x8, channel: AstcChannel::Unorm }) == Some(native::WGPUTextureFormat_ASTC10x8Unorm),
        texture_format_code(TextureFormat::Astc { block: AstcBlock::B10x8, channel: AstcChannel::UnormSrgb }) == Some(native::WGPUTextureFormat_ASTC10x8UnormSrgb),
        texture_format_code(TextureFormat::Astc { block: AstcBlock::B10x8, channel: AstcChannel::Hdr }) is None,
        texture_format_code(TextureFormat::Astc { block: AstcBlock::B10x10, channel: AstcChannel::Unorm }) == Some(native::WGPUTextureFormat_ASTC10x10Unorm),
        texture_format_code(TextureFormat::Astc { block: AstcBlock::B10x10, channel: AstcChannel::UnormSrgb }) == Some(native::WGPUTextureFormat_ASTC10x10UnormSrgb),
        texture_format_code(TextureFormat::Astc { block: AstcBlock::B10x10, channel: AstcChannel::Hdr }) is None,
        texture_format_code(TextureFormat::Astc { block: AstcBlock::B12x10, channel: AstcChannel::Unorm }) == Some(native::WGPUTextureFormat_ASTC12x10Unorm),
        texture_format_code(TextureFormat::Astc { block: AstcBlock::B12x10, channel: AstcChannel::UnormSrgb }) == Some(native::WGPUTextureFormat_ASTC12x10UnormSrgb),
        texture_format_code(TextureFormat::Astc { block: AstcBlock::B12x10, channel: AstcChannel::Hdr }) is None,
        texture_format_code(TextureFormat::Astc { block: AstcBlock::B12x12, channel: AstcChannel::Unorm }) == Some(native::WGPUTextureFormat_ASTC12x12Unorm),
        texture_format_code(TextureFormat::Astc { block: AstcBlock::B12x12, channel: AstcChannel::UnormSrgb }) == Some(native::WGPUTextureFormat_ASTC12x12UnormSrgb),
        texture_format_code(TextureFormat::Astc { block: AstcBlock::B12x12, channel: AstcChannel::Hdr }) is None,
{
}

} // verus!
