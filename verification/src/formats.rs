//! The neutral pixel-format space: the hub enumeration that every
//! native format space is translated through.

use vstd::prelude::*;

verus! {

/// A pixel format in the neutral (API-agnostic) format space.
/// Every cross-API translation goes through this hub; mapping into a
/// native space is partial, and a format missing on one side is an
/// expected failure, never a silent substitution.
#[derive(Clone, Copy, Debug, PartialEq, Eq, Structural)]
pub enum InternalColorFormat {
    R8Unorm,
    R8Snorm,
    R8Uint,
    R8Sint,
    R16Uint,
    R16Sint,
    R16Unorm,
    R16Snorm,
    R16Float,
    Rg8Unorm,
    Rg8Snorm,
    Rg8Uint,
    Rg8Sint,
    Rg16Unorm,
    Rg16Snorm,
    R32Uint,
    R32Sint,
    R32Float,
    Rg16Uint,
    Rg16Sint,
    Rg16Float,
    Rgba8Unorm,
    Rgba8UnormSrgb,
    Bgra8UnormSrgb,
    Rgba8Snorm,
    Bgra8Unorm,
    Rgba8Uint,
    Rgba8Sint,
    Rgb10a2Unorm,
    Rg11b10Float,
    Rg32Uint,
    Rg32Sint,
    Rg32Float,
    Rgba16Uint,
    Rgba16Sint,
    Rgba16Unorm,
    Rgba16Snorm,
    Rgba16Float,
    Rgba32Uint,
    Rgba32Sint,
    Rgba32Float,
    Depth32Float,
    Depth32FloatStencil8,
    Depth24PlusStencil8,
    Rgb9e5Ufloat,
    Bc1RgbaUnorm,
    Bc1RgbaUnormSrgb,
    Bc2RgbaUnorm,
    Bc2RgbaUnormSrgb,
    Bc3RgbaUnorm,
    Bc3RgbaUnormSrgb,
    Bc4RUnorm,
    Bc4RSnorm,
    Bc5RgUnorm,
    Bc5RgSnorm,
    Bc6hRgbUfloat,
    Bc6hRgbFloat,
    Bc7RgbaUnorm,
    Bc7RgbaUnormSrgb,
    Depth16Unorm,
    Depth24Plus,
    Etc2Rgb8Unorm,
    Etc2Rgb8UnormSrgb,
    Etc2Rgb8A1Unorm,
    Etc2Rgb8A1UnormSrgb,
    Etc2Rgba8Unorm,
    Etc2Rgba8UnormSrgb,
    EacR11Unorm,
    EacR11Snorm,
    EacRg11Unorm,
    EacRg11Snorm,
    Stencil8,
    Ayuv,
    Nv12,
    Y410,
    P010,
}

impl InternalColorFormat {
    /// The non-sRGB twin of an sRGB format (identity for all others).
    pub open spec fn spec_to_norm(self) -> Self {
        match self {
            InternalColorFormat::Rgba8UnormSrgb => InternalColorFormat::Rgba8Unorm,
            InternalColorFormat::Bgra8UnormSrgb => InternalColorFormat::Bgra8Unorm,
            InternalColorFormat::Bc1RgbaUnormSrgb => InternalColorFormat::Bc1RgbaUnorm,
            InternalColorFormat::Bc2RgbaUnormSrgb => InternalColorFormat::Bc2RgbaUnorm,
            InternalColorFormat::Bc3RgbaUnormSrgb => InternalColorFormat::Bc3RgbaUnorm,
            InternalColorFormat::Bc7RgbaUnormSrgb => InternalColorFormat::Bc7RgbaUnorm,
            InternalColorFormat::Etc2Rgb8UnormSrgb => InternalColorFormat::Etc2Rgb8Unorm,
            InternalColorFormat::Etc2Rgb8A1UnormSrgb => InternalColorFormat::Etc2Rgb8A1Unorm,
            InternalColorFormat::Etc2Rgba8UnormSrgb => InternalColorFormat::Etc2Rgba8Unorm,
            _ => self,
        }
    }

    /// Replaces an sRGB format with its plain (non-sRGB) twin, which is
    /// the view format a screen capture is sampled through.
    pub fn to_norm(self) -> (r: Self)
        ensures
            r == self.spec_to_norm(),
    {
        match self {
            InternalColorFormat::Rgba8UnormSrgb => InternalColorFormat::Rgba8Unorm,
            InternalColorFormat::Bgra8UnormSrgb => InternalColorFormat::Bgra8Unorm,
            InternalColorFormat::Bc1RgbaUnormSrgb => InternalColorFormat::Bc1RgbaUnorm,
            InternalColorFormat::Bc2RgbaUnormSrgb => InternalColorFormat::Bc2RgbaUnorm,
            InternalColorFormat::Bc3RgbaUnormSrgb => InternalColorFormat::Bc3RgbaUnorm,
            InternalColorFormat::Bc7RgbaUnormSrgb => InternalColorFormat::Bc7RgbaUnorm,
            InternalColorFormat::Etc2Rgb8UnormSrgb => InternalColorFormat::Etc2Rgb8Unorm,
            InternalColorFormat::Etc2Rgb8A1UnormSrgb => InternalColorFormat::Etc2Rgb8A1Unorm,
            InternalColorFormat::Etc2Rgba8UnormSrgb => InternalColorFormat::Etc2Rgba8Unorm,
            _ => self,
        }
    }

    /// Whether the format carries a depth or stencil aspect rather than color.
    pub open spec fn spec_is_depth_stencil_format(self) -> bool {
        match self {
            InternalColorFormat::Depth16Unorm | InternalColorFormat::Depth24Plus | InternalColorFormat::Depth24PlusStencil8 | InternalColorFormat::Depth32Float | InternalColorFormat::Depth32FloatStencil8 | InternalColorFormat::Stencil8 => true,
            _ => false,
        }
    }

    pub fn is_depth_stencil_format(self) -> (r: bool)
        ensures
            r == self.spec_is_depth_stencil_format(),
    {
        match self {
            InternalColorFormat::Depth16Unorm | InternalColorFormat::Depth24Plus | InternalColorFormat::Depth24PlusStencil8 | InternalColorFormat::Depth32Float | InternalColorFormat::Depth32FloatStencil8 | InternalColorFormat::Stencil8 => true,
            _ => false,
        }
    }

    /// Whether the format carries a depth aspect.
    pub open spec fn spec_is_depth_format(self) -> bool {
        match self {
            InternalColorFormat::Depth16Unorm | InternalColorFormat::Depth24Plus
                | InternalColorFormat::Depth24PlusStencil8 | InternalColorFormat::Depth32Float
                | InternalColorFormat::Depth32FloatStencil8 => true,
            _ => false,
        }
    }

    pub fn is_depth_format(self) -> (r: bool)
        ensures
            r == self.spec_is_depth_format(),
    {
        match self {
            InternalColorFormat::Depth16Unorm | InternalColorFormat::Depth24Plus
                | InternalColorFormat::Depth24PlusStencil8 | InternalColorFormat::Depth32Float
                | InternalColorFormat::Depth32FloatStencil8 => true,
            _ => false,
        }
    }

    /// Whether the format carries a stencil aspect.
    pub open spec fn spec_is_stencil_format(self) -> bool {
        match self {
            InternalColorFormat::Stencil8 | InternalColorFormat::Depth24PlusStencil8
                | InternalColorFormat::Depth32FloatStencil8 => true,
            _ => false,
        }
    }

    pub fn is_stencil_format(self) -> (r: bool)
        ensures
            r == self.spec_is_stencil_format(),
    {
        match self {
            InternalColorFormat::Stencil8 | InternalColorFormat::Depth24PlusStencil8
                | InternalColorFormat::Depth32FloatStencil8 => true,
            _ => false,
        }
    }
}

} // verus!
