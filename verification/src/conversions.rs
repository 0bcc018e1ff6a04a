//! Bidirectional translation between the neutral format space and each
//! native format space, one table per native space.
//!
//! Each table is a set of corresponding-format rows; both directions are
//! derived from the same rows, and a format that exists in only one space
//! fails the translation instead of being coerced to a near match.

use vstd::prelude::*;

use crate::formats::InternalColorFormat;
use crate::gpu::{GpuDevice, TextureDesc, TextureUses};

verus! {

use crate::CaptureError;

/// Wraps an already-backed image as a rendering-API texture under the
/// given descriptors: the construct-from-raw entry point the importer
/// finishes with.
pub fn vulkan_image_to_texture(
    device: &mut GpuDevice,
    image: u64,
    tex_desc: TextureDesc,
    hal_uses: TextureUses,
) -> (r: Result<u64, CaptureError>)
    requires
        old(device).wf(),
    ensures
        final(device).wf(),
        r is Err ==> *final(device) == *old(device),
        r is Err <==> !old(device).spec_capacity(1),
        r matches Ok(id) ==> {
            &&& id == old(device).next_id
            &&& final(device).objects@.len() == old(device).objects@.len() + 1
            &&& final(device).objects@.subrange(0, old(device).objects@.len() as int) =~= old(
                device,
            ).objects@
            &&& final(device).objects@.last().id == id
            &&& final(device).objects@.last().object->Texture_desc == tex_desc
            &&& final(device).objects@.last().object->Texture_raw_image == Some(image)
            &&& final(device).objects@.last().object->Texture_hal_uses == Some(hal_uses)
        },
{
    device.texture_from_raw(image, tex_desc, hal_uses)
}

/// The error of every format translation: no row of the table relates the
/// two spaces at this format. This is a build-time mismatch for the caller
/// and is never recovered by substitution.
#[derive(Clone, Copy, Debug, PartialEq, Eq, Structural)]
pub struct UnsupportedFormat;

/// A texture format of the rendering API's format space.
#[derive(Clone, Copy, Debug, PartialEq, Eq, Structural)]
pub enum TextureFormat {
    R8Unorm,
    R8Snorm,
    R8Uint,
    R8Sint,
    R16Uint,
    R16Sint,
    R16Unorm,
    R16Snorm,
    R16Float,
    Rg8Unorm,
    Rg8Snorm,
    Rg8Uint,
    Rg8Sint,
    Rg16Unorm,
    Rg16Snorm,
    R32Uint,
    R32Sint,
    R32Float,
    Rg16Uint,
    Rg16Sint,
    Rg16Float,
    Rgba8Unorm,
    Rgba8UnormSrgb,
    Bgra8UnormSrgb,
    Rgba8Snorm,
    Bgra8Unorm,
    Rgba8Uint,
    Rgba8Sint,
    Rgb10a2Unorm,
    Rg11b10Float,
    Rg32Uint,
    Rg32Sint,
    Rg32Float,
    Rgba16Uint,
    Rgba16Sint,
    Rgba16Unorm,
    Rgba16Snorm,
    Rgba16Float,
    Rgba32Uint,
    Rgba32Sint,
    Rgba32Float,
    Depth32Float,
    Depth32FloatStencil8,
    Depth24PlusStencil8,
    Rgb9e5Ufloat,
    Bc1RgbaUnorm,
    Bc1RgbaUnormSrgb,
    Bc2RgbaUnorm,
    Bc2RgbaUnormSrgb,
    Bc3RgbaUnorm,
    Bc3RgbaUnormSrgb,
    Bc4RUnorm,
    Bc4RSnorm,
    Bc5RgUnorm,
    Bc5RgSnorm,
    Bc6hRgbUfloat,
    Bc6hRgbFloat,
    Bc7RgbaUnorm,
    Bc7RgbaUnormSrgb,
    Depth16Unorm,
}

/// An image format of the Vulkan format space, used for external-memory import.
#[derive(Clone, Copy, Debug, PartialEq, Eq, Structural)]
pub enum VulkanFormat {
    R8Unorm,
    R8Snorm,
    R8Uint,
    R8Sint,
    R16Uint,
    R16Sint,
    R16Unorm,
    R16Snorm,
    R16Sfloat,
    R8G8Unorm,
    R8G8Snorm,
    R8G8Uint,
    R8G8Sint,
    R16G16Unorm,
    R16G16Snorm,
    R32Uint,
    R32Sint,
    R32Sfloat,
    R16G16Uint,
    R16G16Sint,
    R16G16Sfloat,
    R8G8B8A8Unorm,
    R8G8B8A8Srgb,
    B8G8R8A8Srgb,
    R8G8B8A8Snorm,
    B8G8R8A8Unorm,
    R8G8B8A8Uint,
    R8G8B8A8Sint,
    A2B10G10R10UnormPack32,
    B10G11R11UfloatPack32,
    R32G32Uint,
    R32G32Sint,
    R32G32Sfloat,
    R16G16B16A16Uint,
    R16G16B16A16Sint,
    R16G16B16A16Unorm,
    R16G16B16A16Snorm,
    R16G16B16A16Sfloat,
    R32G32B32A32Uint,
    R32G32B32A32Sint,
    R32G32B32A32Sfloat,
    D32Sfloat,
    D32SfloatS8Uint,
    D24UnormS8Uint,
    D16Unorm,
    E5B9G9R9UfloatPack32,
    Bc1RgbaUnormBlock,
    Bc1RgbaSrgbBlock,
    Bc2UnormBlock,
    Bc2SrgbBlock,
    Bc3UnormBlock,
    Bc3SrgbBlock,
    Bc4UnormBlock,
    Bc4SnormBlock,
    Bc5UnormBlock,
    Bc5SnormBlock,
    Bc6hUfloatBlock,
    Bc6hSfloatBlock,
    Bc7UnormBlock,
    Bc7SrgbBlock,
    Etc2R8G8B8UnormBlock,
    Etc2R8G8B8SrgbBlock,
    Etc2R8G8B8A1UnormBlock,
    Etc2R8G8B8A1SrgbBlock,
    Etc2R8G8B8A8UnormBlock,
    Etc2R8G8B8A8SrgbBlock,
    EacR11UnormBlock,
    EacR11SnormBlock,
    EacR11G11UnormBlock,
    EacR11G11SnormBlock,
    S8Uint,
}

/// A resource format of the DXGI format space, as reported by a foreign-API
/// descriptor query. The foreign space is larger than the mapping table:
/// its last members here have no corresponding-format row, and a
/// descriptor arriving in one of them fails the translation instead of
/// being coerced to a near match.
#[derive(Clone, Copy, Debug, PartialEq, Eq, Structural)]
pub enum DxgiFormat {
    R8Unorm,
    R8Snorm,
    R8Uint,
    R8Sint,
    R16Uint,
    R16Sint,
    R16Unorm,
    R16Snorm,
    R16Float,
    R8G8Unorm,
    R8G8Snorm,
    R8G8Uint,
    R8G8Sint,
    R16G16Unorm,
    R16G16Snorm,
    R32Uint,
    R32Sint,
    R32Float,
    R16G16Uint,
    R16G16Sint,
    R16G16Float,
    R8G8B8A8Unorm,
    R8G8B8A8Typeless,
    R8G8B8A8UnormSrgb,
    B8G8R8A8UnormSrgb,
    R8G8B8A8Snorm,
    B8G8R8A8Unorm,
    R8G8B8A8Uint,
    R8G8B8A8Sint,
    R10G10B10A2Unorm,
    R11G11B10Float,
    R32G32Uint,
    R32G32Sint,
    R32G32Float,
    R16G16B16A16Uint,
    R16G16B16A16Sint,
    R16G16B16A16Unorm,
    R16G16B16A16Snorm,
    R16G16B16A16Float,
    R32G32B32A32Uint,
    R32G32B32A32Sint,
    R32G32B32A32Float,
    D32Float,
    D32FloatS8X24Uint,
    D24UnormS8Uint,
    R9G9B9E5SharedExp,
    Bc1Unorm,
    Bc1UnormSrgb,
    Bc2Unorm,
    Bc2UnormSrgb,
    Bc3Unorm,
    Bc3UnormSrgb,
    Bc4Unorm,
    Bc4Snorm,
    Bc5Unorm,
    Bc5Snorm,
    Bc6hUf16,
    Bc6hSf16,
    Bc7Unorm,
    Bc7UnormSrgb,
    D16Unorm,
    Ayuv,
    Nv12,
    Y410,
    P010,
    R32G32B32Float,
    B5G6R5Unorm,
    Unknown,
}

/// A frame format of the desktop-duplication capture API's format space.
#[derive(Clone, Copy, Debug, PartialEq, Eq, Structural)]
pub enum CaptureColorFormat {
    ARGB8UNorm,
    BGRA8UNorm,
    AYUV,
    YUV444,
    YUV444_10bit,
    NV12,
    ARGB16Float,
    ARGB10UNorm,
    Y410,
    YUV420_10bit,
}

impl InternalColorFormat {
    pub open spec fn spec_to_texture_format(self) -> Option<TextureFormat> {
        match self {
            InternalColorFormat::R8Unorm => Some(TextureFormat::R8Unorm),
            InternalColorFormat::R8Snorm => Some(TextureFormat::R8Snorm),
            InternalColorFormat::R8Uint => Some(TextureFormat::R8Uint),
            InternalColorFormat::R8Sint => Some(TextureFormat::R8Sint),
            InternalColorFormat::R16Uint => Some(TextureFormat::R16Uint),
            InternalColorFormat::R16Sint => Some(TextureFormat::R16Sint),
            InternalColorFormat::R16Unorm => Some(TextureFormat::R16Unorm),
            InternalColorFormat::R16Snorm => Some(TextureFormat::R16Snorm),
            InternalColorFormat::R16Float => Some(TextureFormat::R16Float),
            InternalColorFormat::Rg8Unorm => Some(TextureFormat::Rg8Unorm),
            InternalColorFormat::Rg8Snorm => Some(TextureFormat::Rg8Snorm),
            InternalColorFormat::Rg8Uint => Some(TextureFormat::Rg8Uint),
            InternalColorFormat::Rg8Sint => Some(TextureFormat::Rg8Sint),
            InternalColorFormat::Rg16Unorm => Some(TextureFormat::Rg16Unorm),
            InternalColorFormat::Rg16Snorm => Some(TextureFormat::Rg16Snorm),
            InternalColorFormat::R32Uint => Some(TextureFormat::R32Uint),
            InternalColorFormat::R32Sint => Some(TextureFormat::R32Sint),
            InternalColorFormat::R32Float => Some(TextureFormat::R32Float),
            InternalColorFormat::Rg16Uint => Some(TextureFormat::Rg16Uint),
            InternalColorFormat::Rg16Sint => Some(TextureFormat::Rg16Sint),
            InternalColorFormat::Rg16Float => Some(TextureFormat::Rg16Float),
            InternalColorFormat::Rgba8Unorm => Some(TextureFormat::Rgba8Unorm),
            InternalColorFormat::Rgba8UnormSrgb => Some(TextureFormat::Rgba8UnormSrgb),
            InternalColorFormat::Bgra8UnormSrgb => Some(TextureFormat::Bgra8UnormSrgb),
            InternalColorFormat::Rgba8Snorm => Some(TextureFormat::Rgba8Snorm),
            InternalColorFormat::Bgra8Unorm => Some(TextureFormat::Bgra8Unorm),
            InternalColorFormat::Rgba8Uint => Some(TextureFormat::Rgba8Uint),
            InternalColorFormat::Rgba8Sint => Some(TextureFormat::Rgba8Sint),
            InternalColorFormat::Rgb10a2Unorm => Some(TextureFormat::Rgb10a2Unorm),
            InternalColorFormat::Rg11b10Float => Some(TextureFormat::Rg11b10Float),
            InternalColorFormat::Rg32Uint => Some(TextureFormat::Rg32Uint),
            InternalColorFormat::Rg32Sint => Some(TextureFormat::Rg32Sint),
            InternalColorFormat::Rg32Float => Some(TextureFormat::Rg32Float),
            InternalColorFormat::Rgba16Uint => Some(TextureFormat::Rgba16Uint),
            InternalColorFormat::Rgba16Sint => Some(TextureFormat::Rgba16Sint),
            InternalColorFormat::Rgba16Unorm => Some(TextureFormat::Rgba16Unorm),
            InternalColorFormat::Rgba16Snorm => Some(TextureFormat::Rgba16Snorm),
            InternalColorFormat::Rgba16Float => Some(TextureFormat::Rgba16Float),
            InternalColorFormat::Rgba32Uint => Some(TextureFormat::Rgba32Uint),
            InternalColorFormat::Rgba32Sint => Some(TextureFormat::Rgba32Sint),
            InternalColorFormat::Rgba32Float => Some(TextureFormat::Rgba32Float),
            InternalColorFormat::Depth32Float => Some(TextureFormat::Depth32Float),
            InternalColorFormat::Depth32FloatStencil8 => Some(TextureFormat::Depth32FloatStencil8),
            InternalColorFormat::Depth24PlusStencil8 => Some(TextureFormat::Depth24PlusStencil8),
            InternalColorFormat::Rgb9e5Ufloat => Some(TextureFormat::Rgb9e5Ufloat),
            InternalColorFormat::Bc1RgbaUnorm => Some(TextureFormat::Bc1RgbaUnorm),
            InternalColorFormat::Bc1RgbaUnormSrgb => Some(TextureFormat::Bc1RgbaUnormSrgb),
            InternalColorFormat::Bc2RgbaUnorm => Some(TextureFormat::Bc2RgbaUnorm),
            InternalColorFormat::Bc2RgbaUnormSrgb => Some(TextureFormat::Bc2RgbaUnormSrgb),
            InternalColorFormat::Bc3RgbaUnorm => Some(TextureFormat::Bc3RgbaUnorm),
            InternalColorFormat::Bc3RgbaUnormSrgb => Some(TextureFormat::Bc3RgbaUnormSrgb),
            InternalColorFormat::Bc4RUnorm => Some(TextureFormat::Bc4RUnorm),
            InternalColorFormat::Bc4RSnorm => Some(TextureFormat::Bc4RSnorm),
            InternalColorFormat::Bc5RgUnorm => Some(TextureFormat::Bc5RgUnorm),
            InternalColorFormat::Bc5RgSnorm => Some(TextureFormat::Bc5RgSnorm),
            InternalColorFormat::Bc6hRgbUfloat => Some(TextureFormat::Bc6hRgbUfloat),
            InternalColorFormat::Bc6hRgbFloat => Some(TextureFormat::Bc6hRgbFloat),
            InternalColorFormat::Bc7RgbaUnorm => Some(TextureFormat::Bc7RgbaUnorm),
            InternalColorFormat::Bc7RgbaUnormSrgb => Some(TextureFormat::Bc7RgbaUnormSrgb),
            InternalColorFormat::Depth16Unorm => Some(TextureFormat::Depth16Unorm),
            _ => None,
        }
    }

    /// Translates into the rendering API's space; fails for a format that has no row there.
    pub fn to_texture_format(self) -> (r: Result<TextureFormat, UnsupportedFormat>)
        ensures
            r matches Ok(v) ==> self.spec_to_texture_format() == Some(v),
            r is Err <==> self.spec_to_texture_format() is None,
    {
        match self {
            InternalColorFormat::R8Unorm => Ok(TextureFormat::R8Unorm),
            InternalColorFormat::R8Snorm => Ok(TextureFormat::R8Snorm),
            InternalColorFormat::R8Uint => Ok(TextureFormat::R8Uint),
            InternalColorFormat::R8Sint => Ok(TextureFormat::R8Sint),
            InternalColorFormat::R16Uint => Ok(TextureFormat::R16Uint),
            InternalColorFormat::R16Sint => Ok(TextureFormat::R16Sint),
            InternalColorFormat::R16Unorm => Ok(TextureFormat::R16Unorm),
            InternalColorFormat::R16Snorm => Ok(TextureFormat::R16Snorm),
            InternalColorFormat::R16Float => Ok(TextureFormat::R16Float),
            InternalColorFormat::Rg8Unorm => Ok(TextureFormat::Rg8Unorm),
            InternalColorFormat::Rg8Snorm => Ok(TextureFormat::Rg8Snorm),
            InternalColorFormat::Rg8Uint => Ok(TextureFormat::Rg8Uint),
            InternalColorFormat::Rg8Sint => Ok(TextureFormat::Rg8Sint),
            InternalColorFormat::Rg16Unorm => Ok(TextureFormat::Rg16Unorm),
            InternalColorFormat::Rg16Snorm => Ok(TextureFormat::Rg16Snorm),
            InternalColorFormat::R32Uint => Ok(TextureFormat::R32Uint),
            InternalColorFormat::R32Sint => Ok(TextureFormat::R32Sint),
            InternalColorFormat::R32Float => Ok(TextureFormat::R32Float),
            InternalColorFormat::Rg16Uint => Ok(TextureFormat::Rg16Uint),
            InternalColorFormat::Rg16Sint => Ok(TextureFormat::Rg16Sint),
            InternalColorFormat::Rg16Float => Ok(TextureFormat::Rg16Float),
            InternalColorFormat::Rgba8Unorm => Ok(TextureFormat::Rgba8Unorm),
            InternalColorFormat::Rgba8UnormSrgb => Ok(TextureFormat::Rgba8UnormSrgb),
            InternalColorFormat::Bgra8UnormSrgb => Ok(TextureFormat::Bgra8UnormSrgb),
            InternalColorFormat::Rgba8Snorm => Ok(TextureFormat::Rgba8Snorm),
            InternalColorFormat::Bgra8Unorm => Ok(TextureFormat::Bgra8Unorm),
            InternalColorFormat::Rgba8Uint => Ok(TextureFormat::Rgba8Uint),
            InternalColorFormat::Rgba8Sint => Ok(TextureFormat::Rgba8Sint),
            InternalColorFormat::Rgb10a2Unorm => Ok(TextureFormat::Rgb10a2Unorm),
            InternalColorFormat::Rg11b10Float => Ok(TextureFormat::Rg11b10Float),
            InternalColorFormat::Rg32Uint => Ok(TextureFormat::Rg32Uint),
            InternalColorFormat::Rg32Sint => Ok(TextureFormat::Rg32Sint),
            InternalColorFormat::Rg32Float => Ok(TextureFormat::Rg32Float),
            InternalColorFormat::Rgba16Uint => Ok(TextureFormat::Rgba16Uint),
            InternalColorFormat::Rgba16Sint => Ok(TextureFormat::Rgba16Sint),
            InternalColorFormat::Rgba16Unorm => Ok(TextureFormat::Rgba16Unorm),
            InternalColorFormat::Rgba16Snorm => Ok(TextureFormat::Rgba16Snorm),
            InternalColorFormat::Rgba16Float => Ok(TextureFormat::Rgba16Float),
            InternalColorFormat::Rgba32Uint => Ok(TextureFormat::Rgba32Uint),
            InternalColorFormat::Rgba32Sint => Ok(TextureFormat::Rgba32Sint),
            InternalColorFormat::Rgba32Float => Ok(TextureFormat::Rgba32Float),
            InternalColorFormat::Depth32Float => Ok(TextureFormat::Depth32Float),
            InternalColorFormat::Depth32FloatStencil8 => Ok(TextureFormat::Depth32FloatStencil8),
            InternalColorFormat::Depth24PlusStencil8 => Ok(TextureFormat::Depth24PlusStencil8),
            InternalColorFormat::Rgb9e5Ufloat => Ok(TextureFormat::Rgb9e5Ufloat),
            InternalColorFormat::Bc1RgbaUnorm => Ok(TextureFormat::Bc1RgbaUnorm),
            InternalColorFormat::Bc1RgbaUnormSrgb => Ok(TextureFormat::Bc1RgbaUnormSrgb),
            InternalColorFormat::Bc2RgbaUnorm => Ok(TextureFormat::Bc2RgbaUnorm),
            InternalColorFormat::Bc2RgbaUnormSrgb => Ok(TextureFormat::Bc2RgbaUnormSrgb),
            InternalColorFormat::Bc3RgbaUnorm => Ok(TextureFormat::Bc3RgbaUnorm),
            InternalColorFormat::Bc3RgbaUnormSrgb => Ok(TextureFormat::Bc3RgbaUnormSrgb),
            InternalColorFormat::Bc4RUnorm => Ok(TextureFormat::Bc4RUnorm),
            InternalColorFormat::Bc4RSnorm => Ok(TextureFormat::Bc4RSnorm),
            InternalColorFormat::Bc5RgUnorm => Ok(TextureFormat::Bc5RgUnorm),
            InternalColorFormat::Bc5RgSnorm => Ok(TextureFormat::Bc5RgSnorm),
            InternalColorFormat::Bc6hRgbUfloat => Ok(TextureFormat::Bc6hRgbUfloat),
            InternalColorFormat::Bc6hRgbFloat => Ok(TextureFormat::Bc6hRgbFloat),
            InternalColorFormat::Bc7RgbaUnorm => Ok(TextureFormat::Bc7RgbaUnorm),
            InternalColorFormat::Bc7RgbaUnormSrgb => Ok(TextureFormat::Bc7RgbaUnormSrgb),
            InternalColorFormat::Depth16Unorm => Ok(TextureFormat::Depth16Unorm),
            _ => Err(UnsupportedFormat),
        }
    }

    pub open spec fn spec_to_vulkan(self) -> Option<VulkanFormat> {
        match self {
            InternalColorFormat::R8Unorm => Some(VulkanFormat::R8Unorm),
            InternalColorFormat::R8Snorm => Some(VulkanFormat::R8Snorm),
            InternalColorFormat::R8Uint => Some(VulkanFormat::R8Uint),
            InternalColorFormat::R8Sint => Some(VulkanFormat::R8Sint),
            InternalColorFormat::R16Uint => Some(VulkanFormat::R16Uint),
            InternalColorFormat::R16Sint => Some(VulkanFormat::R16Sint),
            InternalColorFormat::R16Unorm => Some(VulkanFormat::R16Unorm),
            InternalColorFormat::R16Snorm => Some(VulkanFormat::R16Snorm),
            InternalColorFormat::R16Float => Some(VulkanFormat::R16Sfloat),
            InternalColorFormat::Rg8Unorm => Some(VulkanFormat::R8G8Unorm),
            InternalColorFormat::Rg8Snorm => Some(VulkanFormat::R8G8Snorm),
            InternalColorFormat::Rg8Uint => Some(VulkanFormat::R8G8Uint),
            InternalColorFormat::Rg8Sint => Some(VulkanFormat::R8G8Sint),
            InternalColorFormat::Rg16Unorm => Some(VulkanFormat::R16G16Unorm),
            InternalColorFormat::Rg16Snorm => Some(VulkanFormat::R16G16Snorm),
            InternalColorFormat::R32Uint => Some(VulkanFormat::R32Uint),
            InternalColorFormat::R32Sint => Some(VulkanFormat::R32Sint),
            InternalColorFormat::R32Float => Some(VulkanFormat::R32Sfloat),
            InternalColorFormat::Rg16Uint => Some(VulkanFormat::R16G16Uint),
            InternalColorFormat::Rg16Sint => Some(VulkanFormat::R16G16Sint),
            InternalColorFormat::Rg16Float => Some(VulkanFormat::R16G16Sfloat),
            InternalColorFormat::Rgba8Unorm => Some(VulkanFormat::R8G8B8A8Unorm),
            InternalColorFormat::Rgba8UnormSrgb => Some(VulkanFormat::R8G8B8A8Srgb),
            InternalColorFormat::Bgra8UnormSrgb => Some(VulkanFormat::B8G8R8A8Srgb),
            InternalColorFormat::Rgba8Snorm => Some(VulkanFormat::R8G8B8A8Snorm),
            InternalColorFormat::Bgra8Unorm => Some(VulkanFormat::B8G8R8A8Unorm),
            InternalColorFormat::Rgba8Uint => Some(VulkanFormat::R8G8B8A8Uint),
            InternalColorFormat::Rgba8Sint => Some(VulkanFormat::R8G8B8A8Sint),
            InternalColorFormat::Rgb10a2Unorm => Some(VulkanFormat::A2B10G10R10UnormPack32),
            InternalColorFormat::Rg11b10Float => Some(VulkanFormat::B10G11R11UfloatPack32),
            InternalColorFormat::Rg32Uint => Some(VulkanFormat::R32G32Uint),
            InternalColorFormat::Rg32Sint => Some(VulkanFormat::R32G32Sint),
            InternalColorFormat::Rg32Float => Some(VulkanFormat::R32G32Sfloat),
            InternalColorFormat::Rgba16Uint => Some(VulkanFormat::R16G16B16A16Uint),
            InternalColorFormat::Rgba16Sint => Some(VulkanFormat::R16G16B16A16Sint),
            InternalColorFormat::Rgba16Unorm => Some(VulkanFormat::R16G16B16A16Unorm),
            InternalColorFormat::Rgba16Snorm => Some(VulkanFormat::R16G16B16A16Snorm),
            InternalColorFormat::Rgba16Float => Some(VulkanFormat::R16G16B16A16Sfloat),
            InternalColorFormat::Rgba32Uint => Some(VulkanFormat::R32G32B32A32Uint),
            InternalColorFormat::Rgba32Sint => Some(VulkanFormat::R32G32B32A32Sint),
            InternalColorFormat::Rgba32Float => Some(VulkanFormat::R32G32B32A32Sfloat),
            InternalColorFormat::Depth32Float => Some(VulkanFormat::D32Sfloat),
            InternalColorFormat::Depth32FloatStencil8 => Some(VulkanFormat::D32SfloatS8Uint),
            InternalColorFormat::Depth24PlusStencil8 => Some(VulkanFormat::D24UnormS8Uint),
            InternalColorFormat::Rgb9e5Ufloat => Some(VulkanFormat::E5B9G9R9UfloatPack32),
            InternalColorFormat::Bc1RgbaUnorm => Some(VulkanFormat::Bc1RgbaUnormBlock),
            InternalColorFormat::Bc1RgbaUnormSrgb => Some(VulkanFormat::Bc1RgbaSrgbBlock),
            InternalColorFormat::Bc2RgbaUnorm => Some(VulkanFormat::Bc2UnormBlock),
            InternalColorFormat::Bc2RgbaUnormSrgb => Some(VulkanFormat::Bc2SrgbBlock),
            InternalColorFormat::Bc3RgbaUnorm => Some(VulkanFormat::Bc3UnormBlock),
            InternalColorFormat::Bc3RgbaUnormSrgb => Some(VulkanFormat::Bc3SrgbBlock),
            InternalColorFormat::Bc4RUnorm => Some(VulkanFormat::Bc4UnormBlock),
            InternalColorFormat::Bc4RSnorm => Some(VulkanFormat::Bc4SnormBlock),
            InternalColorFormat::Bc5RgUnorm => Some(VulkanFormat::Bc5UnormBlock),
            InternalColorFormat::Bc5RgSnorm => Some(VulkanFormat::Bc5SnormBlock),
            InternalColorFormat::Bc6hRgbUfloat => Some(VulkanFormat::Bc6hUfloatBlock),
            InternalColorFormat::Bc6hRgbFloat => Some(VulkanFormat::Bc6hSfloatBlock),
            InternalColorFormat::Bc7RgbaUnorm => Some(VulkanFormat::Bc7UnormBlock),
            InternalColorFormat::Bc7RgbaUnormSrgb => Some(VulkanFormat::Bc7SrgbBlock),
            InternalColorFormat::Depth16Unorm => Some(VulkanFormat::D16Unorm),
            InternalColorFormat::Depth24Plus => Some(VulkanFormat::D32Sfloat),
            InternalColorFormat::Etc2Rgb8Unorm => Some(VulkanFormat::Etc2R8G8B8UnormBlock),
            InternalColorFormat::Etc2Rgb8UnormSrgb => Some(VulkanFormat::Etc2R8G8B8SrgbBlock),
            InternalColorFormat::Etc2Rgb8A1Unorm => Some(VulkanFormat::Etc2R8G8B8A1UnormBlock),
            InternalColorFormat::Etc2Rgb8A1UnormSrgb => Some(VulkanFormat::Etc2R8G8B8A1SrgbBlock),
            InternalColorFormat::Etc2Rgba8Unorm => Some(VulkanFormat::Etc2R8G8B8A8UnormBlock),
            InternalColorFormat::Etc2Rgba8UnormSrgb => Some(VulkanFormat::Etc2R8G8B8A8SrgbBlock),
            InternalColorFormat::EacR11Unorm => Some(VulkanFormat::EacR11UnormBlock),
            InternalColorFormat::EacR11Snorm => Some(VulkanFormat::EacR11SnormBlock),
            InternalColorFormat::EacRg11Unorm => Some(VulkanFormat::EacR11G11UnormBlock),
            InternalColorFormat::EacRg11Snorm => Some(VulkanFormat::EacR11G11SnormBlock),
            InternalColorFormat::Stencil8 => Some(VulkanFormat::S8Uint),
            _ => None,
        }
    }

    /// Translates into the Vulkan space; fails for a format that has no row there.
    pub fn to_vulkan(self) -> (r: Result<VulkanFormat, UnsupportedFormat>)
        ensures
            r matches Ok(v) ==> self.spec_to_vulkan() == Some(v),
            r is Err <==> self.spec_to_vulkan() is None,
    {
        match self {
            InternalColorFormat::R8Unorm => Ok(VulkanFormat::R8Unorm),
            InternalColorFormat::R8Snorm => Ok(VulkanFormat::R8Snorm),
            InternalColorFormat::R8Uint => Ok(VulkanFormat::R8Uint),
            InternalColorFormat::R8Sint => Ok(VulkanFormat::R8Sint),
            InternalColorFormat::R16Uint => Ok(VulkanFormat::R16Uint),
            InternalColorFormat::R16Sint => Ok(VulkanFormat::R16Sint),
            InternalColorFormat::R16Unorm => Ok(VulkanFormat::R16Unorm),
            InternalColorFormat::R16Snorm => Ok(VulkanFormat::R16Snorm),
            InternalColorFormat::R16Float => Ok(VulkanFormat::R16Sfloat),
            InternalColorFormat::Rg8Unorm => Ok(VulkanFormat::R8G8Unorm),
            InternalColorFormat::Rg8Snorm => Ok(VulkanFormat::R8G8Snorm),
            InternalColorFormat::Rg8Uint => Ok(VulkanFormat::R8G8Uint),
            InternalColorFormat::Rg8Sint => Ok(VulkanFormat::R8G8Sint),
            InternalColorFormat::Rg16Unorm => Ok(VulkanFormat::R16G16Unorm),
            InternalColorFormat::Rg16Snorm => Ok(VulkanFormat::R16G16Snorm),
            InternalColorFormat::R32Uint => Ok(VulkanFormat::R32Uint),
            InternalColorFormat::R32Sint => Ok(VulkanFormat::R32Sint),
            InternalColorFormat::R32Float => Ok(VulkanFormat::R32Sfloat),
            InternalColorFormat::Rg16Uint => Ok(VulkanFormat::R16G16Uint),
            InternalColorFormat::Rg16Sint => Ok(VulkanFormat::R16G16Sint),
            InternalColorFormat::Rg16Float => Ok(VulkanFormat::R16G16Sfloat),
            InternalColorFormat::Rgba8Unorm => Ok(VulkanFormat::R8G8B8A8Unorm),
            InternalColorFormat::Rgba8UnormSrgb => Ok(VulkanFormat::R8G8B8A8Srgb),
            InternalColorFormat::Bgra8UnormSrgb => Ok(VulkanFormat::B8G8R8A8Srgb),
            InternalColorFormat::Rgba8Snorm => Ok(VulkanFormat::R8G8B8A8Snorm),
            InternalColorFormat::Bgra8Unorm => Ok(VulkanFormat::B8G8R8A8Unorm),
            InternalColorFormat::Rgba8Uint => Ok(VulkanFormat::R8G8B8A8Uint),
            InternalColorFormat::Rgba8Sint => Ok(VulkanFormat::R8G8B8A8Sint),
            InternalColorFormat::Rgb10a2Unorm => Ok(VulkanFormat::A2B10G10R10UnormPack32),
            InternalColorFormat::Rg11b10Float => Ok(VulkanFormat::B10G11R11UfloatPack32),
            InternalColorFormat::Rg32Uint => Ok(VulkanFormat::R32G32Uint),
            InternalColorFormat::Rg32Sint => Ok(VulkanFormat::R32G32Sint),
            InternalColorFormat::Rg32Float => Ok(VulkanFormat::R32G32Sfloat),
            InternalColorFormat::Rgba16Uint => Ok(VulkanFormat::R16G16B16A16Uint),
            InternalColorFormat::Rgba16Sint => Ok(VulkanFormat::R16G16B16A16Sint),
            InternalColorFormat::Rgba16Unorm => Ok(VulkanFormat::R16G16B16A16Unorm),
            InternalColorFormat::Rgba16Snorm => Ok(VulkanFormat::R16G16B16A16Snorm),
            InternalColorFormat::Rgba16Float => Ok(VulkanFormat::R16G16B16A16Sfloat),
            InternalColorFormat::Rgba32Uint => Ok(VulkanFormat::R32G32B32A32Uint),
            InternalColorFormat::Rgba32Sint => Ok(VulkanFormat::R32G32B32A32Sint),
            InternalColorFormat::Rgba32Float => Ok(VulkanFormat::R32G32B32A32Sfloat),
            InternalColorFormat::Depth32Float => Ok(VulkanFormat::D32Sfloat),
            InternalColorFormat::Depth32FloatStencil8 => Ok(VulkanFormat::D32SfloatS8Uint),
            InternalColorFormat::Depth24PlusStencil8 => Ok(VulkanFormat::D24UnormS8Uint),
            InternalColorFormat::Rgb9e5Ufloat => Ok(VulkanFormat::E5B9G9R9UfloatPack32),
            InternalColorFormat::Bc1RgbaUnorm => Ok(VulkanFormat::Bc1RgbaUnormBlock),
            InternalColorFormat::Bc1RgbaUnormSrgb => Ok(VulkanFormat::Bc1RgbaSrgbBlock),
            InternalColorFormat::Bc2RgbaUnorm => Ok(VulkanFormat::Bc2UnormBlock),
            InternalColorFormat::Bc2RgbaUnormSrgb => Ok(VulkanFormat::Bc2SrgbBlock),
            InternalColorFormat::Bc3RgbaUnorm => Ok(VulkanFormat::Bc3UnormBlock),
            InternalColorFormat::Bc3RgbaUnormSrgb => Ok(VulkanFormat::Bc3SrgbBlock),
            InternalColorFormat::Bc4RUnorm => Ok(VulkanFormat::Bc4UnormBlock),
            InternalColorFormat::Bc4RSnorm => Ok(VulkanFormat::Bc4SnormBlock),
            InternalColorFormat::Bc5RgUnorm => Ok(VulkanFormat::Bc5UnormBlock),
            InternalColorFormat::Bc5RgSnorm => Ok(VulkanFormat::Bc5SnormBlock),
            InternalColorFormat::Bc6hRgbUfloat => Ok(VulkanFormat::Bc6hUfloatBlock),
            InternalColorFormat::Bc6hRgbFloat => Ok(VulkanFormat::Bc6hSfloatBlock),
            InternalColorFormat::Bc7RgbaUnorm => Ok(VulkanFormat::Bc7UnormBlock),
            InternalColorFormat::Bc7RgbaUnormSrgb => Ok(VulkanFormat::Bc7SrgbBlock),
            InternalColorFormat::Depth16Unorm => Ok(VulkanFormat::D16Unorm),
            InternalColorFormat::Depth24Plus => Ok(VulkanFormat::D32Sfloat),
            InternalColorFormat::Etc2Rgb8Unorm => Ok(VulkanFormat::Etc2R8G8B8UnormBlock),
            InternalColorFormat::Etc2Rgb8UnormSrgb => Ok(VulkanFormat::Etc2R8G8B8SrgbBlock),
            InternalColorFormat::Etc2Rgb8A1Unorm => Ok(VulkanFormat::Etc2R8G8B8A1UnormBlock),
            InternalColorFormat::Etc2Rgb8A1UnormSrgb => Ok(VulkanFormat::Etc2R8G8B8A1SrgbBlock),
            InternalColorFormat::Etc2Rgba8Unorm => Ok(VulkanFormat::Etc2R8G8B8A8UnormBlock),
            InternalColorFormat::Etc2Rgba8UnormSrgb => Ok(VulkanFormat::Etc2R8G8B8A8SrgbBlock),
            InternalColorFormat::EacR11Unorm => Ok(VulkanFormat::EacR11UnormBlock),
            InternalColorFormat::EacR11Snorm => Ok(VulkanFormat::EacR11SnormBlock),
            InternalColorFormat::EacRg11Unorm => Ok(VulkanFormat::EacR11G11UnormBlock),
            InternalColorFormat::EacRg11Snorm => Ok(VulkanFormat::EacR11G11SnormBlock),
            InternalColorFormat::Stencil8 => Ok(VulkanFormat::S8Uint),
            _ => Err(UnsupportedFormat),
        }
    }

    pub open spec fn spec_to_dxgi(self) -> Option<DxgiFormat> {
        match self {
            InternalColorFormat::R8Unorm => Some(DxgiFormat::R8Unorm),
            InternalColorFormat::R8Snorm => Some(DxgiFormat::R8Snorm),
            InternalColorFormat::R8Uint => Some(DxgiFormat::R8Uint),
            InternalColorFormat::R8Sint => Some(DxgiFormat::R8Sint),
            InternalColorFormat::R16Uint => Some(DxgiFormat::R16Uint),
            InternalColorFormat::R16Sint => Some(DxgiFormat::R16Sint),
            InternalColorFormat::R16Unorm => Some(DxgiFormat::R16Unorm),
            InternalColorFormat::R16Snorm => Some(DxgiFormat::R16Snorm),
            InternalColorFormat::R16Float => Some(DxgiFormat::R16Float),
            InternalColorFormat::Rg8Unorm => Some(DxgiFormat::R8G8Unorm),
            InternalColorFormat::Rg8Snorm => Some(DxgiFormat::R8G8Snorm),
            InternalColorFormat::Rg8Uint => Some(DxgiFormat::R8G8Uint),
            InternalColorFormat::Rg8Sint => Some(DxgiFormat::R8G8Sint),
            InternalColorFormat::Rg16Unorm => Some(DxgiFormat::R16G16Unorm),
            InternalColorFormat::Rg16Snorm => Some(DxgiFormat::R16G16Snorm),
            InternalColorFormat::R32Uint => Some(DxgiFormat::R32Uint),
            InternalColorFormat::R32Sint => Some(DxgiFormat::R32Sint),
            InternalColorFormat::R32Float => Some(DxgiFormat::R32Float),
            InternalColorFormat::Rg16Uint => Some(DxgiFormat::R16G16Uint),
            InternalColorFormat::Rg16Sint => Some(DxgiFormat::R16G16Sint),
            InternalColorFormat::Rg16Float => Some(DxgiFormat::R16G16Float),
            InternalColorFormat::Rgba8Unorm => Some(DxgiFormat::R8G8B8A8Unorm),
            InternalColorFormat::Rgba8UnormSrgb => Some(DxgiFormat::R8G8B8A8UnormSrgb),
            InternalColorFormat::Bgra8UnormSrgb => Some(DxgiFormat::B8G8R8A8UnormSrgb),
            InternalColorFormat::Rgba8Snorm => Some(DxgiFormat::R8G8B8A8Snorm),
            InternalColorFormat::Bgra8Unorm => Some(DxgiFormat::B8G8R8A8Unorm),
            InternalColorFormat::Rgba8Uint => Some(DxgiFormat::R8G8B8A8Uint),
            InternalColorFormat::Rgba8Sint => Some(DxgiFormat::R8G8B8A8Sint),
            InternalColorFormat::Rgb10a2Unorm => Some(DxgiFormat::R10G10B10A2Unorm),
            InternalColorFormat::Rg11b10Float => Some(DxgiFormat::R11G11B10Float),
            InternalColorFormat::Rg32Uint => Some(DxgiFormat::R32G32Uint),
            InternalColorFormat::Rg32Sint => Some(DxgiFormat::R32G32Sint),
            InternalColorFormat::Rg32Float => Some(DxgiFormat::R32G32Float),
            InternalColorFormat::Rgba16Uint => Some(DxgiFormat::R16G16B16A16Uint),
            InternalColorFormat::Rgba16Sint => Some(DxgiFormat::R16G16B16A16Sint),
            InternalColorFormat::Rgba16Unorm => Some(DxgiFormat::R16G16B16A16Unorm),
            InternalColorFormat::Rgba16Snorm => Some(DxgiFormat::R16G16B16A16Snorm),
            InternalColorFormat::Rgba16Float => Some(DxgiFormat::R16G16B16A16Float),
            InternalColorFormat::Rgba32Uint => Some(DxgiFormat::R32G32B32A32Uint),
            InternalColorFormat::Rgba32Sint => Some(DxgiFormat::R32G32B32A32Sint),
            InternalColorFormat::Rgba32Float => Some(DxgiFormat::R32G32B32A32Float),
            InternalColorFormat::Depth32Float => Some(DxgiFormat::D32Float),
            InternalColorFormat::Depth32FloatStencil8 => Some(DxgiFormat::D32FloatS8X24Uint),
            InternalColorFormat::Depth24PlusStencil8 => Some(DxgiFormat::D24UnormS8Uint),
            InternalColorFormat::Rgb9e5Ufloat => Some(DxgiFormat::R9G9B9E5SharedExp),
            InternalColorFormat::Bc1RgbaUnorm => Some(DxgiFormat::Bc1Unorm),
            InternalColorFormat::Bc1RgbaUnormSrgb => Some(DxgiFormat::Bc1UnormSrgb),
            InternalColorFormat::Bc2RgbaUnorm => Some(DxgiFormat::Bc2Unorm),
            InternalColorFormat::Bc2RgbaUnormSrgb => Some(DxgiFormat::Bc2UnormSrgb),
            InternalColorFormat::Bc3RgbaUnorm => Some(DxgiFormat::Bc3Unorm),
            InternalColorFormat::Bc3RgbaUnormSrgb => Some(DxgiFormat::Bc3UnormSrgb),
            InternalColorFormat::Bc4RUnorm => Some(DxgiFormat::Bc4Unorm),
            InternalColorFormat::Bc4RSnorm => Some(DxgiFormat::Bc4Snorm),
            InternalColorFormat::Bc5RgUnorm => Some(DxgiFormat::Bc5Unorm),
            InternalColorFormat::Bc5RgSnorm => Some(DxgiFormat::Bc5Snorm),
            InternalColorFormat::Bc6hRgbUfloat => Some(DxgiFormat::Bc6hUf16),
            InternalColorFormat::Bc6hRgbFloat => Some(DxgiFormat::Bc6hSf16),
            InternalColorFormat::Bc7RgbaUnorm => Some(DxgiFormat::Bc7Unorm),
            InternalColorFormat::Bc7RgbaUnormSrgb => Some(DxgiFormat::Bc7UnormSrgb),
            InternalColorFormat::Depth16Unorm => Some(DxgiFormat::D16Unorm),
            InternalColorFormat::Ayuv => Some(DxgiFormat::Ayuv),
            InternalColorFormat::Nv12 => Some(DxgiFormat::Nv12),
            InternalColorFormat::Y410 => Some(DxgiFormat::Y410),
            InternalColorFormat::P010 => Some(DxgiFormat::P010),
            _ => None,
        }
    }

    /// Translates into the DXGI space; fails for a format that has no row there.
    pub fn to_dxgi(self) -> (r: Result<DxgiFormat, UnsupportedFormat>)
        ensures
            r matches Ok(v) ==> self.spec_to_dxgi() == Some(v),
            r is Err <==> self.spec_to_dxgi() is None,
    {
        match self {
            InternalColorFormat::R8Unorm => Ok(DxgiFormat::R8Unorm),
            InternalColorFormat::R8Snorm => Ok(DxgiFormat::R8Snorm),
            InternalColorFormat::R8Uint => Ok(DxgiFormat::R8Uint),
            InternalColorFormat::R8Sint => Ok(DxgiFormat::R8Sint),
            InternalColorFormat::R16Uint => Ok(DxgiFormat::R16Uint),
            InternalColorFormat::R16Sint => Ok(DxgiFormat::R16Sint),
            InternalColorFormat::R16Unorm => Ok(DxgiFormat::R16Unorm),
            InternalColorFormat::R16Snorm => Ok(DxgiFormat::R16Snorm),
            InternalColorFormat::R16Float => Ok(DxgiFormat::R16Float),
            InternalColorFormat::Rg8Unorm => Ok(DxgiFormat::R8G8Unorm),
            InternalColorFormat::Rg8Snorm => Ok(DxgiFormat::R8G8Snorm),
            InternalColorFormat::Rg8Uint => Ok(DxgiFormat::R8G8Uint),
            InternalColorFormat::Rg8Sint => Ok(DxgiFormat::R8G8Sint),
            InternalColorFormat::Rg16Unorm => Ok(DxgiFormat::R16G16Unorm),
            InternalColorFormat::Rg16Snorm => Ok(DxgiFormat::R16G16Snorm),
            InternalColorFormat::R32Uint => Ok(DxgiFormat::R32Uint),
            InternalColorFormat::R32Sint => Ok(DxgiFormat::R32Sint),
            InternalColorFormat::R32Float => Ok(DxgiFormat::R32Float),
            InternalColorFormat::Rg16Uint => Ok(DxgiFormat::R16G16Uint),
            InternalColorFormat::Rg16Sint => Ok(DxgiFormat::R16G16Sint),
            InternalColorFormat::Rg16Float => Ok(DxgiFormat::R16G16Float),
            InternalColorFormat::Rgba8Unorm => Ok(DxgiFormat::R8G8B8A8Unorm),
            InternalColorFormat::Rgba8UnormSrgb => Ok(DxgiFormat::R8G8B8A8UnormSrgb),
            InternalColorFormat::Bgra8UnormSrgb => Ok(DxgiFormat::B8G8R8A8UnormSrgb),
            InternalColorFormat::Rgba8Snorm => Ok(DxgiFormat::R8G8B8A8Snorm),
            InternalColorFormat::Bgra8Unorm => Ok(DxgiFormat::B8G8R8A8Unorm),
            InternalColorFormat::Rgba8Uint => Ok(DxgiFormat::R8G8B8A8Uint),
            InternalColorFormat::Rgba8Sint => Ok(DxgiFormat::R8G8B8A8Sint),
            InternalColorFormat::Rgb10a2Unorm => Ok(DxgiFormat::R10G10B10A2Unorm),
            InternalColorFormat::Rg11b10Float => Ok(DxgiFormat::R11G11B10Float),
            InternalColorFormat::Rg32Uint => Ok(DxgiFormat::R32G32Uint),
            InternalColorFormat::Rg32Sint => Ok(DxgiFormat::R32G32Sint),
            InternalColorFormat::Rg32Float => Ok(DxgiFormat::R32G32Float),
            InternalColorFormat::Rgba16Uint => Ok(DxgiFormat::R16G16B16A16Uint),
            InternalColorFormat::Rgba16Sint => Ok(DxgiFormat::R16G16B16A16Sint),
            InternalColorFormat::Rgba16Unorm => Ok(DxgiFormat::R16G16B16A16Unorm),
            InternalColorFormat::Rgba16Snorm => Ok(DxgiFormat::R16G16B16A16Snorm),
            InternalColorFormat::Rgba16Float => Ok(DxgiFormat::R16G16B16A16Float),
            InternalColorFormat::Rgba32Uint => Ok(DxgiFormat::R32G32B32A32Uint),
            InternalColorFormat::Rgba32Sint => Ok(DxgiFormat::R32G32B32A32Sint),
            InternalColorFormat::Rgba32Float => Ok(DxgiFormat::R32G32B32A32Float),
            InternalColorFormat::Depth32Float => Ok(DxgiFormat::D32Float),
            InternalColorFormat::Depth32FloatStencil8 => Ok(DxgiFormat::D32FloatS8X24Uint),
            InternalColorFormat::Depth24PlusStencil8 => Ok(DxgiFormat::D24UnormS8Uint),
            InternalColorFormat::Rgb9e5Ufloat => Ok(DxgiFormat::R9G9B9E5SharedExp),
            InternalColorFormat::Bc1RgbaUnorm => Ok(DxgiFormat::Bc1Unorm),
            InternalColorFormat::Bc1RgbaUnormSrgb => Ok(DxgiFormat::Bc1UnormSrgb),
            InternalColorFormat::Bc2RgbaUnorm => Ok(DxgiFormat::Bc2Unorm),
            InternalColorFormat::Bc2RgbaUnormSrgb => Ok(DxgiFormat::Bc2UnormSrgb),
            InternalColorFormat::Bc3RgbaUnorm => Ok(DxgiFormat::Bc3Unorm),
            InternalColorFormat::Bc3RgbaUnormSrgb => Ok(DxgiFormat::Bc3UnormSrgb),
            InternalColorFormat::Bc4RUnorm => Ok(DxgiFormat::Bc4Unorm),
            InternalColorFormat::Bc4RSnorm => Ok(DxgiFormat::Bc4Snorm),
            InternalColorFormat::Bc5RgUnorm => Ok(DxgiFormat::Bc5Unorm),
            InternalColorFormat::Bc5RgSnorm => Ok(DxgiFormat::Bc5Snorm),
            InternalColorFormat::Bc6hRgbUfloat => Ok(DxgiFormat::Bc6hUf16),
            InternalColorFormat::Bc6hRgbFloat => Ok(DxgiFormat::Bc6hSf16),
            InternalColorFormat::Bc7RgbaUnorm => Ok(DxgiFormat::Bc7Unorm),
            InternalColorFormat::Bc7RgbaUnormSrgb => Ok(DxgiFormat::Bc7UnormSrgb),
            InternalColorFormat::Depth16Unorm => Ok(DxgiFormat::D16Unorm),
            InternalColorFormat::Ayuv => Ok(DxgiFormat::Ayuv),
            InternalColorFormat::Nv12 => Ok(DxgiFormat::Nv12),
            InternalColorFormat::Y410 => Ok(DxgiFormat::Y410),
            InternalColorFormat::P010 => Ok(DxgiFormat::P010),
            _ => Err(UnsupportedFormat),
        }
    }

    pub open spec fn spec_to_capture(self) -> Option<CaptureColorFormat> {
        match self {
            InternalColorFormat::R8Unorm => Some(CaptureColorFormat::YUV444),
            InternalColorFormat::R16Unorm => Some(CaptureColorFormat::YUV444_10bit),
            InternalColorFormat::Rgba8Unorm => Some(CaptureColorFormat::ARGB8UNorm),
            InternalColorFormat::Bgra8Unorm => Some(CaptureColorFormat::BGRA8UNorm),
            InternalColorFormat::Rgb10a2Unorm => Some(CaptureColorFormat::ARGB10UNorm),
            InternalColorFormat::Rgba16Float => Some(CaptureColorFormat::ARGB16Float),
            InternalColorFormat::Ayuv => Some(CaptureColorFormat::AYUV),
            InternalColorFormat::Nv12 => Some(CaptureColorFormat::NV12),
            InternalColorFormat::Y410 => Some(CaptureColorFormat::Y410),
            InternalColorFormat::P010 => Some(CaptureColorFormat::YUV420_10bit),
            _ => None,
        }
    }

    /// Translates into the capture API's space; fails for a format that has no row there.
    pub fn to_capture(self) -> (r: Result<CaptureColorFormat, UnsupportedFormat>)
        ensures
            r matches Ok(v) ==> self.spec_to_capture() == Some(v),
            r is Err <==> self.spec_to_capture() is None,
    {
        match self {
            InternalColorFormat::R8Unorm => Ok(CaptureColorFormat::YUV444),
            InternalColorFormat::R16Unorm => Ok(CaptureColorFormat::YUV444_10bit),
            InternalColorFormat::Rgba8Unorm => Ok(CaptureColorFormat::ARGB8UNorm),
            InternalColorFormat::Bgra8Unorm => Ok(CaptureColorFormat::BGRA8UNorm),
            InternalColorFormat::Rgb10a2Unorm => Ok(CaptureColorFormat::ARGB10UNorm),
            InternalColorFormat::Rgba16Float => Ok(CaptureColorFormat::ARGB16Float),
            InternalColorFormat::Ayuv => Ok(CaptureColorFormat::AYUV),
            InternalColorFormat::Nv12 => Ok(CaptureColorFormat::NV12),
            InternalColorFormat::Y410 => Ok(CaptureColorFormat::Y410),
            InternalColorFormat::P010 => Ok(CaptureColorFormat::YUV420_10bit),
            _ => Err(UnsupportedFormat),
        }
    }
}

impl TextureFormat {
    pub open spec fn spec_to_internal(self) -> Option<InternalColorFormat> {
        match self {
            TextureFormat::R8Unorm => Some(InternalColorFormat::R8Unorm),
            TextureFormat::R8Snorm => Some(InternalColorFormat::R8Snorm),
            TextureFormat::R8Uint => Some(InternalColorFormat::R8Uint),
            TextureFormat::R8Sint => Some(InternalColorFormat::R8Sint),
            TextureFormat::R16Uint => Some(InternalColorFormat::R16Uint),
            TextureFormat::R16Sint => Some(InternalColorFormat::R16Sint),
            TextureFormat::R16Unorm => Some(InternalColorFormat::R16Unorm),
            TextureFormat::R16Snorm => Some(InternalColorFormat::R16Snorm),
            TextureFormat::R16Float => Some(InternalColorFormat::R16Float),
            TextureFormat::Rg8Unorm => Some(InternalColorFormat::Rg8Unorm),
            TextureFormat::Rg8Snorm => Some(InternalColorFormat::Rg8Snorm),
            TextureFormat::Rg8Uint => Some(InternalColorFormat::Rg8Uint),
            TextureFormat::Rg8Sint => Some(InternalColorFormat::Rg8Sint),
            TextureFormat::Rg16Unorm => Some(InternalColorFormat::Rg16Unorm),
            TextureFormat::Rg16Snorm => Some(InternalColorFormat::Rg16Snorm),
            TextureFormat::R32Uint => Some(InternalColorFormat::R32Uint),
            TextureFormat::R32Sint => Some(InternalColorFormat::R32Sint),
            TextureFormat::R32Float => Some(InternalColorFormat::R32Float),
            TextureFormat::Rg16Uint => Some(InternalColorFormat::Rg16Uint),
            TextureFormat::Rg16Sint => Some(InternalColorFormat::Rg16Sint),
            TextureFormat::Rg16Float => Some(InternalColorFormat::Rg16Float),
            TextureFormat::Rgba8Unorm => Some(InternalColorFormat::Rgba8Unorm),
            TextureFormat::Rgba8UnormSrgb => Some(InternalColorFormat::Rgba8UnormSrgb),
            TextureFormat::Bgra8UnormSrgb => Some(InternalColorFormat::Bgra8UnormSrgb),
            TextureFormat::Rgba8Snorm => Some(InternalColorFormat::Rgba8Snorm),
            TextureFormat::Bgra8Unorm => Some(InternalColorFormat::Bgra8Unorm),
            TextureFormat::Rgba8Uint => Some(InternalColorFormat::Rgba8Uint),
            TextureFormat::Rgba8Sint => Some(InternalColorFormat::Rgba8Sint),
            TextureFormat::Rgb10a2Unorm => Some(InternalColorFormat::Rgb10a2Unorm),
            TextureFormat::Rg11b10Float => Some(InternalColorFormat::Rg11b10Float),
            TextureFormat::Rg32Uint => Some(InternalColorFormat::Rg32Uint),
            TextureFormat::Rg32Sint => Some(InternalColorFormat::Rg32Sint),
            TextureFormat::Rg32Float => Some(InternalColorFormat::Rg32Float),
            TextureFormat::Rgba16Uint => Some(InternalColorFormat::Rgba16Uint),
            TextureFormat::Rgba16Sint => Some(InternalColorFormat::Rgba16Sint),
            TextureFormat::Rgba16Unorm => Some(InternalColorFormat::Rgba16Unorm),
            TextureFormat::Rgba16Snorm => Some(InternalColorFormat::Rgba16Snorm),
            TextureFormat::Rgba16Float => Some(InternalColorFormat::Rgba16Float),
            TextureFormat::Rgba32Uint => Some(InternalColorFormat::Rgba32Uint),
            TextureFormat::Rgba32Sint => Some(InternalColorFormat::Rgba32Sint),
            TextureFormat::Rgba32Float => Some(InternalColorFormat::Rgba32Float),
            TextureFormat::Depth32Float => Some(InternalColorFormat::Depth32Float),
            TextureFormat::Depth32FloatStencil8 => Some(InternalColorFormat::Depth32FloatStencil8),
            TextureFormat::Depth24PlusStencil8 => Some(InternalColorFormat::Depth24PlusStencil8),
            TextureFormat::Rgb9e5Ufloat => Some(InternalColorFormat::Rgb9e5Ufloat),
            TextureFormat::Bc1RgbaUnorm => Some(InternalColorFormat::Bc1RgbaUnorm),
            TextureFormat::Bc1RgbaUnormSrgb => Some(InternalColorFormat::Bc1RgbaUnormSrgb),
            TextureFormat::Bc2RgbaUnorm => Some(InternalColorFormat::Bc2RgbaUnorm),
            TextureFormat::Bc2RgbaUnormSrgb => Some(InternalColorFormat::Bc2RgbaUnormSrgb),
            TextureFormat::Bc3RgbaUnorm => Some(InternalColorFormat::Bc3RgbaUnorm),
            TextureFormat::Bc3RgbaUnormSrgb => Some(InternalColorFormat::Bc3RgbaUnormSrgb),
            TextureFormat::Bc4RUnorm => Some(InternalColorFormat::Bc4RUnorm),
            TextureFormat::Bc4RSnorm => Some(InternalColorFormat::Bc4RSnorm),
            TextureFormat::Bc5RgUnorm => Some(InternalColorFormat::Bc5RgUnorm),
            TextureFormat::Bc5RgSnorm => Some(InternalColorFormat::Bc5RgSnorm),
            TextureFormat::Bc6hRgbUfloat => Some(InternalColorFormat::Bc6hRgbUfloat),
            TextureFormat::Bc6hRgbFloat => Some(InternalColorFormat::Bc6hRgbFloat),
            TextureFormat::Bc7RgbaUnorm => Some(InternalColorFormat::Bc7RgbaUnorm),
            TextureFormat::Bc7RgbaUnormSrgb => Some(InternalColorFormat::Bc7RgbaUnormSrgb),
            TextureFormat::Depth16Unorm => Some(InternalColorFormat::Depth16Unorm),
        }
    }

    /// Translates back into the neutral space.
    pub fn to_internal(self) -> (r: Result<InternalColorFormat, UnsupportedFormat>)
        ensures
            r matches Ok(v) ==> self.spec_to_internal() == Some(v),
            r is Err <==> self.spec_to_internal() is None,
    {
        match self {
            TextureFormat::R8Unorm => Ok(InternalColorFormat::R8Unorm),
            TextureFormat::R8Snorm => Ok(InternalColorFormat::R8Snorm),
            TextureFormat::R8Uint => Ok(InternalColorFormat::R8Uint),
            TextureFormat::R8Sint => Ok(InternalColorFormat::R8Sint),
            TextureFormat::R16Uint => Ok(InternalColorFormat::R16Uint),
            TextureFormat::R16Sint => Ok(InternalColorFormat::R16Sint),
            TextureFormat::R16Unorm => Ok(InternalColorFormat::R16Unorm),
            TextureFormat::R16Snorm => Ok(InternalColorFormat::R16Snorm),
            TextureFormat::R16Float => Ok(InternalColorFormat::R16Float),
            TextureFormat::Rg8Unorm => Ok(InternalColorFormat::Rg8Unorm),
            TextureFormat::Rg8Snorm => Ok(InternalColorFormat::Rg8Snorm),
            TextureFormat::Rg8Uint => Ok(InternalColorFormat::Rg8Uint),
            TextureFormat::Rg8Sint => Ok(InternalColorFormat::Rg8Sint),
            TextureFormat::Rg16Unorm => Ok(InternalColorFormat::Rg16Unorm),
            TextureFormat::Rg16Snorm => Ok(InternalColorFormat::Rg16Snorm),
            TextureFormat::R32Uint => Ok(InternalColorFormat::R32Uint),
            TextureFormat::R32Sint => Ok(InternalColorFormat::R32Sint),
            TextureFormat::R32Float => Ok(InternalColorFormat::R32Float),
            TextureFormat::Rg16Uint => Ok(InternalColorFormat::Rg16Uint),
            TextureFormat::Rg16Sint => Ok(InternalColorFormat::Rg16Sint),
            TextureFormat::Rg16Float => Ok(InternalColorFormat::Rg16Float),
            TextureFormat::Rgba8Unorm => Ok(InternalColorFormat::Rgba8Unorm),
            TextureFormat::Rgba8UnormSrgb => Ok(InternalColorFormat::Rgba8UnormSrgb),
            TextureFormat::Bgra8UnormSrgb => Ok(InternalColorFormat::Bgra8UnormSrgb),
            TextureFormat::Rgba8Snorm => Ok(InternalColorFormat::Rgba8Snorm),
            TextureFormat::Bgra8Unorm => Ok(InternalColorFormat::Bgra8Unorm),
            TextureFormat::Rgba8Uint => Ok(InternalColorFormat::Rgba8Uint),
            TextureFormat::Rgba8Sint => Ok(InternalColorFormat::Rgba8Sint),
            TextureFormat::Rgb10a2Unorm => Ok(InternalColorFormat::Rgb10a2Unorm),
            TextureFormat::Rg11b10Float => Ok(InternalColorFormat::Rg11b10Float),
            TextureFormat::Rg32Uint => Ok(InternalColorFormat::Rg32Uint),
            TextureFormat::Rg32Sint => Ok(InternalColorFormat::Rg32Sint),
            TextureFormat::Rg32Float => Ok(InternalColorFormat::Rg32Float),
            TextureFormat::Rgba16Uint => Ok(InternalColorFormat::Rgba16Uint),
            TextureFormat::Rgba16Sint => Ok(InternalColorFormat::Rgba16Sint),
            TextureFormat::Rgba16Unorm => Ok(InternalColorFormat::Rgba16Unorm),
            TextureFormat::Rgba16Snorm => Ok(InternalColorFormat::Rgba16Snorm),
            TextureFormat::Rgba16Float => Ok(InternalColorFormat::Rgba16Float),
            TextureFormat::Rgba32Uint => Ok(InternalColorFormat::Rgba32Uint),
            TextureFormat::Rgba32Sint => Ok(InternalColorFormat::Rgba32Sint),
            TextureFormat::Rgba32Float => Ok(InternalColorFormat::Rgba32Float),
            TextureFormat::Depth32Float => Ok(InternalColorFormat::Depth32Float),
            TextureFormat::Depth32FloatStencil8 => Ok(InternalColorFormat::Depth32FloatStencil8),
            TextureFormat::Depth24PlusStencil8 => Ok(InternalColorFormat::Depth24PlusStencil8),
            TextureFormat::Rgb9e5Ufloat => Ok(InternalColorFormat::Rgb9e5Ufloat),
            TextureFormat::Bc1RgbaUnorm => Ok(InternalColorFormat::Bc1RgbaUnorm),
            TextureFormat::Bc1RgbaUnormSrgb => Ok(InternalColorFormat::Bc1RgbaUnormSrgb),
            TextureFormat::Bc2RgbaUnorm => Ok(InternalColorFormat::Bc2RgbaUnorm),
            TextureFormat::Bc2RgbaUnormSrgb => Ok(InternalColorFormat::Bc2RgbaUnormSrgb),
            TextureFormat::Bc3RgbaUnorm => Ok(InternalColorFormat::Bc3RgbaUnorm),
            TextureFormat::Bc3RgbaUnormSrgb => Ok(InternalColorFormat::Bc3RgbaUnormSrgb),
            TextureFormat::Bc4RUnorm => Ok(InternalColorFormat::Bc4RUnorm),
            TextureFormat::Bc4RSnorm => Ok(InternalColorFormat::Bc4RSnorm),
            TextureFormat::Bc5RgUnorm => Ok(InternalColorFormat::Bc5RgUnorm),
            TextureFormat::Bc5RgSnorm => Ok(InternalColorFormat::Bc5RgSnorm),
            TextureFormat::Bc6hRgbUfloat => Ok(InternalColorFormat::Bc6hRgbUfloat),
            TextureFormat::Bc6hRgbFloat => Ok(InternalColorFormat::Bc6hRgbFloat),
            TextureFormat::Bc7RgbaUnorm => Ok(InternalColorFormat::Bc7RgbaUnorm),
            TextureFormat::Bc7RgbaUnormSrgb => Ok(InternalColorFormat::Bc7RgbaUnormSrgb),
            TextureFormat::Depth16Unorm => Ok(InternalColorFormat::Depth16Unorm),
        }
    }
}

impl VulkanFormat {
    pub open spec fn spec_to_internal(self) -> Option<InternalColorFormat> {
        match self {
            VulkanFormat::R8Unorm => Some(InternalColorFormat::R8Unorm),
            VulkanFormat::R8Snorm => Some(InternalColorFormat::R8Snorm),
            VulkanFormat::R8Uint => Some(InternalColorFormat::R8Uint),
            VulkanFormat::R8Sint => Some(InternalColorFormat::R8Sint),
            VulkanFormat::R16Uint => Some(InternalColorFormat::R16Uint),
            VulkanFormat::R16Sint => Some(InternalColorFormat::R16Sint),
            VulkanFormat::R16Unorm => Some(InternalColorFormat::R16Unorm),
            VulkanFormat::R16Snorm => Some(InternalColorFormat::R16Snorm),
            VulkanFormat::R16Sfloat => Some(InternalColorFormat::R16Float),
            VulkanFormat::R8G8Unorm => Some(InternalColorFormat::Rg8Unorm),
            VulkanFormat::R8G8Snorm => Some(InternalColorFormat::Rg8Snorm),
            VulkanFormat::R8G8Uint => Some(InternalColorFormat::Rg8Uint),
            VulkanFormat::R8G8Sint => Some(InternalColorFormat::Rg8Sint),
            VulkanFormat::R16G16Unorm => Some(InternalColorFormat::Rg16Unorm),
            VulkanFormat::R16G16Snorm => Some(InternalColorFormat::Rg16Snorm),
            VulkanFormat::R32Uint => Some(InternalColorFormat::R32Uint),
            VulkanFormat::R32Sint => Some(InternalColorFormat::R32Sint),
            VulkanFormat::R32Sfloat => Some(InternalColorFormat::R32Float),
            VulkanFormat::R16G16Uint => Some(InternalColorFormat::Rg16Uint),
            VulkanFormat::R16G16Sint => Some(InternalColorFormat::Rg16Sint),
            VulkanFormat::R16G16Sfloat => Some(InternalColorFormat::Rg16Float),
            VulkanFormat::R8G8B8A8Unorm => Some(InternalColorFormat::Rgba8Unorm),
            VulkanFormat::R8G8B8A8Srgb => Some(InternalColorFormat::Rgba8UnormSrgb),
            VulkanFormat::B8G8R8A8Srgb => Some(InternalColorFormat::Bgra8UnormSrgb),
            VulkanFormat::R8G8B8A8Snorm => Some(InternalColorFormat::Rgba8Snorm),
            VulkanFormat::B8G8R8A8Unorm => Some(InternalColorFormat::Bgra8Unorm),
            VulkanFormat::R8G8B8A8Uint => Some(InternalColorFormat::Rgba8Uint),
            VulkanFormat::R8G8B8A8Sint => Some(InternalColorFormat::Rgba8Sint),
            VulkanFormat::A2B10G10R10UnormPack32 => Some(InternalColorFormat::Rgb10a2Unorm),
            VulkanFormat::B10G11R11UfloatPack32 => Some(InternalColorFormat::Rg11b10Float),
            VulkanFormat::R32G32Uint => Some(InternalColorFormat::Rg32Uint),
            VulkanFormat::R32G32Sint => Some(InternalColorFormat::Rg32Sint),
            VulkanFormat::R32G32Sfloat => Some(InternalColorFormat::Rg32Float),
            VulkanFormat::R16G16B16A16Uint => Some(InternalColorFormat::Rgba16Uint),
            VulkanFormat::R16G16B16A16Sint => Some(InternalColorFormat::Rgba16Sint),
            VulkanFormat::R16G16B16A16Unorm => Some(InternalColorFormat::Rgba16Unorm),
            VulkanFormat::R16G16B16A16Snorm => Some(InternalColorFormat::Rgba16Snorm),
            VulkanFormat::R16G16B16A16Sfloat => Some(InternalColorFormat::Rgba16Float),
            VulkanFormat::R32G32B32A32Uint => Some(InternalColorFormat::Rgba32Uint),
            VulkanFormat::R32G32B32A32Sint => Some(InternalColorFormat::Rgba32Sint),
            VulkanFormat::R32G32B32A32Sfloat => Some(InternalColorFormat::Rgba32Float),
            VulkanFormat::D32Sfloat => Some(InternalColorFormat::Depth32Float),
            VulkanFormat::D32SfloatS8Uint => Some(InternalColorFormat::Depth32FloatStencil8),
            VulkanFormat::D24UnormS8Uint => Some(InternalColorFormat::Depth24PlusStencil8),
            VulkanFormat::D16Unorm => Some(InternalColorFormat::Depth16Unorm),
            VulkanFormat::E5B9G9R9UfloatPack32 => Some(InternalColorFormat::Rgb9e5Ufloat),
            VulkanFormat::Bc1RgbaUnormBlock => Some(InternalColorFormat::Bc1RgbaUnorm),
            VulkanFormat::Bc1RgbaSrgbBlock => Some(InternalColorFormat::Bc1RgbaUnormSrgb),
            VulkanFormat::Bc2UnormBlock => Some(InternalColorFormat::Bc2RgbaUnorm),
            VulkanFormat::Bc2SrgbBlock => Some(InternalColorFormat::Bc2RgbaUnormSrgb),
            VulkanFormat::Bc3UnormBlock => Some(InternalColorFormat::Bc3RgbaUnorm),
            VulkanFormat::Bc3SrgbBlock => Some(InternalColorFormat::Bc3RgbaUnormSrgb),
            VulkanFormat::Bc4UnormBlock => Some(InternalColorFormat::Bc4RUnorm),
            VulkanFormat::Bc4SnormBlock => Some(InternalColorFormat::Bc4RSnorm),
            VulkanFormat::Bc5UnormBlock => Some(InternalColorFormat::Bc5RgUnorm),
            VulkanFormat::Bc5SnormBlock => Some(InternalColorFormat::Bc5RgSnorm),
            VulkanFormat::Bc6hUfloatBlock => Some(InternalColorFormat::Bc6hRgbUfloat),
            VulkanFormat::Bc6hSfloatBlock => Some(InternalColorFormat::Bc6hRgbFloat),
            VulkanFormat::Bc7UnormBlock => Some(InternalColorFormat::Bc7RgbaUnorm),
            VulkanFormat::Bc7SrgbBlock => Some(InternalColorFormat::Bc7RgbaUnormSrgb),
            VulkanFormat::Etc2R8G8B8UnormBlock => Some(InternalColorFormat::Etc2Rgb8Unorm),
            VulkanFormat::Etc2R8G8B8SrgbBlock => Some(InternalColorFormat::Etc2Rgb8UnormSrgb),
            VulkanFormat::Etc2R8G8B8A1UnormBlock => Some(InternalColorFormat::Etc2Rgb8A1Unorm),
            VulkanFormat::Etc2R8G8B8A1SrgbBlock => Some(InternalColorFormat::Etc2Rgb8A1UnormSrgb),
            VulkanFormat::Etc2R8G8B8A8UnormBlock => Some(InternalColorFormat::Etc2Rgba8Unorm),
            VulkanFormat::Etc2R8G8B8A8SrgbBlock => Some(InternalColorFormat::Etc2Rgba8UnormSrgb),
            VulkanFormat::EacR11UnormBlock => Some(InternalColorFormat::EacR11Unorm),
            VulkanFormat::EacR11SnormBlock => Some(InternalColorFormat::EacR11Snorm),
            VulkanFormat::EacR11G11UnormBlock => Some(InternalColorFormat::EacRg11Unorm),
            VulkanFormat::EacR11G11SnormBlock => Some(InternalColorFormat::EacRg11Snorm),
            VulkanFormat::S8Uint => Some(InternalColorFormat::Stencil8),
        }
    }

    /// Translates back into the neutral space.
    pub fn to_internal(self) -> (r: Result<InternalColorFormat, UnsupportedFormat>)
        ensures
            r matches Ok(v) ==> self.spec_to_internal() == Some(v),
            r is Err <==> self.spec_to_internal() is None,
    {
        match self {
            VulkanFormat::R8Unorm => Ok(InternalColorFormat::R8Unorm),
            VulkanFormat::R8Snorm => Ok(InternalColorFormat::R8Snorm),
            VulkanFormat::R8Uint => Ok(InternalColorFormat::R8Uint),
            VulkanFormat::R8Sint => Ok(InternalColorFormat::R8Sint),
            VulkanFormat::R16Uint => Ok(InternalColorFormat::R16Uint),
            VulkanFormat::R16Sint => Ok(InternalColorFormat::R16Sint),
            VulkanFormat::R16Unorm => Ok(InternalColorFormat::R16Unorm),
            VulkanFormat::R16Snorm => Ok(InternalColorFormat::R16Snorm),
            VulkanFormat::R16Sfloat => Ok(InternalColorFormat::R16Float),
            VulkanFormat::R8G8Unorm => Ok(InternalColorFormat::Rg8Unorm),
            VulkanFormat::R8G8Snorm => Ok(InternalColorFormat::Rg8Snorm),
            VulkanFormat::R8G8Uint => Ok(InternalColorFormat::Rg8Uint),
            VulkanFormat::R8G8Sint => Ok(InternalColorFormat::Rg8Sint),
            VulkanFormat::R16G16Unorm => Ok(InternalColorFormat::Rg16Unorm),
            VulkanFormat::R16G16Snorm => Ok(InternalColorFormat::Rg16Snorm),
            VulkanFormat::R32Uint => Ok(InternalColorFormat::R32Uint),
            VulkanFormat::R32Sint => Ok(InternalColorFormat::R32Sint),
            VulkanFormat::R32Sfloat => Ok(InternalColorFormat::R32Float),
            VulkanFormat::R16G16Uint => Ok(InternalColorFormat::Rg16Uint),
            VulkanFormat::R16G16Sint => Ok(InternalColorFormat::Rg16Sint),
            VulkanFormat::R16G16Sfloat => Ok(InternalColorFormat::Rg16Float),
            VulkanFormat::R8G8B8A8Unorm => Ok(InternalColorFormat::Rgba8Unorm),
            VulkanFormat::R8G8B8A8Srgb => Ok(InternalColorFormat::Rgba8UnormSrgb),
            VulkanFormat::B8G8R8A8Srgb => Ok(InternalColorFormat::Bgra8UnormSrgb),
            VulkanFormat::R8G8B8A8Snorm => Ok(InternalColorFormat::Rgba8Snorm),
            VulkanFormat::B8G8R8A8Unorm => Ok(InternalColorFormat::Bgra8Unorm),
            VulkanFormat::R8G8B8A8Uint => Ok(InternalColorFormat::Rgba8Uint),
            VulkanFormat::R8G8B8A8Sint => Ok(InternalColorFormat::Rgba8Sint),
            VulkanFormat::A2B10G10R10UnormPack32 => Ok(InternalColorFormat::Rgb10a2Unorm),
            VulkanFormat::B10G11R11UfloatPack32 => Ok(InternalColorFormat::Rg11b10Float),
            VulkanFormat::R32G32Uint => Ok(InternalColorFormat::Rg32Uint),
            VulkanFormat::R32G32Sint => Ok(InternalColorFormat::Rg32Sint),
            VulkanFormat::R32G32Sfloat => Ok(InternalColorFormat::Rg32Float),
            VulkanFormat::R16G16B16A16Uint => Ok(InternalColorFormat::Rgba16Uint),
            VulkanFormat::R16G16B16A16Sint => Ok(InternalColorFormat::Rgba16Sint),
            VulkanFormat::R16G16B16A16Unorm => Ok(InternalColorFormat::Rgba16Unorm),
            VulkanFormat::R16G16B16A16Snorm => Ok(InternalColorFormat::Rgba16Snorm),
            VulkanFormat::R16G16B16A16Sfloat => Ok(InternalColorFormat::Rgba16Float),
            VulkanFormat::R32G32B32A32Uint => Ok(InternalColorFormat::Rgba32Uint),
            VulkanFormat::R32G32B32A32Sint => Ok(InternalColorFormat::Rgba32Sint),
            VulkanFormat::R32G32B32A32Sfloat => Ok(InternalColorFormat::Rgba32Float),
            VulkanFormat::D32Sfloat => Ok(InternalColorFormat::Depth32Float),
            VulkanFormat::D32SfloatS8Uint => Ok(InternalColorFormat::Depth32FloatStencil8),
            VulkanFormat::D24UnormS8Uint => Ok(InternalColorFormat::Depth24PlusStencil8),
            VulkanFormat::D16Unorm => Ok(InternalColorFormat::Depth16Unorm),
            VulkanFormat::E5B9G9R9UfloatPack32 => Ok(InternalColorFormat::Rgb9e5Ufloat),
            VulkanFormat::Bc1RgbaUnormBlock => Ok(InternalColorFormat::Bc1RgbaUnorm),
            VulkanFormat::Bc1RgbaSrgbBlock => Ok(InternalColorFormat::Bc1RgbaUnormSrgb),
            VulkanFormat::Bc2UnormBlock => Ok(InternalColorFormat::Bc2RgbaUnorm),
            VulkanFormat::Bc2SrgbBlock => Ok(InternalColorFormat::Bc2RgbaUnormSrgb),
            VulkanFormat::Bc3UnormBlock => Ok(InternalColorFormat::Bc3RgbaUnorm),
            VulkanFormat::Bc3SrgbBlock => Ok(InternalColorFormat::Bc3RgbaUnormSrgb),
            VulkanFormat::Bc4UnormBlock => Ok(InternalColorFormat::Bc4RUnorm),
            VulkanFormat::Bc4SnormBlock => Ok(InternalColorFormat::Bc4RSnorm),
            VulkanFormat::Bc5UnormBlock => Ok(InternalColorFormat::Bc5RgUnorm),
            VulkanFormat::Bc5SnormBlock => Ok(InternalColorFormat::Bc5RgSnorm),
            VulkanFormat::Bc6hUfloatBlock => Ok(InternalColorFormat::Bc6hRgbUfloat),
            VulkanFormat::Bc6hSfloatBlock => Ok(InternalColorFormat::Bc6hRgbFloat),
            VulkanFormat::Bc7UnormBlock => Ok(InternalColorFormat::Bc7RgbaUnorm),
            VulkanFormat::Bc7SrgbBlock => Ok(InternalColorFormat::Bc7RgbaUnormSrgb),
            VulkanFormat::Etc2R8G8B8UnormBlock => Ok(InternalColorFormat::Etc2Rgb8Unorm),
            VulkanFormat::Etc2R8G8B8SrgbBlock => Ok(InternalColorFormat::Etc2Rgb8UnormSrgb),
            VulkanFormat::Etc2R8G8B8A1UnormBlock => Ok(InternalColorFormat::Etc2Rgb8A1Unorm),
            VulkanFormat::Etc2R8G8B8A1SrgbBlock => Ok(InternalColorFormat::Etc2Rgb8A1UnormSrgb),
            VulkanFormat::Etc2R8G8B8A8UnormBlock => Ok(InternalColorFormat::Etc2Rgba8Unorm),
            VulkanFormat::Etc2R8G8B8A8SrgbBlock => Ok(InternalColorFormat::Etc2Rgba8UnormSrgb),
            VulkanFormat::EacR11UnormBlock => Ok(InternalColorFormat::EacR11Unorm),
            VulkanFormat::EacR11SnormBlock => Ok(InternalColorFormat::EacR11Snorm),
            VulkanFormat::EacR11G11UnormBlock => Ok(InternalColorFormat::EacRg11Unorm),
            VulkanFormat::EacR11G11SnormBlock => Ok(InternalColorFormat::EacRg11Snorm),
            VulkanFormat::S8Uint => Ok(InternalColorFormat::Stencil8),
        }
    }
}

impl DxgiFormat {
    pub open spec fn spec_to_internal(self) -> Option<InternalColorFormat> {
        match self {
            DxgiFormat::R8Unorm => Some(InternalColorFormat::R8Unorm),
            DxgiFormat::R8Snorm => Some(InternalColorFormat::R8Snorm),
            DxgiFormat::R8Uint => Some(InternalColorFormat::R8Uint),
            DxgiFormat::R8Sint => Some(InternalColorFormat::R8Sint),
            DxgiFormat::R16Uint => Some(InternalColorFormat::R16Uint),
            DxgiFormat::R16Sint => Some(InternalColorFormat::R16Sint),
            DxgiFormat::R16Unorm => Some(InternalColorFormat::R16Unorm),
            DxgiFormat::R16Snorm => Some(InternalColorFormat::R16Snorm),
            DxgiFormat::R16Float => Some(InternalColorFormat::R16Float),
            DxgiFormat::R8G8Unorm => Some(InternalColorFormat::Rg8Unorm),
            DxgiFormat::R8G8Snorm => Some(InternalColorFormat::Rg8Snorm),
            DxgiFormat::R8G8Uint => Some(InternalColorFormat::Rg8Uint),
            DxgiFormat::R8G8Sint => Some(InternalColorFormat::Rg8Sint),
            DxgiFormat::R16G16Unorm => Some(InternalColorFormat::Rg16Unorm),
            DxgiFormat::R16G16Snorm => Some(InternalColorFormat::Rg16Snorm),
            DxgiFormat::R32Uint => Some(InternalColorFormat::R32Uint),
            DxgiFormat::R32Sint => Some(InternalColorFormat::R32Sint),
            DxgiFormat::R32Float => Some(InternalColorFormat::R32Float),
            DxgiFormat::R16G16Uint => Some(InternalColorFormat::Rg16Uint),
            DxgiFormat::R16G16Sint => Some(InternalColorFormat::Rg16Sint),
            DxgiFormat::R16G16Float => Some(InternalColorFormat::Rg16Float),
            DxgiFormat::R8G8B8A8Unorm => Some(InternalColorFormat::Rgba8Unorm),
            DxgiFormat::R8G8B8A8Typeless => Some(InternalColorFormat::Rgba8Unorm),
            DxgiFormat::R8G8B8A8UnormSrgb => Some(InternalColorFormat::Rgba8UnormSrgb),
            DxgiFormat::B8G8R8A8UnormSrgb => Some(InternalColorFormat::Bgra8UnormSrgb),
            DxgiFormat::R8G8B8A8Snorm => Some(InternalColorFormat::Rgba8Snorm),
            DxgiFormat::B8G8R8A8Unorm => Some(InternalColorFormat::Bgra8Unorm),
            DxgiFormat::R8G8B8A8Uint => Some(InternalColorFormat::Rgba8Uint),
            DxgiFormat::R8G8B8A8Sint => Some(InternalColorFormat::Rgba8Sint),
            DxgiFormat::R10G10B10A2Unorm => Some(InternalColorFormat::Rgb10a2Unorm),
            DxgiFormat::R11G11B10Float => Some(InternalColorFormat::Rg11b10Float),
            DxgiFormat::R32G32Uint => Some(InternalColorFormat::Rg32Uint),
            DxgiFormat::R32G32Sint => Some(InternalColorFormat::Rg32Sint),
            DxgiFormat::R32G32Float => Some(InternalColorFormat::Rg32Float),
            DxgiFormat::R16G16B16A16Uint => Some(InternalColorFormat::Rgba16Uint),
            DxgiFormat::R16G16B16A16Sint => Some(InternalColorFormat::Rgba16Sint),
            DxgiFormat::R16G16B16A16Unorm => Some(InternalColorFormat::Rgba16Unorm),
            DxgiFormat::R16G16B16A16Snorm => Some(InternalColorFormat::Rgba16Snorm),
            DxgiFormat::R16G16B16A16Float => Some(InternalColorFormat::Rgba16Float),
            DxgiFormat::R32G32B32A32Uint => Some(InternalColorFormat::Rgba32Uint),
            DxgiFormat::R32G32B32A32Sint => Some(InternalColorFormat::Rgba32Sint),
            DxgiFormat::R32G32B32A32Float => Some(InternalColorFormat::Rgba32Float),
            DxgiFormat::D32Float => Some(InternalColorFormat::Depth32Float),
            DxgiFormat::D32FloatS8X24Uint => Some(InternalColorFormat::Depth32FloatStencil8),
            DxgiFormat::D24UnormS8Uint => Some(InternalColorFormat::Depth24PlusStencil8),
            DxgiFormat::R9G9B9E5SharedExp => Some(InternalColorFormat::Rgb9e5Ufloat),
            DxgiFormat::Bc1Unorm => Some(InternalColorFormat::Bc1RgbaUnorm),
            DxgiFormat::Bc1UnormSrgb => Some(InternalColorFormat::Bc1RgbaUnormSrgb),
            DxgiFormat::Bc2Unorm => Some(InternalColorFormat::Bc2RgbaUnorm),
            DxgiFormat::Bc2UnormSrgb => Some(InternalColorFormat::Bc2RgbaUnormSrgb),
            DxgiFormat::Bc3Unorm => Some(InternalColorFormat::Bc3RgbaUnorm),
            DxgiFormat::Bc3UnormSrgb => Some(InternalColorFormat::Bc3RgbaUnormSrgb),
            DxgiFormat::Bc4Unorm => Some(InternalColorFormat::Bc4RUnorm),
            DxgiFormat::Bc4Snorm => Some(InternalColorFormat::Bc4RSnorm),
            DxgiFormat::Bc5Unorm => Some(InternalColorFormat::Bc5RgUnorm),
            DxgiFormat::Bc5Snorm => Some(InternalColorFormat::Bc5RgSnorm),
            DxgiFormat::Bc6hUf16 => Some(InternalColorFormat::Bc6hRgbUfloat),
            DxgiFormat::Bc6hSf16 => Some(InternalColorFormat::Bc6hRgbFloat),
            DxgiFormat::Bc7Unorm => Some(InternalColorFormat::Bc7RgbaUnorm),
            DxgiFormat::Bc7UnormSrgb => Some(InternalColorFormat::Bc7RgbaUnormSrgb),
            DxgiFormat::D16Unorm => Some(InternalColorFormat::Depth16Unorm),
            DxgiFormat::Ayuv => Some(InternalColorFormat::Ayuv),
            DxgiFormat::Nv12 => Some(InternalColorFormat::Nv12),
            DxgiFormat::Y410 => Some(InternalColorFormat::Y410),
            DxgiFormat::P010 => Some(InternalColorFormat::P010),
            _ => None,
        }
    }

    /// Translates back into the neutral space.
    pub fn to_internal(self) -> (r: Result<InternalColorFormat, UnsupportedFormat>)
        ensures
            r matches Ok(v) ==> self.spec_to_internal() == Some(v),
            r is Err <==> self.spec_to_internal() is None,
    {
        match self {
            DxgiFormat::R8Unorm => Ok(InternalColorFormat::R8Unorm),
            DxgiFormat::R8Snorm => Ok(InternalColorFormat::R8Snorm),
            DxgiFormat::R8Uint => Ok(InternalColorFormat::R8Uint),
            DxgiFormat::R8Sint => Ok(InternalColorFormat::R8Sint),
            DxgiFormat::R16Uint => Ok(InternalColorFormat::R16Uint),
            DxgiFormat::R16Sint => Ok(InternalColorFormat::R16Sint),
            DxgiFormat::R16Unorm => Ok(InternalColorFormat::R16Unorm),
            DxgiFormat::R16Snorm => Ok(InternalColorFormat::R16Snorm),
            DxgiFormat::R16Float => Ok(InternalColorFormat::R16Float),
            DxgiFormat::R8G8Unorm => Ok(InternalColorFormat::Rg8Unorm),
            DxgiFormat::R8G8Snorm => Ok(InternalColorFormat::Rg8Snorm),
            DxgiFormat::R8G8Uint => Ok(InternalColorFormat::Rg8Uint),
            DxgiFormat::R8G8Sint => Ok(InternalColorFormat::Rg8Sint),
            DxgiFormat::R16G16Unorm => Ok(InternalColorFormat::Rg16Unorm),
            DxgiFormat::R16G16Snorm => Ok(InternalColorFormat::Rg16Snorm),
            DxgiFormat::R32Uint => Ok(InternalColorFormat::R32Uint),
            DxgiFormat::R32Sint => Ok(InternalColorFormat::R32Sint),
            DxgiFormat::R32Float => Ok(InternalColorFormat::R32Float),
            DxgiFormat::R16G16Uint => Ok(InternalColorFormat::Rg16Uint),
            DxgiFormat::R16G16Sint => Ok(InternalColorFormat::Rg16Sint),
            DxgiFormat::R16G16Float => Ok(InternalColorFormat::Rg16Float),
            DxgiFormat::R8G8B8A8Unorm => Ok(InternalColorFormat::Rgba8Unorm),
            DxgiFormat::R8G8B8A8Typeless => Ok(InternalColorFormat::Rgba8Unorm),
            DxgiFormat::R8G8B8A8UnormSrgb => Ok(InternalColorFormat::Rgba8UnormSrgb),
            DxgiFormat::B8G8R8A8UnormSrgb => Ok(InternalColorFormat::Bgra8UnormSrgb),
            DxgiFormat::R8G8B8A8Snorm => Ok(InternalColorFormat::Rgba8Snorm),
            DxgiFormat::B8G8R8A8Unorm => Ok(InternalColorFormat::Bgra8Unorm),
            DxgiFormat::R8G8B8A8Uint => Ok(InternalColorFormat::Rgba8Uint),
            DxgiFormat::R8G8B8A8Sint => Ok(InternalColorFormat::Rgba8Sint),
            DxgiFormat::R10G10B10A2Unorm => Ok(InternalColorFormat::Rgb10a2Unorm),
            DxgiFormat::R11G11B10Float => Ok(InternalColorFormat::Rg11b10Float),
            DxgiFormat::R32G32Uint => Ok(InternalColorFormat::Rg32Uint),
            DxgiFormat::R32G32Sint => Ok(InternalColorFormat::Rg32Sint),
            DxgiFormat::R32G32Float => Ok(InternalColorFormat::Rg32Float),
            DxgiFormat::R16G16B16A16Uint => Ok(InternalColorFormat::Rgba16Uint),
            DxgiFormat::R16G16B16A16Sint => Ok(InternalColorFormat::Rgba16Sint),
            DxgiFormat::R16G16B16A16Unorm => Ok(InternalColorFormat::Rgba16Unorm),
            DxgiFormat::R16G16B16A16Snorm => Ok(InternalColorFormat::Rgba16Snorm),
            DxgiFormat::R16G16B16A16Float => Ok(InternalColorFormat::Rgba16Float),
            DxgiFormat::R32G32B32A32Uint => Ok(InternalColorFormat::Rgba32Uint),
            DxgiFormat::R32G32B32A32Sint => Ok(InternalColorFormat::Rgba32Sint),
            DxgiFormat::R32G32B32A32Float => Ok(InternalColorFormat::Rgba32Float),
            DxgiFormat::D32Float => Ok(InternalColorFormat::Depth32Float),
            DxgiFormat::D32FloatS8X24Uint => Ok(InternalColorFormat::Depth32FloatStencil8),
            DxgiFormat::D24UnormS8Uint => Ok(InternalColorFormat::Depth24PlusStencil8),
            DxgiFormat::R9G9B9E5SharedExp => Ok(InternalColorFormat::Rgb9e5Ufloat),
            DxgiFormat::Bc1Unorm => Ok(InternalColorFormat::Bc1RgbaUnorm),
            DxgiFormat::Bc1UnormSrgb => Ok(InternalColorFormat::Bc1RgbaUnormSrgb),
            DxgiFormat::Bc2Unorm => Ok(InternalColorFormat::Bc2RgbaUnorm),
            DxgiFormat::Bc2UnormSrgb => Ok(InternalColorFormat::Bc2RgbaUnormSrgb),
            DxgiFormat::Bc3Unorm => Ok(InternalColorFormat::Bc3RgbaUnorm),
            DxgiFormat::Bc3UnormSrgb => Ok(InternalColorFormat::Bc3RgbaUnormSrgb),
            DxgiFormat::Bc4Unorm => Ok(InternalColorFormat::Bc4RUnorm),
            DxgiFormat::Bc4Snorm => Ok(InternalColorFormat::Bc4RSnorm),
            DxgiFormat::Bc5Unorm => Ok(InternalColorFormat::Bc5RgUnorm),
            DxgiFormat::Bc5Snorm => Ok(InternalColorFormat::Bc5RgSnorm),
            DxgiFormat::Bc6hUf16 => Ok(InternalColorFormat::Bc6hRgbUfloat),
            DxgiFormat::Bc6hSf16 => Ok(InternalColorFormat::Bc6hRgbFloat),
            DxgiFormat::Bc7Unorm => Ok(InternalColorFormat::Bc7RgbaUnorm),
            DxgiFormat::Bc7UnormSrgb => Ok(InternalColorFormat::Bc7RgbaUnormSrgb),
            DxgiFormat::D16Unorm => Ok(InternalColorFormat::Depth16Unorm),
            DxgiFormat::Ayuv => Ok(InternalColorFormat::Ayuv),
            DxgiFormat::Nv12 => Ok(InternalColorFormat::Nv12),
            DxgiFormat::Y410 => Ok(InternalColorFormat::Y410),
            DxgiFormat::P010 => Ok(InternalColorFormat::P010),
            _ => Err(UnsupportedFormat),
        }
    }
}

impl CaptureColorFormat {
    pub open spec fn spec_to_internal(self) -> Option<InternalColorFormat> {
        match self {
            CaptureColorFormat::ARGB8UNorm => Some(InternalColorFormat::Rgba8Unorm),
            CaptureColorFormat::BGRA8UNorm => Some(InternalColorFormat::Bgra8Unorm),
            CaptureColorFormat::AYUV => Some(InternalColorFormat::Ayuv),
            CaptureColorFormat::YUV444 => Some(InternalColorFormat::R8Unorm),
            CaptureColorFormat::YUV444_10bit => Some(InternalColorFormat::R16Unorm),
            CaptureColorFormat::NV12 => Some(InternalColorFormat::Nv12),
            CaptureColorFormat::ARGB16Float => Some(InternalColorFormat::Rgba16Float),
            CaptureColorFormat::ARGB10UNorm => Some(InternalColorFormat::Rgb10a2Unorm),
            CaptureColorFormat::Y410 => Some(InternalColorFormat::Y410),
            CaptureColorFormat::YUV420_10bit => Some(InternalColorFormat::P010),
        }
    }

    /// Translates back into the neutral space.
    pub fn to_internal(self) -> (r: Result<InternalColorFormat, UnsupportedFormat>)
        ensures
            r matches Ok(v) ==> self.spec_to_internal() == Some(v),
            r is Err <==> self.spec_to_internal() is None,
    {
        match self {
            CaptureColorFormat::ARGB8UNorm => Ok(InternalColorFormat::Rgba8Unorm),
            CaptureColorFormat::BGRA8UNorm => Ok(InternalColorFormat::Bgra8Unorm),
            CaptureColorFormat::AYUV => Ok(InternalColorFormat::Ayuv),
            CaptureColorFormat::YUV444 => Ok(InternalColorFormat::R8Unorm),
            CaptureColorFormat::YUV444_10bit => Ok(InternalColorFormat::R16Unorm),
            CaptureColorFormat::NV12 => Ok(InternalColorFormat::Nv12),
            CaptureColorFormat::ARGB16Float => Ok(InternalColorFormat::Rgba16Float),
            CaptureColorFormat::ARGB10UNorm => Ok(InternalColorFormat::Rgb10a2Unorm),
            CaptureColorFormat::Y410 => Ok(InternalColorFormat::Y410),
            CaptureColorFormat::YUV420_10bit => Ok(InternalColorFormat::P010),
        }
    }
}

/// Round-trip law: a neutral format that the rendering API's space can
/// represent comes back unchanged from that space.
pub proof fn lemma_texture_format_round_trip(f: InternalColorFormat, v: TextureFormat)
    requires
        f.spec_to_texture_format() == Some(v),
    ensures
        v.spec_to_internal() == Some(f),
{
}

/// Round-trip law: a rendering-API format that the neutral space can
/// represent comes back unchanged from the neutral space.
pub proof fn lemma_texture_format_round_trip_rev(v: TextureFormat, f: InternalColorFormat)
    requires
        v.spec_to_internal() == Some(f),
    ensures
        f.spec_to_texture_format() == Some(v),
{
}

/// Round-trip law through the Vulkan space. The one neutral format that is
/// deliberately aliased onto another Vulkan format on the way in is left
/// out: it cannot come back as itself.
pub proof fn lemma_vulkan_round_trip(f: InternalColorFormat, v: VulkanFormat)
    requires
        f.spec_to_vulkan() == Some(v),
        f != InternalColorFormat::Depth24Plus,
    ensures
        v.spec_to_internal() == Some(f),
{
}

/// Round-trip law: a Vulkan format that the neutral space can represent
/// comes back unchanged from the neutral space.
pub proof fn lemma_vulkan_round_trip_rev(v: VulkanFormat, f: InternalColorFormat)
    requires
        v.spec_to_internal() == Some(f),
    ensures
        f.spec_to_vulkan() == Some(v),
{
}

/// Round-trip law through the DXGI space.
pub proof fn lemma_dxgi_round_trip(f: InternalColorFormat, d: DxgiFormat)
    requires
        f.spec_to_dxgi() == Some(d),
    ensures
        d.spec_to_internal() == Some(f),
{
}

/// Round-trip law: a DXGI format that the neutral space can represent comes
/// back unchanged. The typeless alias is left out: it shares its neutral
/// counterpart with the plain format and cannot come back as itself.
pub proof fn lemma_dxgi_round_trip_rev(d: DxgiFormat, f: InternalColorFormat)
    requires
        d.spec_to_internal() == Some(f),
        d != DxgiFormat::R8G8B8A8Typeless,
    ensures
        f.spec_to_dxgi() == Some(d),
{
}

/// Round-trip law through the capture API's space.
pub proof fn lemma_capture_round_trip(f: InternalColorFormat, cf: CaptureColorFormat)
    requires
        f.spec_to_capture() == Some(cf),
    ensures
        cf.spec_to_internal() == Some(f),
{
}

/// Round-trip law: a capture-API format that the neutral space can
/// represent comes back unchanged from the neutral space.
pub proof fn lemma_capture_round_trip_rev(cf: CaptureColorFormat, f: InternalColorFormat)
    requires
        cf.spec_to_internal() == Some(f),
    ensures
        f.spec_to_capture() == Some(cf),
{
}

} // verus!
