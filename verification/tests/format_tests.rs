use vrscreencap::conversions::{CaptureColorFormat, DxgiFormat, TextureFormat, VulkanFormat};
use vrscreencap::formats::InternalColorFormat;

#[test]
fn dxgi_conversion_test() {
    let internal_format = InternalColorFormat::Rgba8Unorm;
    let dxgi_equivalent = DxgiFormat::R8G8B8A8Unorm;

    let mapped_dxgi: DxgiFormat = internal_format.to_dxgi().unwrap();
    let mapped_internal: InternalColorFormat = dxgi_equivalent.to_internal().unwrap();

    assert_eq!(mapped_dxgi, dxgi_equivalent);
    assert_eq!(mapped_internal, internal_format);

    let error: Result<TextureFormat, _> = InternalColorFormat::Y410.to_texture_format();
    assert!(error.is_err());
}

#[test]
fn texture_format_round_trips() {
    let cases = [
        InternalColorFormat::R8Unorm,
        InternalColorFormat::Rgba16Float,
        InternalColorFormat::Bgra8UnormSrgb,
        InternalColorFormat::Bc7RgbaUnormSrgb,
        InternalColorFormat::Depth32FloatStencil8,
    ];
    for f in cases {
        let native = f.to_texture_format().unwrap();
        assert_eq!(native.to_internal().unwrap(), f);
    }
    assert_eq!(
        TextureFormat::Rg11b10Float.to_internal().unwrap(),
        InternalColorFormat::Rg11b10Float
    );
    assert_eq!(
        InternalColorFormat::Rg11b10Float.to_texture_format().unwrap(),
        TextureFormat::Rg11b10Float
    );
}

#[test]
fn vulkan_round_trips() {
    let cases = [
        (InternalColorFormat::Rgba8UnormSrgb, VulkanFormat::R8G8B8A8Srgb),
        (InternalColorFormat::Depth24PlusStencil8, VulkanFormat::D24UnormS8Uint),
        (InternalColorFormat::Rgb9e5Ufloat, VulkanFormat::E5B9G9R9UfloatPack32),
        (InternalColorFormat::Stencil8, VulkanFormat::S8Uint),
        (InternalColorFormat::EacRg11Snorm, VulkanFormat::EacR11G11SnormBlock),
    ];
    for (internal, vulkan) in cases {
        assert_eq!(internal.to_vulkan().unwrap(), vulkan);
        assert_eq!(vulkan.to_internal().unwrap(), internal);
    }
}

#[test]
fn vulkan_depth_alias_is_one_directional() {
    // Both depth formats alias onto the same Vulkan format on the way in;
    // coming back, the alias yields the canonical one.
    assert_eq!(
        InternalColorFormat::Depth24Plus.to_vulkan().unwrap(),
        VulkanFormat::D32Sfloat
    );
    assert_eq!(
        InternalColorFormat::Depth32Float.to_vulkan().unwrap(),
        VulkanFormat::D32Sfloat
    );
    assert_eq!(
        VulkanFormat::D32Sfloat.to_internal().unwrap(),
        InternalColorFormat::Depth32Float
    );
}

#[test]
fn dxgi_round_trips() {
    let cases = [
        (DxgiFormat::R16G16B16A16Float, InternalColorFormat::Rgba16Float),
        (DxgiFormat::B8G8R8A8Unorm, InternalColorFormat::Bgra8Unorm),
        (DxgiFormat::R9G9B9E5SharedExp, InternalColorFormat::Rgb9e5Ufloat),
        (DxgiFormat::Nv12, InternalColorFormat::Nv12),
        (DxgiFormat::P010, InternalColorFormat::P010),
    ];
    for (dxgi, internal) in cases {
        assert_eq!(dxgi.to_internal().unwrap(), internal);
        assert_eq!(internal.to_dxgi().unwrap(), dxgi);
    }
}

#[test]
fn dxgi_typeless_alias_is_one_directional() {
    // The typeless alias shares its neutral counterpart with the plain
    // format, so it cannot come back as itself.
    assert_eq!(
        DxgiFormat::R8G8B8A8Typeless.to_internal().unwrap(),
        InternalColorFormat::Rgba8Unorm
    );
    assert_eq!(
        InternalColorFormat::Rgba8Unorm.to_dxgi().unwrap(),
        DxgiFormat::R8G8B8A8Unorm
    );
}

#[test]
fn capture_round_trips() {
    let cases = [
        (InternalColorFormat::Rgba8Unorm, CaptureColorFormat::ARGB8UNorm),
        (InternalColorFormat::Bgra8Unorm, CaptureColorFormat::BGRA8UNorm),
        (InternalColorFormat::R16Unorm, CaptureColorFormat::YUV444_10bit),
        (InternalColorFormat::P010, CaptureColorFormat::YUV420_10bit),
    ];
    for (internal, capture) in cases {
        assert_eq!(internal.to_capture().unwrap(), capture);
        assert_eq!(capture.to_internal().unwrap(), internal);
    }
}

#[test]
fn one_sided_formats_fail_instead_of_substituting() {
    // Planar/YUV formats exist only on the DXGI/capture side.
    assert!(InternalColorFormat::Ayuv.to_texture_format().is_err());
    assert!(InternalColorFormat::Ayuv.to_vulkan().is_err());
    assert!(InternalColorFormat::Nv12.to_vulkan().is_err());
    assert!(InternalColorFormat::Y410.to_vulkan().is_err());
    // Compressed mobile formats and bare stencil exist only on the
    // Vulkan side.
    assert!(InternalColorFormat::Stencil8.to_texture_format().is_err());
    assert!(InternalColorFormat::Etc2Rgb8Unorm.to_texture_format().is_err());
    assert!(InternalColorFormat::Etc2Rgb8Unorm.to_dxgi().is_err());
    assert!(InternalColorFormat::EacR11Unorm.to_dxgi().is_err());
    // Depth formats have no desktop-duplication counterpart.
    assert!(InternalColorFormat::Depth16Unorm.to_capture().is_err());
    // A foreign descriptor can arrive in a DXGI format the table has no
    // row for; the translation fails rather than substituting.
    assert!(DxgiFormat::Unknown.to_internal().is_err());
    assert!(DxgiFormat::R32G32B32Float.to_internal().is_err());
    assert!(DxgiFormat::B5G6R5Unorm.to_internal().is_err());
    // The wgpu-side depth alias has no row of its own there.
    assert!(InternalColorFormat::Depth24Plus.to_texture_format().is_err());
}

#[test]
fn to_norm_strips_srgb() {
    assert_eq!(
        InternalColorFormat::Rgba8UnormSrgb.to_norm(),
        InternalColorFormat::Rgba8Unorm
    );
    assert_eq!(
        InternalColorFormat::Bgra8UnormSrgb.to_norm(),
        InternalColorFormat::Bgra8Unorm
    );
    assert_eq!(
        InternalColorFormat::Bc3RgbaUnormSrgb.to_norm(),
        InternalColorFormat::Bc3RgbaUnorm
    );
    assert_eq!(
        InternalColorFormat::Rgba8Unorm.to_norm(),
        InternalColorFormat::Rgba8Unorm
    );
    assert_eq!(
        InternalColorFormat::R32Float.to_norm(),
        InternalColorFormat::R32Float
    );
}

#[test]
fn depth_stencil_classification() {
    assert!(InternalColorFormat::Depth32Float.is_depth_stencil_format());
    assert!(InternalColorFormat::Stencil8.is_depth_stencil_format());
    assert!(InternalColorFormat::Depth24PlusStencil8.is_depth_stencil_format());
    assert!(!InternalColorFormat::Rgba8Unorm.is_depth_stencil_format());
    assert!(InternalColorFormat::Depth16Unorm.is_depth_format());
    assert!(!InternalColorFormat::Stencil8.is_depth_format());
    assert!(InternalColorFormat::Stencil8.is_stencil_format());
    assert!(!InternalColorFormat::Depth16Unorm.is_stencil_format());
}
