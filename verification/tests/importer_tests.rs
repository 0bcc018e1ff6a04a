use vrscreencap::conversions::TextureFormat;
use vrscreencap::external_texture::{ExternalApi, ExternalTextureInfo};
use vrscreencap::formats::InternalColorFormat;
use vrscreencap::gpu::{ExternalMemoryHandleType, GpuDevice, GpuObject};
use vrscreencap::CaptureError;

fn descriptor(format: InternalColorFormat) -> ExternalTextureInfo {
    ExternalTextureInfo {
        external_api: ExternalApi::D3D11,
        width: 1920,
        height: 1080,
        array_size: 2,
        sample_count: 1,
        mip_levels: 1,
        format,
        actual_handle: 0xdead,
    }
}

#[test]
fn import_produces_matching_image() {
    let info = descriptor(InternalColorFormat::Bgra8Unorm);
    let mut device = GpuDevice::new(100);
    let tex = info.map_as_wgpu_texture(&mut device, None).unwrap();

    assert_eq!(tex.desc.width, 1920);
    assert_eq!(tex.desc.height, 1080);
    assert_eq!(tex.desc.depth_or_array_layers, 2);
    assert_eq!(tex.desc.mip_level_count, 1);
    assert_eq!(tex.desc.sample_count, 1);
    assert_eq!(tex.desc.format, TextureFormat::Bgra8Unorm);
    assert!(tex.desc.usage.copy_src);
    assert!(tex.desc.usage.texture_binding);
    assert!(!tex.desc.usage.copy_dst);
    assert!(tex.bind_group.is_none());

    // Exactly the image, its imported memory, the wrapping texture, the
    // view and the sampler exist afterwards.
    assert_eq!(device.objects.len(), 5);
    assert_eq!(device.budget, 95);
    match &device.objects[0].object {
        GpuObject::Image { params, bound_memory } => {
            assert_eq!(params.width, 1920);
            assert_eq!(params.height, 1080);
            assert_eq!(params.array_layers, 2);
            assert_eq!(params.depth, 2);
            assert_eq!(params.mip_levels, 1);
            assert_eq!(params.handle_type, ExternalMemoryHandleType::D3D11TextureKmt);
            assert_eq!(*bound_memory, Some(device.objects[1].id));
        },
        _ => panic!("expected the imported image first"),
    }
    match &device.objects[1].object {
        GpuObject::Memory { handle, size, handle_type } => {
            assert_eq!(*handle, 0xdead);
            // Four bytes per texel over both layers.
            assert_eq!(*size, 4 * 1920 * 1080 * 2);
            assert_eq!(*handle_type, ExternalMemoryHandleType::D3D11TextureKmt);
        },
        _ => panic!("expected the imported memory second"),
    }
    match &device.objects[2].object {
        GpuObject::Texture { raw_image, .. } => {
            assert_eq!(*raw_image, Some(device.objects[0].id));
        },
        _ => panic!("expected the wrapping texture third"),
    }
}

#[test]
fn d3d12_handles_use_their_own_handle_type() {
    let mut info = descriptor(InternalColorFormat::Rgba8Unorm);
    info.external_api = ExternalApi::D3D12;
    let mut device = GpuDevice::new(100);
    info.map_as_wgpu_texture(&mut device, None).unwrap();
    match &device.objects[1].object {
        GpuObject::Memory { handle_type, .. } => {
            assert_eq!(*handle_type, ExternalMemoryHandleType::D3D12Resource);
        },
        _ => panic!("expected a memory record"),
    }
}

#[test]
fn unmapped_format_fails_before_any_gpu_object() {
    let info = descriptor(InternalColorFormat::Ayuv);
    let mut device = GpuDevice::new(100);
    let r = info.map_as_wgpu_texture(&mut device, None);
    assert_eq!(r.err().unwrap(), CaptureError::UnsupportedFormat);
    assert_eq!(device.objects.len(), 0);
    assert_eq!(device.budget, 100);
    assert_eq!(device.next_id, 0);
}

#[test]
fn unmapped_view_format_fails_before_any_gpu_object() {
    let info = descriptor(InternalColorFormat::Bgra8Unorm);
    let mut device = GpuDevice::new(100);
    let r = info.map_as_wgpu_texture(&mut device, Some(InternalColorFormat::Nv12));
    assert_eq!(r.err().unwrap(), CaptureError::UnsupportedFormat);
    assert_eq!(device.objects.len(), 0);
}

#[test]
fn memory_exhaustion_mid_import_leaks_nothing() {
    let info = descriptor(InternalColorFormat::Bgra8Unorm);
    // Room for the image, none for the memory import: the orphaned image
    // must be destroyed again.
    let mut device = GpuDevice::new(1);
    let r = info.map_as_wgpu_texture(&mut device, None);
    assert_eq!(r.err().unwrap(), CaptureError::ResourceExhausted);
    assert_eq!(device.objects.len(), 0);
    assert_eq!(device.budget, 1);
}

#[test]
fn bind_failure_mid_import_leaks_nothing() {
    let info = descriptor(InternalColorFormat::Bgra8Unorm);
    // Room for the image and the memory, nothing left when the bind is
    // attempted: both objects must be destroyed again.
    let mut device = GpuDevice::new(2);
    let r = info.map_as_wgpu_texture(&mut device, None);
    assert_eq!(r.err().unwrap(), CaptureError::ResourceExhausted);
    assert_eq!(device.objects.len(), 0);
    assert_eq!(device.budget, 2);
}
