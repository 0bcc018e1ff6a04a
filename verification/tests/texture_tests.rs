use image::ImageEncoder;
use vrscreencap::conversions::TextureFormat;
use vrscreencap::formats::InternalColorFormat;
use vrscreencap::gpu::{
    BindGroupLayout, FormatAspects, GpuDevice, GpuObject, TextureUsages,
};
use vrscreencap::texture::{map_texture_usage, Texture2D, Unbound};
use vrscreencap::CaptureError;

fn sampled_usage() -> TextureUsages {
    TextureUsages {
        copy_src: false,
        copy_dst: true,
        texture_binding: true,
        storage_binding: false,
        render_attachment: false,
    }
}

#[test]
fn from_image_creates_texture_view_and_sampler() {
    let mut device = GpuDevice::new(100);
    let rgba: Vec<u8> = vec![1, 2, 3, 4, 5, 6, 7, 8];
    let tex = Texture2D::<Unbound>::from_image(&mut device, &rgba, 2, 1, None).unwrap();
    assert_eq!(tex.desc.width, 2);
    assert_eq!(tex.desc.height, 1);
    assert_eq!(tex.desc.format, TextureFormat::Rgba8UnormSrgb);
    assert_eq!(tex.desc.usage, sampled_usage());
    assert!(tex.bind_group.is_none());
    assert_eq!(device.objects.len(), 3);
    assert_eq!(device.budget, 97);
    match &device.objects[0].object {
        GpuObject::Texture { data, .. } => assert_eq!(data.as_ref().unwrap(), &rgba),
        _ => panic!("expected a texture record"),
    }
}

#[test]
fn from_image_rejects_unmapped_view_format() {
    let mut device = GpuDevice::new(100);
    let rgba: Vec<u8> = vec![0; 4];
    let r = Texture2D::<Unbound>::from_image(
        &mut device,
        &rgba,
        1,
        1,
        Some(InternalColorFormat::Y410),
    );
    assert_eq!(r.err().unwrap(), CaptureError::UnsupportedFormat);
    assert_eq!(device.objects.len(), 0);
    assert_eq!(device.budget, 100);
}

#[test]
fn from_image_reports_exhaustion() {
    let mut device = GpuDevice::new(2);
    let rgba: Vec<u8> = vec![0; 4];
    let r = Texture2D::<Unbound>::from_image(&mut device, &rgba, 1, 1, None);
    assert_eq!(r.err().unwrap(), CaptureError::ResourceExhausted);
    assert_eq!(device.objects.len(), 0);
    assert_eq!(device.budget, 2);
}

#[test]
fn from_bytes_decodes_a_real_image() {
    // Encode two known pixels as a PNG, then let the library decode and
    // upload them; the stored contents must be the original pixels.
    let pixels: Vec<u8> = vec![255, 0, 0, 255, 0, 0, 255, 255];
    let mut png: Vec<u8> = Vec::new();
    let encoder = image::codecs::png::PngEncoder::new(&mut png);
    encoder
        .write_image(&pixels, 2, 1, image::ColorType::Rgba8)
        .unwrap();

    let mut device = GpuDevice::new(100);
    let tex = Texture2D::<Unbound>::from_bytes(&mut device, &png, None).unwrap();
    assert_eq!(tex.desc.width, 2);
    assert_eq!(tex.desc.height, 1);
    match &device.objects[0].object {
        GpuObject::Texture { data, .. } => assert_eq!(data.as_ref().unwrap(), &pixels),
        _ => panic!("expected a texture record"),
    }
}

#[test]
fn from_bytes_rejects_garbage() {
    let mut device = GpuDevice::new(100);
    let garbage: Vec<u8> = vec![0, 1, 2, 3, 4, 5];
    let r = Texture2D::<Unbound>::from_bytes(&mut device, &garbage, None);
    assert_eq!(r.err().unwrap(), CaptureError::DecodeFailed);
    assert_eq!(device.objects.len(), 0);
}

#[test]
fn binding_allocates_exactly_one_binding_group() {
    let mut device = GpuDevice::new(100);
    let rgba: Vec<u8> = vec![0; 4];
    let tex = Texture2D::<Unbound>::from_image(&mut device, &rgba, 1, 1, None).unwrap();
    assert!(tex.bind_group.is_none());
    let objects_before = device.objects.len();

    let layout = BindGroupLayout { id: 77 };
    let bound = tex.bind_to_context(&mut device, &layout);
    assert_eq!(device.objects.len(), objects_before + 1);
    let bg = bound.bind_group();
    assert_eq!(bound.bind_group, Some(bg));
    match &device.objects[objects_before].object {
        GpuObject::BindGroup { layout: l, view, sampler } => {
            assert_eq!(*l, 77);
            assert_eq!(*view, bound.view);
            assert_eq!(*sampler, bound.sampler);
        },
        _ => panic!("expected a binding-group record"),
    }
    // No second binding group exists anywhere on the device.
    let mut groups = 0;
    for rec in &device.objects {
        if matches!(rec.object, GpuObject::BindGroup { .. }) {
            groups += 1;
        }
    }
    assert_eq!(groups, 1);
}

#[test]
fn render_target_inherits_dimensionality_and_extends_usage() {
    let mut device = GpuDevice::new(100);
    let rgba: Vec<u8> = vec![0; 4];
    let tex = Texture2D::<Unbound>::from_image(&mut device, &rgba, 1, 1, None).unwrap();
    let target = tex
        .as_render_target_with_extent(32, 16, 1, InternalColorFormat::Bgra8UnormSrgb, None, &mut device)
        .unwrap();
    assert_eq!(target.desc.width, 32);
    assert_eq!(target.desc.height, 16);
    assert_eq!(target.desc.format, TextureFormat::Bgra8UnormSrgb);
    assert_eq!(target.desc.dimension, tex.desc.dimension);
    assert!(target.desc.usage.render_attachment);
    assert!(target.desc.usage.texture_binding);
    assert!(target.desc.usage.copy_dst);
}

#[test]
fn render_target_rejects_unmapped_format() {
    let mut device = GpuDevice::new(100);
    let rgba: Vec<u8> = vec![0; 4];
    let tex = Texture2D::<Unbound>::from_image(&mut device, &rgba, 1, 1, None).unwrap();
    let before = device.objects.len();
    let r = tex.as_render_target_with_extent(
        32,
        16,
        1,
        InternalColorFormat::Nv12,
        None,
        &mut device,
    );
    assert_eq!(r.err().unwrap(), CaptureError::UnsupportedFormat);
    assert_eq!(device.objects.len(), before);
}

#[test]
fn map_texture_usage_splits_render_attachment_by_aspect() {
    let usage = TextureUsages {
        copy_src: true,
        copy_dst: false,
        texture_binding: true,
        storage_binding: false,
        render_attachment: true,
    };
    let color = FormatAspects { color: true, depth: false, stencil: false };
    let depth = FormatAspects { color: false, depth: true, stencil: false };

    let on_color = map_texture_usage(usage, color);
    assert!(on_color.copy_src);
    assert!(!on_color.copy_dst);
    assert!(on_color.resource);
    assert!(on_color.color_target);
    assert!(!on_color.depth_stencil_write);
    assert!(!on_color.storage_read);

    let on_depth = map_texture_usage(usage, depth);
    assert!(!on_depth.color_target);
    assert!(on_depth.depth_stencil_read);
    assert!(on_depth.depth_stencil_write);
}
