use vrscreencap::conversions::{CaptureColorFormat, DxgiFormat, TextureFormat};
use vrscreencap::gpu::{BindGroupLayout, GpuDevice, GpuObject};
use vrscreencap::loaders::blank_loader::BlankLoader;
use vrscreencap::loaders::captrs_loader::CaptrLoader;
use vrscreencap::loaders::desktop_duplication_loader::DesktopDuplicationLoader;
use vrscreencap::loaders::katanga_loader::KatangaLoaderContext;
use vrscreencap::loaders::{
    CaptureEnvironment, CapturedFrame, DuplicationFrame, SharedTextureDesc, StereoMode,
};
use vrscreencap::texture::Texture2D;
use vrscreencap::CaptureError;

fn empty_env() -> CaptureEnvironment {
    CaptureEnvironment {
        katanga_word: None,
        d3d11_available: false,
        d3d11_shared: Vec::new(),
        d3d12_available: false,
        d3d12_named_stream: None,
        duplication_available: false,
        display_mode: None,
        duplication_frame: None,
        capture_available: false,
        capture_geometry: (640, 480),
        capture_frame: CapturedFrame::Timeout,
    }
}

fn shared_desc(format: DxgiFormat) -> SharedTextureDesc {
    SharedTextureDesc {
        width: 1280,
        height: 720,
        array_size: 1,
        sample_count: 1,
        mip_levels: 1,
        format,
    }
}

fn bind(device: &mut GpuDevice, tex: Texture2D<vrscreencap::texture::Unbound>) -> Texture2D<vrscreencap::texture::Bound> {
    let layout = BindGroupLayout { id: 1 };
    tex.bind_to_context(device, &layout)
}

#[test]
fn blank_loader_always_yields_one_by_one() {
    let mut device = GpuDevice::new(100);
    let env = empty_env();
    let mut loader = BlankLoader;
    let src = loader.load(&mut device, &env).unwrap();
    assert_eq!(src.width, 1);
    assert_eq!(src.height, 1);
    assert!(src.stereo_mode.is_none());
    assert_eq!(src.texture.desc.width, 1);
    assert_eq!(src.texture.desc.height, 1);
    match &device.objects[0].object {
        GpuObject::Texture { data, .. } => {
            assert_eq!(data.as_ref().unwrap(), &vec![0x80, 0x80, 0x80, 0xff]);
        },
        _ => panic!("expected the placeholder texture"),
    }
    assert!(!loader.is_invalid(&env));
    let bound = bind(&mut device, src.texture);
    assert!(loader.update(&mut device, &env, &bound).is_ok());
    assert!(!loader.is_invalid(&env));
}

#[test]
fn katanga_loads_through_the_first_api() {
    let mut env = empty_env();
    env.katanga_word = Some(0x42);
    env.d3d11_available = true;
    env.d3d11_shared = vec![(0x42, shared_desc(DxgiFormat::B8G8R8A8UnormSrgb))];
    let mut device = GpuDevice::new(100);
    let mut loader = KatangaLoaderContext::default();

    let src = loader.load(&mut device, &env).unwrap();
    assert_eq!(src.width, 1280);
    assert_eq!(src.height, 720);
    assert_eq!(src.stereo_mode, Some(StereoMode::FullSbs));
    assert_eq!(src.texture.desc.format, TextureFormat::Bgra8UnormSrgb);
    // An sRGB source is sampled through its plain twin.
    assert_eq!(src.texture.desc.view_format, Some(TextureFormat::Bgra8Unorm));
    match &device.objects[1].object {
        GpuObject::Memory { handle, .. } => assert_eq!(*handle, 0x42),
        _ => panic!("expected the imported memory"),
    }
    assert!(!loader.is_invalid(&env));

    // The producer cycles its buffer: the loader must flag invalidation.
    env.katanga_word = Some(0x43);
    assert!(loader.is_invalid(&env));
}

#[test]
fn katanga_falls_back_to_the_named_second_api_resource() {
    let mut env = empty_env();
    env.katanga_word = Some(0x42);
    env.d3d11_available = true;
    env.d3d11_shared = Vec::new();
    env.d3d12_available = true;
    env.d3d12_named_stream = Some((0x99, shared_desc(DxgiFormat::R8G8B8A8Unorm)));
    let mut device = GpuDevice::new(100);
    let mut loader = KatangaLoaderContext::default();

    let src = loader.load(&mut device, &env).unwrap();
    assert_eq!(src.texture.desc.format, TextureFormat::Rgba8Unorm);
    // The named resolution yields its own handle, not the published word.
    match &device.objects[1].object {
        GpuObject::Memory { handle, .. } => assert_eq!(*handle, 0x99),
        _ => panic!("expected the imported memory"),
    }
}

#[test]
fn katanga_without_a_producer_has_no_source() {
    let env = empty_env();
    let mut device = GpuDevice::new(100);
    let mut loader = KatangaLoaderContext::default();
    let r = loader.load(&mut device, &env);
    assert_eq!(r.err().unwrap(), CaptureError::NoCapturableSource);
    assert!(loader.is_invalid(&env));
}

#[test]
fn katanga_with_a_stale_word_reports_it() {
    let mut env = empty_env();
    env.katanga_word = Some(0x42);
    env.d3d11_available = true;
    env.d3d11_shared = vec![(0x41, shared_desc(DxgiFormat::B8G8R8A8Unorm))];
    let mut device = GpuDevice::new(100);
    let mut loader = KatangaLoaderContext::default();
    let r = loader.load(&mut device, &env);
    assert_eq!(r.err().unwrap(), CaptureError::HandleStale);
    assert_eq!(device.objects.len(), 0);
}

#[test]
fn duplication_invalidates_on_display_mode_change() {
    let mut env = empty_env();
    env.duplication_available = true;
    env.display_mode = Some((1920, 1080));
    env.duplication_frame = Some(DuplicationFrame {
        handle: 7,
        width: 1920,
        height: 1080,
        format: CaptureColorFormat::BGRA8UNorm,
    });
    let mut device = GpuDevice::new(100);
    let mut loader = DesktopDuplicationLoader::new(0, &env).unwrap();
    assert!(loader.is_invalid(&env));

    let src = loader.load(&mut device, &env).unwrap();
    assert_eq!(src.width, 1920);
    assert_eq!(src.height, 1080);
    assert!(src.stereo_mode.is_none());
    assert!(!loader.is_invalid(&env));

    env.display_mode = Some((1280, 720));
    assert!(loader.is_invalid(&env));
}

#[test]
fn duplication_update_flags_a_changed_handle() {
    let mut env = empty_env();
    env.duplication_available = true;
    env.display_mode = Some((1920, 1080));
    env.duplication_frame = Some(DuplicationFrame {
        handle: 7,
        width: 1920,
        height: 1080,
        format: CaptureColorFormat::BGRA8UNorm,
    });
    let mut device = GpuDevice::new(100);
    let mut loader = DesktopDuplicationLoader::new(0, &env).unwrap();
    let src = loader.load(&mut device, &env).unwrap();
    let bound = bind(&mut device, src.texture);

    // The same handle again: nothing to do.
    assert!(loader.update(&mut device, &env, &bound).is_ok());
    assert!(!loader.is_invalid(&env));

    // The producer switched surfaces: flagged, not re-imported inline.
    let objects_before = device.objects.len();
    env.duplication_frame = Some(DuplicationFrame {
        handle: 8,
        width: 1920,
        height: 1080,
        format: CaptureColorFormat::BGRA8UNorm,
    });
    assert!(loader.update(&mut device, &env, &bound).is_ok());
    assert_eq!(device.objects.len(), objects_before);
    assert!(loader.is_invalid(&env));

    // No frame at all: the refresh itself fails.
    env.duplication_frame = None;
    assert_eq!(
        loader.update(&mut device, &env, &bound).err().unwrap(),
        CaptureError::CaptureFailed
    );
}

#[test]
fn captr_uploads_captured_pixels() {
    let mut env = empty_env();
    env.capture_available = true;
    env.capture_geometry = (4, 2);
    let mut device = GpuDevice::new(100);
    let mut loader = CaptrLoader::new(0, &env).unwrap();

    let src = loader.load(&mut device, &env).unwrap();
    assert_eq!(src.width, 4);
    assert_eq!(src.height, 2);
    assert_eq!(src.texture.desc.format, TextureFormat::Bgra8Unorm);
    let bound = bind(&mut device, src.texture);

    // A timeout leaves the previous contents in place.
    env.capture_frame = CapturedFrame::Timeout;
    assert!(loader.update(&mut device, &env, &bound).is_ok());

    let frame: Vec<u8> = (0..32).collect();
    env.capture_frame = CapturedFrame::Frame(frame.clone());
    assert!(loader.update(&mut device, &env, &bound).is_ok());
    let mut found = false;
    for rec in &device.objects {
        if rec.id == bound.texture {
            match &rec.object {
                GpuObject::Texture { data, .. } => {
                    assert_eq!(data.as_ref().unwrap(), &frame);
                    found = true;
                },
                _ => panic!("expected a texture record"),
            }
        }
    }
    assert!(found);

    env.capture_frame = CapturedFrame::Failed;
    assert_eq!(
        loader.update(&mut device, &env, &bound).err().unwrap(),
        CaptureError::CaptureFailed
    );

    assert!(!loader.is_invalid(&env));
    env.capture_geometry = (8, 4);
    assert!(loader.is_invalid(&env));
}

#[test]
fn loaders_report_missing_platform_capabilities() {
    let env = empty_env();
    assert_eq!(
        DesktopDuplicationLoader::new(0, &env).err().unwrap(),
        CaptureError::NoCapturableSource
    );
    assert_eq!(
        CaptrLoader::new(0, &env).err().unwrap(),
        CaptureError::NoCapturableSource
    );
}

#[test]
fn foreign_descriptor_format_without_a_row_is_rejected() {
    let mut env = empty_env();
    env.katanga_word = Some(0x42);
    env.d3d11_available = true;
    // The shared resource reports a DXGI format with no table row at all:
    // the translation into the neutral space fails before any import.
    env.d3d11_shared = vec![(0x42, shared_desc(DxgiFormat::B5G6R5Unorm))];
    let mut device = GpuDevice::new(100);
    let mut loader = KatangaLoaderContext::default();
    let r = loader.load(&mut device, &env);
    assert_eq!(r.err().unwrap(), CaptureError::UnsupportedFormat);
    assert_eq!(device.objects.len(), 0);
}

#[test]
fn import_format_without_rows_is_rejected_not_substituted() {
    let mut env = empty_env();
    env.katanga_word = Some(0x42);
    env.d3d11_available = true;
    // AYUV exists on the DXGI side but in neither rendering-side space.
    env.d3d11_shared = vec![(0x42, shared_desc(DxgiFormat::Ayuv))];
    let mut device = GpuDevice::new(100);
    let mut loader = KatangaLoaderContext::default();
    let r = loader.load(&mut device, &env);
    assert_eq!(r.err().unwrap(), CaptureError::UnsupportedFormat);
    assert_eq!(device.objects.len(), 0);
}
