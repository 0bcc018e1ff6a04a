use vrscreencap::conversions::{CaptureColorFormat, DxgiFormat};
use vrscreencap::gpu::{BindGroupLayout, GpuDevice};
use vrscreencap::loaders::blank_loader::BlankLoader;
use vrscreencap::loaders::desktop_duplication_loader::DesktopDuplicationLoader;
use vrscreencap::loaders::katanga_loader::KatangaLoaderContext;
use vrscreencap::loaders::{
    CaptureEnvironment, CapturedFrame, DuplicationFrame, Loader, SharedTextureDesc, StereoMode,
};
use vrscreencap::{
    check_loader_invalidation, get_ambient_texture, try_loader, try_to_load_texture, AspectRatio,
    PipelineState, AMBIENT_BLUR_BASE_RES,
};

fn empty_env() -> CaptureEnvironment {
    CaptureEnvironment {
        katanga_word: None,
        d3d11_available: false,
        d3d11_shared: Vec::new(),
        d3d12_available: false,
        d3d12_named_stream: None,
        duplication_available: false,
        display_mode: None,
        duplication_frame: None,
        capture_available: false,
        capture_geometry: (640, 480),
        capture_frame: CapturedFrame::Timeout,
    }
}

/// An environment where the shared-memory producer is absent but desktop
/// duplication works.
fn duplication_env() -> CaptureEnvironment {
    let mut env = empty_env();
    env.duplication_available = true;
    env.display_mode = Some((1920, 1080));
    env.duplication_frame = Some(DuplicationFrame {
        handle: 7,
        width: 1920,
        height: 1080,
        format: CaptureColorFormat::BGRA8UNorm,
    });
    env
}

/// An environment where the shared-memory producer publishes a stream.
fn katanga_env(word: u64) -> CaptureEnvironment {
    let mut env = empty_env();
    env.katanga_word = Some(word);
    env.d3d11_available = true;
    env.d3d11_shared = vec![(
        word,
        SharedTextureDesc {
            width: 1280,
            height: 720,
            array_size: 1,
            sample_count: 1,
            mip_levels: 1,
            format: DxgiFormat::B8G8R8A8Unorm,
        },
    )];
    env
}

fn priority_list(env: &CaptureEnvironment) -> Vec<Loader> {
    vec![
        Loader::Katanga(KatangaLoaderContext::default()),
        Loader::DesktopDuplication(
            DesktopDuplicationLoader::new(0, env).unwrap_or(DesktopDuplicationLoader {
                screen_index: 0,
                current_handle: None,
                resolution: None,
                invalid: false,
            }),
        ),
        Loader::Blank(BlankLoader),
    ]
}

#[test]
fn selection_picks_the_first_success_and_stops() {
    // A (katanga) fails, B (duplication) succeeds, C (blank) would also
    // succeed: the scan must pick B and never attempt C.
    let env = duplication_env();
    let mut loaders = priority_list(&env);
    let mut device = GpuDevice::new(100);

    let (_tex, aspect, mode, idx) =
        try_to_load_texture(&mut loaders, &mut device, &env, None).unwrap();
    assert_eq!(idx, 1);
    assert!(mode.is_none());
    assert_eq!(aspect, AspectRatio { num: 1920, den: 1080 });
    // Only the winner's five objects exist: the blank loader was never
    // attempted, or its texture would be on the device too.
    assert_eq!(device.objects.len(), 5);
}

#[test]
fn selection_stops_at_the_active_loader() {
    // With the duplication loader already active, an upgrade pass may only
    // try the loaders strictly above it; katanga fails, so nothing loads.
    let env = duplication_env();
    let mut loaders = priority_list(&env);
    let mut device = GpuDevice::new(100);

    let r = try_to_load_texture(&mut loaders, &mut device, &env, Some(1));
    assert!(r.is_none());
    assert_eq!(device.objects.len(), 0);
}

#[test]
fn try_loader_corrects_the_aspect_ratio_for_stereo() {
    let env = katanga_env(0x42);
    let mut loader = Loader::Katanga(KatangaLoaderContext::default());
    let mut device = GpuDevice::new(100);
    let (_tex, aspect, mode, idx) = try_loader(&mut loader, &mut device, &env, 3).unwrap();
    assert_eq!(idx, 3);
    assert_eq!(mode, Some(StereoMode::FullSbs));
    // A full side-by-side stream halves the displayed width.
    assert_eq!(aspect, AspectRatio { num: 1280, den: 1440 });
}

#[test]
fn invalidation_check_follows_the_active_loader() {
    let env = katanga_env(0x42);
    let loaders = priority_list(&env);
    let mut invalidated = false;

    // No active loader: the flag is raised so a load gets attempted.
    check_loader_invalidation(None, &loaders, &env, &mut invalidated);
    assert!(invalidated);

    // A valid blank loader keeps the flag as it is.
    invalidated = false;
    check_loader_invalidation(Some(2), &loaders, &env, &mut invalidated);
    assert!(!invalidated);

    // A never-loaded katanga loader reports invalid.
    check_loader_invalidation(Some(0), &loaders, &env, &mut invalidated);
    assert!(invalidated);
}

#[test]
fn reload_retries_the_same_loader_before_scanning() {
    let layout = BindGroupLayout { id: 9 };
    let mut device = GpuDevice::new(1000);
    let env = katanga_env(0x42);
    let mut pipeline = PipelineState::new(priority_list(&env));

    // Nothing active yet: the check raises the flag, the reload acquires
    // the highest-priority working loader.
    pipeline.tick_check_invalidation(&env);
    assert!(pipeline.screen_invalidated);
    let r = pipeline.tick_reload(&mut device, &env, &layout);
    assert!(r.is_some());
    assert_eq!(pipeline.current_loader, Some(0));
    assert!(!pipeline.screen_invalidated);

    // The producer cycles its buffer: the next tick must clear the
    // active texture and retry the same loader, not fall down the list.
    let old_texture_id = pipeline.screen_texture.as_ref().unwrap().texture;
    let env2 = katanga_env(0x43);
    pipeline.tick_check_invalidation(&env2);
    assert!(pipeline.screen_invalidated);
    let r2 = pipeline.tick_reload(&mut device, &env2, &layout);
    assert!(r2.is_some());
    assert_eq!(pipeline.current_loader, Some(0));
    let mut old_still_there = false;
    for rec in &device.objects {
        if rec.id == old_texture_id {
            old_still_there = true;
        }
    }
    assert!(!old_still_there);

    // The producer disappears entirely: the retry fails and the scan
    // falls through to the blank fallback.
    let env3 = empty_env();
    pipeline.tick_check_invalidation(&env3);
    assert!(pipeline.screen_invalidated);
    let r3 = pipeline.tick_reload(&mut device, &env3, &layout);
    assert!(r3.is_some());
    assert_eq!(pipeline.current_loader, Some(2));
    assert!(!pipeline.screen_invalidated);
}

#[test]
fn upgrade_moves_to_a_higher_priority_loader() {
    let layout = BindGroupLayout { id: 9 };
    let mut device = GpuDevice::new(1000);
    let env = empty_env();
    let mut pipeline = PipelineState::new(priority_list(&env));

    // Only the blank fallback works at first.
    pipeline.tick_check_invalidation(&env);
    pipeline.tick_reload(&mut device, &env, &layout);
    assert_eq!(pipeline.current_loader, Some(2));

    // The producer appears: the next upgrade pass takes it, and marks the
    // screen for the follow-up reacquire.
    let env2 = katanga_env(0x42);
    let r = pipeline.tick_upgrade(&mut device, &env2, &layout);
    assert!(r.is_some());
    assert_eq!(pipeline.current_loader, Some(0));
    assert!(pipeline.screen_invalidated);
    let (aspect, mode) = r.unwrap();
    assert_eq!(mode, Some(StereoMode::FullSbs));
    assert_eq!(aspect, AspectRatio { num: 1280, den: 1440 });

    // Nothing above the active loader: the next pass changes nothing.
    let r2 = pipeline.tick_upgrade(&mut device, &env2, &layout);
    assert!(r2.is_none());
    assert_eq!(pipeline.current_loader, Some(0));
}

#[test]
fn failed_update_forces_a_reacquire() {
    let layout = BindGroupLayout { id: 9 };
    let mut device = GpuDevice::new(1000);
    let env = katanga_env(0x42);
    let mut pipeline = PipelineState::new(priority_list(&env));
    pipeline.tick_check_invalidation(&env);
    pipeline.tick_reload(&mut device, &env, &layout);
    assert_eq!(pipeline.current_loader, Some(0));

    // A healthy update keeps the flag down.
    pipeline.tick_update(&mut device, &env);
    assert!(!pipeline.screen_invalidated);

    // The mapping disappears: the update fails and flags invalidation.
    let env2 = empty_env();
    pipeline.tick_update(&mut device, &env2);
    assert!(pipeline.screen_invalidated);
}

#[test]
fn ambient_ring_is_sized_from_the_aspect_ratio() {
    let layout = BindGroupLayout { id: 9 };
    let mut device = GpuDevice::new(1000);
    let env = katanga_env(0x42);
    let mut pipeline = PipelineState::new(priority_list(&env));
    pipeline.tick_check_invalidation(&env);
    pipeline.tick_reload(&mut device, &env, &layout);
    let screen = pipeline.screen_texture.as_ref().unwrap();

    let aspect = AspectRatio { num: 1280, den: 1440 };
    let objects_before = device.objects.len();
    let ring = get_ambient_texture(screen, aspect, &StereoMode::FullSbs, &mut device, &layout)
        .unwrap();
    // Three render targets, each with a view, a sampler and a binding
    // group.
    assert_eq!(device.objects.len(), objects_before + 12);
    for slot in &ring.textures {
        assert_eq!(slot.desc.width, AMBIENT_BLUR_BASE_RES * 2);
        assert_eq!(slot.desc.height, 18);
        assert!(slot.desc.usage.render_attachment);
        assert!(slot.bind_group.is_some());
    }
}
