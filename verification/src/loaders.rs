//! The capture-backend abstraction.
//!
//! A loader owns a capture source and exposes a uniform lifecycle: `load`
//! acquires a texture, `update` refreshes it cheaply every tick,
//! `is_invalid` is an O(1) poll for source changes, and `encode_pre_pass`
//! may record extra GPU work before the main pass. The backends form a
//! closed set, dispatched by pattern match.
//!
//! What a loader reads from the operating system — the shared-memory word,
//! the resources a handle resolves to, the display mode, the captured
//! frame — arrives as one `CaptureEnvironment` snapshot per tick, taken by
//! the surrounding render loop; the decisions taken on it are all here and
//! all verified, for every possible snapshot.

use vstd::prelude::*;

use crate::conversions::{CaptureColorFormat, DxgiFormat};
use crate::gpu::{spec_same_device, GpuDevice};
use crate::texture::{Bound, Texture2D, Unbound};

pub mod blank_loader;
pub mod captrs_loader;
pub mod desktop_duplication_loader;
pub mod katanga_loader;

verus! {

use crate::CaptureError;

/// What a successful `load` hands back: a bindable texture and the layout
/// facts the geometry logic needs.
pub struct TextureSource {
    pub texture: Texture2D<Unbound>,
    pub width: u32,
    pub height: u32,
    pub stereo_mode: Option<StereoMode>,
}

/// The stereo layout of a captured frame.
#[derive(Clone, Copy, Debug, PartialEq, Eq, Structural)]
pub enum StereoMode {
    Mono,
    Sbs,
    Tab,
    FullSbs,
    FullTab,
}

impl StereoMode {
    /// The aspect-ratio multiplier of the layout, as a numerator and
    /// denominator: a full side-by-side frame is twice as wide as one eye's
    /// view, a full top-and-bottom frame twice as tall.
    pub open spec fn spec_aspect_ratio_multiplier(self) -> (u32, u32) {
        match self {
            StereoMode::Mono => (1u32, 1u32),
            StereoMode::Sbs => (1u32, 1u32),
            StereoMode::Tab => (1u32, 1u32),
            StereoMode::FullSbs => (1u32, 2u32),
            StereoMode::FullTab => (2u32, 1u32),
        }
    }

    pub fn aspect_ratio_multiplier(&self) -> (r: (u32, u32))
        ensures
            r == self.spec_aspect_ratio_multiplier(),
    {
        match self {
            StereoMode::Mono => (1u32, 1u32),
            StereoMode::Sbs => (1u32, 1u32),
            StereoMode::Tab => (1u32, 1u32),
            StereoMode::FullSbs => (1u32, 2u32),
            StereoMode::FullTab => (2u32, 1u32),
        }
    }
}

/// The descriptor a shared resource reports when opened through a foreign
/// API: dimensions and its format in that API's space.
#[derive(Clone, Copy, Debug, PartialEq, Eq, Structural)]
pub struct SharedTextureDesc {
    pub width: u32,
    pub height: u32,
    pub array_size: u32,
    pub sample_count: u32,
    pub mip_levels: u32,
    pub format: DxgiFormat,
}

impl SharedTextureDesc {
    /// Within the device limits the import model assumes.
    pub open spec fn wf(self) -> bool {
        &&& 1 <= self.width <= 16384
        &&& 1 <= self.height <= 16384
        &&& 1 <= self.array_size <= 2048
        &&& 1 <= self.sample_count <= 32
        &&& 1 <= self.mip_levels <= 16
    }
}

/// One frame of the desktop-duplication capability: the handle its surface
/// is shared under and the surface's descriptor.
#[derive(Clone, Copy, Debug, PartialEq, Eq, Structural)]
pub struct DuplicationFrame {
    pub handle: u64,
    pub width: u32,
    pub height: u32,
    pub format: CaptureColorFormat,
}

/// One frame of the pixel-copy capture: the captured bytes, a timeout
/// (which is not an error), or a failure.
pub enum CapturedFrame {
    Frame(Vec<u8>),
    Timeout,
    Failed,
}

/// One per-tick snapshot of everything the loaders read from the outside:
/// the shared-memory word, what each handle-resolution strategy would
/// yield, the display mode, and the capture APIs' frames. The render loop
/// takes the snapshot; the loaders' decisions on it are verified for every
/// value it can hold.
pub struct CaptureEnvironment {
    /// The machine word at the start of the fixed-name shared-memory
    /// mapping, when that mapping can be opened at all.
    pub katanga_word: Option<u64>,
    /// Whether a first-API (D3D11) device exists to resolve handles with.
    pub d3d11_available: bool,
    /// The resources openable as first-API shared handles right now.
    pub d3d11_shared: Vec<(u64, SharedTextureDesc)>,
    /// Whether a second-API (D3D12) device exists.
    pub d3d12_available: bool,
    /// The resource published under the fixed well-known name, openable
    /// through the second API, with the handle that opening it yields.
    pub d3d12_named_stream: Option<(u64, SharedTextureDesc)>,
    /// Whether the desktop-duplication capability is present.
    pub duplication_available: bool,
    /// The current display mode's dimensions, when they can be queried.
    pub display_mode: Option<(u32, u32)>,
    /// The next desktop-duplication frame, when one can be acquired.
    pub duplication_frame: Option<DuplicationFrame>,
    /// Whether the generic pixel-copy capture is present.
    pub capture_available: bool,
    /// The pixel-copy capture's screen geometry.
    pub capture_geometry: (u32, u32),
    /// The pixel-copy capture's next frame.
    pub capture_frame: CapturedFrame,
}

impl CaptureEnvironment {
    /// Every descriptor the snapshot can hand out is within the device
    /// limits, and a captured frame matches the geometry it was captured
    /// at, four bytes per pixel.
    pub open spec fn wf(self) -> bool {
        &&& forall|i: int|
            0 <= i < self.d3d11_shared@.len() ==> (#[trigger] self.d3d11_shared@[i]).1.wf()
        &&& self.d3d12_named_stream matches Some((h, d)) ==> d.wf()
        &&& self.duplication_frame matches Some(f) ==> 1 <= f.width <= 16384 && 1 <= f.height
            <= 16384
        &&& 1 <= self.capture_geometry.0 <= 16384
        &&& 1 <= self.capture_geometry.1 <= 16384
        &&& self.capture_frame matches CapturedFrame::Frame(data) ==> data@.len() == 4 * (
        self.capture_geometry.0 as nat) * (self.capture_geometry.1 as nat)
    }

    /// The descriptor the first resolution strategy yields for a handle:
    /// the first shared resource the handle opens.
    pub open spec fn spec_d3d11_lookup(self, handle: u64) -> Option<SharedTextureDesc> {
        spec_lookup(self.d3d11_shared@, handle)
    }

    /// Resolves a handle as the first API's shared resource.
    pub fn d3d11_lookup(&self, handle: u64) -> (r: Option<SharedTextureDesc>)
        ensures
            r == self.spec_d3d11_lookup(handle),
            self.wf() ==> (r matches Some(d) ==> d.wf()),
    {
        let n = self.d3d11_shared.len();
        proof {
            assert(self.d3d11_shared@.skip(0) =~= self.d3d11_shared@);
        }
        let mut i: usize = 0;
        while i < n
            invariant
                n == self.d3d11_shared@.len(),
                i <= n,
                spec_lookup(self.d3d11_shared@, handle) == spec_lookup(
                    self.d3d11_shared@.skip(i as int),
                    handle,
                ),
            decreases n - i,
        {
            let (h, desc) = self.d3d11_shared[i];
            proof {
                assert(self.d3d11_shared@.skip(i as int)[0] == self.d3d11_shared@[i as int]);
                assert(self.d3d11_shared@.skip(i as int).drop_first() =~= self.d3d11_shared@.skip(
                    i as int + 1,
                ));
            }
            if h == handle {
                return Some(desc);
            }
            i = i + 1;
        }
        proof {
            assert(self.d3d11_shared@.skip(n as int) =~= Seq::<(u64, SharedTextureDesc)>::empty());
        }
        None
    }
}

/// The extra view format a captured screen is sampled through: the plain
/// twin of an sRGB source format, and nothing otherwise.
pub open spec fn spec_norm_view_format(format: crate::formats::InternalColorFormat) -> Option<
    crate::formats::InternalColorFormat,
> {
    if format.spec_to_norm() != format {
        Some(format.spec_to_norm())
    } else {
        None
    }
}

pub fn norm_view_format(format: crate::formats::InternalColorFormat) -> (r: Option<
    crate::formats::InternalColorFormat,
>)
    ensures
        r == spec_norm_view_format(format),
{
    let norm = format.to_norm();
    if norm != format {
        Some(norm)
    } else {
        None
    }
}

/// First-match lookup of a handle in a sequence of shared resources.
pub open spec fn spec_lookup(s: Seq<(u64, SharedTextureDesc)>, handle: u64) -> Option<
    SharedTextureDesc,
>
    decreases s.len(),
{
    if s.len() == 0 {
        None
    } else if s[0].0 == handle {
        Some(s[0].1)
    } else {
        spec_lookup(s.drop_first(), handle)
    }
}


/// The closed set of capture backends, dispatched by pattern match. The
/// selection protocol holds these in priority order.
pub enum Loader {
    Katanga(katanga_loader::KatangaLoaderContext),
    DesktopDuplication(desktop_duplication_loader::DesktopDuplicationLoader),
    Captr(captrs_loader::CaptrLoader),
    Blank(blank_loader::BlankLoader),
}

/// Whether two loaders are the same backend (their internal state aside).
pub open spec fn spec_same_kind(a: Loader, b: Loader) -> bool {
    match (a, b) {
        (Loader::Katanga(_), Loader::Katanga(_)) => true,
        (Loader::DesktopDuplication(_), Loader::DesktopDuplication(_)) => true,
        (Loader::Captr(_), Loader::Captr(_)) => true,
        (Loader::Blank(_), Loader::Blank(_)) => true,
        _ => false,
    }
}

impl Loader {
    /// Whether a load will succeed on this snapshot and device. It depends
    /// on the backend's kind, never on its mutable state.
    pub open spec fn spec_load_ok(self, env: CaptureEnvironment, device: GpuDevice) -> bool {
        match self {
            Loader::Katanga(_) => katanga_loader::KatangaLoaderContext::spec_load_ok(env, device),
            Loader::DesktopDuplication(_) => desktop_duplication_loader::DesktopDuplicationLoader::spec_load_ok(
                env,
                device,
            ),
            Loader::Captr(_) => captrs_loader::CaptrLoader::spec_load_ok(env, device),
            Loader::Blank(_) => blank_loader::BlankLoader::spec_load_ok(device),
        }
    }

    /// The dimensions a successful load reports for this snapshot.
    pub open spec fn spec_source_dims(self, env: CaptureEnvironment) -> (u32, u32) {
        match self {
            Loader::Katanga(_) => (
                katanga_loader::spec_tex_info(env).width,
                katanga_loader::spec_tex_info(env).height,
            ),
            Loader::DesktopDuplication(_) => env.display_mode->Some_0,
            Loader::Captr(_) => env.capture_geometry,
            Loader::Blank(_) => (1u32, 1u32),
        }
    }

    /// The stereo layout a successful load reports: only the shared-memory
    /// producer publishes a stereo stream.
    pub open spec fn spec_stereo(self) -> Option<StereoMode> {
        match self {
            Loader::Katanga(_) => Some(StereoMode::FullSbs),
            _ => None,
        }
    }

    /// How many device objects a successful load creates.
    pub open spec fn spec_load_cost(self) -> int {
        match self {
            Loader::Katanga(_) => 5,
            Loader::DesktopDuplication(_) => 5,
            Loader::Captr(_) => 3,
            Loader::Blank(_) => 3,
        }
    }

    /// Whether a refresh will succeed on this snapshot.
    pub open spec fn spec_update_ok(self, env: CaptureEnvironment) -> bool {
        match self {
            Loader::Katanga(_) => env.katanga_word is Some,
            Loader::DesktopDuplication(_) => env.duplication_frame is Some,
            Loader::Captr(_) => !(env.capture_frame is Failed),
            Loader::Blank(_) => true,
        }
    }

    /// Whether the backend must reacquire on this snapshot.
    pub open spec fn spec_is_invalid(self, env: CaptureEnvironment) -> bool {
        match self {
            Loader::Katanga(l) => l.spec_is_invalid(env),
            Loader::DesktopDuplication(l) => l.spec_is_invalid(env),
            Loader::Captr(l) => env.capture_geometry != l.geometry,
            Loader::Blank(_) => false,
        }
    }

    /// First acquisition: possibly expensive, hands back a bindable
    /// texture and its layout facts.
    pub fn load(
        &mut self,
        device: &mut GpuDevice,
        env: &CaptureEnvironment,
    ) -> (r: Result<TextureSource, CaptureError>)
        requires
            old(device).wf(),
            env.wf(),
        ensures
            final(device).wf(),
            spec_same_kind(*old(self), *final(self)),
            r is Ok <==> old(self).spec_load_ok(*env, *old(device)),
            r is Err ==> spec_same_device(*old(device), *final(device)),
            r matches Ok(src) ==> {
                &&& src.width == old(self).spec_source_dims(*env).0
                &&& src.height == old(self).spec_source_dims(*env).1
                &&& src.stereo_mode == old(self).spec_stereo()
                &&& src.texture.spec_bind_group() is None
                &&& final(device).objects@.len() == old(device).objects@.len() + old(
                    self,
                ).spec_load_cost()
                &&& final(device).objects@.subrange(0, old(device).objects@.len() as int)
                    =~= old(device).objects@
                &&& final(device).budget == old(device).budget - old(self).spec_load_cost()
                &&& final(device).next_id == old(device).next_id + old(self).spec_load_cost()
            },
    {
        match self {
            Loader::Katanga(l) => l.load(device, env),
            Loader::DesktopDuplication(l) => l.load(device, env),
            Loader::Captr(l) => l.load(device, env),
            Loader::Blank(l) => l.load(device, env),
        }
    }

    /// Cheap per-tick refresh of the bound texture.
    pub fn update(
        &mut self,
        device: &mut GpuDevice,
        env: &CaptureEnvironment,
        texture: &Texture2D<Bound>,
    ) -> (r: Result<(), CaptureError>)
        requires
            old(device).wf(),
        ensures
            final(device).wf(),
            spec_same_kind(*old(self), *final(self)),
            r is Ok <==> old(self).spec_update_ok(*env),
            final(device).objects@.len() == old(device).objects@.len(),
            final(device).budget == old(device).budget,
            final(device).next_id == old(device).next_id,
    {
        match self {
            Loader::Katanga(l) => l.update(device, env, texture),
            Loader::DesktopDuplication(l) => l.update(device, env, texture),
            Loader::Captr(l) => l.update(device, env, texture),
            Loader::Blank(l) => l.update(device, env, texture),
        }
    }

    /// O(1) poll for source changes; safe every frame.
    pub fn is_invalid(&self, env: &CaptureEnvironment) -> (r: bool)
        ensures
            r == self.spec_is_invalid(*env),
    {
        match self {
            Loader::Katanga(l) => l.is_invalid(env),
            Loader::DesktopDuplication(l) => l.is_invalid(env),
            Loader::Captr(l) => l.is_invalid(env),
            Loader::Blank(l) => l.is_invalid(env),
        }
    }

    /// Extra GPU commands before the main pass; every backend here
    /// no-ops.
    pub fn encode_pre_pass(&self, texture: &Texture2D<Bound>) -> (r: Result<(), CaptureError>)
        ensures
            r is Ok,
    {
        match self {
            Loader::Katanga(l) => l.encode_pre_pass(texture),
            Loader::DesktopDuplication(l) => l.encode_pre_pass(texture),
            Loader::Captr(l) => l.encode_pre_pass(texture),
            Loader::Blank(l) => l.encode_pre_pass(texture),
        }
    }
}


/// Whether a load succeeds depends only on the backend's kind, the
/// snapshot, and the device's budget and id counter — never on the
/// backend's mutable state or the ledger's contents.
pub proof fn lemma_load_ok_same(
    a: Loader,
    b: Loader,
    env: CaptureEnvironment,
    d1: GpuDevice,
    d2: GpuDevice,
)
    requires
        spec_same_kind(a, b),
        spec_same_device(d1, d2),
    ensures
        a.spec_load_ok(env, d1) == b.spec_load_ok(env, d2),
{
}

} // verus!
