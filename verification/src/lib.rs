//! A verified desktop-capture texture pipeline for a VR viewer.
//!
//! The crate models the path from a captured desktop surface to a texture
//! bound for rendering: a neutral pixel-format hub with partial translations
//! into each native format space, an external-memory importer that never
//! leaks a GPU object on a failed step, a typestate texture wrapper that
//! makes "read the binding before it exists" unrepresentable, a fixed ring
//! of textures for temporal effects, and the loader-selection protocol that
//! the render loop drives.

use vstd::prelude::*;

pub mod conversions;
pub mod formats;
pub mod gpu;
pub mod loaders;
pub mod external_texture;
pub mod texture;

verus! {

/// The error taxonomy of the capture pipeline.
#[derive(Clone, Copy, Debug, PartialEq, Eq, Structural)]
pub enum CaptureError {
    /// No format-table row exists for the requested translation; never
    /// recovered by substitution.
    UnsupportedFormat,
    /// An OS handle no longer resolves to a live resource; recovered by
    /// the invalidate/reacquire path.
    HandleStale,
    /// The device could not allocate or import; the attempt is abandoned
    /// and the selection policy moves on.
    ResourceExhausted,
    /// No capturable source could be found by this loader.
    NoCapturableSource,
    /// A capture attempt failed after acquisition; forces a reacquire.
    CaptureFailed,
    /// A byte buffer did not decode as an image.
    DecodeFailed,
}


/// The base resolution of the ambient/blur intermediate ring.
pub const AMBIENT_BLUR_BASE_RES: u32 = 16;

/// The color format of the swapchain, which the ambient ring renders in.
pub const SWAPCHAIN_COLOR_FORMAT: crate::formats::InternalColorFormat =
    crate::formats::InternalColorFormat::Bgra8UnormSrgb;

/// An aspect ratio as an exact rational: the displayed width over height,
/// already corrected by the stereo layout's multiplier.
#[derive(Clone, Copy, Debug, PartialEq, Eq, Structural)]
pub struct AspectRatio {
    pub num: u64,
    pub den: u64,
}

impl AspectRatio {
    /// Positive and small enough for the geometry arithmetic.
    pub open spec fn wf(self) -> bool {
        1 <= self.num && 1 <= self.den <= 0x400_0000
    }
}

/// The aspect ratio of a source: width over height, the width corrected
/// by the stereo layout's multiplier.
pub open spec fn spec_aspect_of(width: u32, height: u32, stereo: Option<
    crate::loaders::StereoMode,
>) -> AspectRatio {
    let m = match stereo {
        Some(sm) => sm.spec_aspect_ratio_multiplier(),
        None => (1u32, 1u32),
    };
    AspectRatio { num: (width * m.0) as u64, den: (height * m.1) as u64 }
}

/// The end of an upgrade scan: strictly before the active loader, or the
/// whole list when none is active.
pub open spec fn spec_scan_end(current: Option<usize>, len: int) -> int {
    match current {
        Some(c) => if c < len {
            c as int
        } else {
            len
        },
        None => len,
    }
}

/// Attempts one loader and turns its source into the tuple the selection
/// policy works with: the unbound texture, the corrected aspect ratio,
/// the stereo layout, and the loader's index.
pub fn try_loader(
    loader: &mut crate::loaders::Loader,
    device: &mut crate::gpu::GpuDevice,
    env: &crate::loaders::CaptureEnvironment,
    loader_idx: usize,
) -> (r: Option<
    (
        crate::texture::Texture2D<crate::texture::Unbound>,
        AspectRatio,
        Option<crate::loaders::StereoMode>,
        usize,
    ),
>)
    requires
        old(device).wf(),
        env.wf(),
    ensures
        final(device).wf(),
        crate::loaders::spec_same_kind(*old(loader), *final(loader)),
        r is Some <==> old(loader).spec_load_ok(*env, *old(device)),
        r is None ==> crate::gpu::spec_same_device(*old(device), *final(device)),
        r matches Some((t, aspect, mode, idx)) ==> {
            &&& idx == loader_idx
            &&& mode == old(loader).spec_stereo()
            &&& t.spec_bind_group() is None
            &&& aspect == spec_aspect_of(
                old(loader).spec_source_dims(*env).0,
                old(loader).spec_source_dims(*env).1,
                old(loader).spec_stereo(),
            )
            &&& final(device).objects@.len() == old(device).objects@.len() + old(
                loader,
            ).spec_load_cost()
            &&& final(device).objects@.subrange(0, old(device).objects@.len() as int)
                =~= old(device).objects@
            &&& final(device).budget == old(device).budget - old(loader).spec_load_cost()
            &&& final(device).next_id == old(device).next_id + old(loader).spec_load_cost()
        },
{
    match loader.load(device, env) {
        Ok(src) => {
            let m: (u32, u32) = match &src.stereo_mode {
                Some(sm) => sm.aspect_ratio_multiplier(),
                None => (1u32, 1u32),
            };
            proof {
                assert(m.0 <= 2 && m.1 <= 2);
            }
            let aspect = AspectRatio {
                num: (src.width as u64) * (m.0 as u64),
                den: (src.height as u64) * (m.1 as u64),
            };
            Some((src.texture, aspect, src.stereo_mode, loader_idx))
        },
        Err(_) => None,
    }
}

/// Scans the loaders in priority order, strictly above the active one,
/// and stops at the first success: no loader below the winner is ever
/// attempted in that pass.
pub fn try_to_load_texture(
    loaders: &mut Vec<crate::loaders::Loader>,
    device: &mut crate::gpu::GpuDevice,
    env: &crate::loaders::CaptureEnvironment,
    current_loader: Option<usize>,
) -> (r: Option<
    (
        crate::texture::Texture2D<crate::texture::Unbound>,
        AspectRatio,
        Option<crate::loaders::StereoMode>,
        usize,
    ),
>)
    requires
        old(device).wf(),
        env.wf(),
    ensures
        final(device).wf(),
        final(loaders)@.len() == old(loaders)@.len(),
        forall|j: int|
            0 <= j < old(loaders)@.len() ==> crate::loaders::spec_same_kind(
                #[trigger] old(loaders)@[j],
                final(loaders)@[j],
            ),
        r is None <==> forall|j: int|
            0 <= j < spec_scan_end(current_loader, old(loaders)@.len() as int) ==> !(
            #[trigger] old(loaders)@[j]).spec_load_ok(*env, *old(device)),
        r is None ==> crate::gpu::spec_same_device(*old(device), *final(device)),
        r matches Some((t, aspect, mode, i)) ==> {
            &&& 0 <= i < spec_scan_end(current_loader, old(loaders)@.len() as int)
            &&& old(loaders)@[i as int].spec_load_ok(*env, *old(device))
            &&& forall|j: int|
                0 <= j < i ==> !(#[trigger] old(loaders)@[j]).spec_load_ok(*env, *old(device))
            &&& forall|j: int|
                i < j < old(loaders)@.len() ==> final(loaders)@[j] == old(loaders)@[j]
            &&& mode == old(loaders)@[i as int].spec_stereo()
            &&& t.spec_bind_group() is None
            &&& aspect == spec_aspect_of(
                old(loaders)@[i as int].spec_source_dims(*env).0,
                old(loaders)@[i as int].spec_source_dims(*env).1,
                old(loaders)@[i as int].spec_stereo(),
            )
            &&& final(device).objects@.len() == old(device).objects@.len() + old(
                loaders,
            )@[i as int].spec_load_cost()
            &&& final(device).objects@.subrange(0, old(device).objects@.len() as int)
                =~= old(device).objects@
            &&& final(device).budget == old(device).budget - old(loaders)@[i as int].spec_load_cost()
            &&& final(device).next_id == old(device).next_id + old(
                loaders,
            )@[i as int].spec_load_cost()
        },
{
    let len = loaders.len();
    let stop: usize = match current_loader {
        Some(c) => if c < len {
            c
        } else {
            len
        },
        None => len,
    };
    let mut i: usize = 0;
    while i < stop
        invariant
            stop <= len,
            len == loaders@.len(),
            len == old(loaders)@.len(),
            stop as int == spec_scan_end(current_loader, old(loaders)@.len() as int),
            i <= stop,
            env.wf(),
            device.wf(),
            crate::gpu::spec_same_device(*old(device), *device),
            forall|j: int| i <= j < len ==> loaders@[j] == old(loaders)@[j],
            forall|j: int|
                0 <= j < len ==> crate::loaders::spec_same_kind(
                    #[trigger] old(loaders)@[j],
                    loaders@[j],
                ),
            forall|j: int|
                0 <= j < i ==> !(#[trigger] old(loaders)@[j]).spec_load_ok(*env, *old(device)),
        decreases stop - i,
    {
        let ghost pre = loaders@;
        let mut l = loaders.remove(i);
        let attempt = try_loader(&mut l, device, env, i);
        loaders.insert(i, l);
        proof {
            assert(loaders@ =~= pre.update(i as int, loaders@[i as int]));
        }
        match attempt {
            Some(t) => {
                return Some(t);
            },
            None => (),
        }
        i = i + 1;
    }
    None
}

/// Sets the invalidation flag when the active loader reports it must
/// reacquire, and when no loader is active at all.
pub fn check_loader_invalidation(
    current_loader: Option<usize>,
    loaders: &Vec<crate::loaders::Loader>,
    env: &crate::loaders::CaptureEnvironment,
    screen_invalidated: &mut bool,
)
    requires
        current_loader matches Some(i) ==> i < loaders@.len(),
    ensures
        *final(screen_invalidated) == (match current_loader {
            Some(i) => *old(screen_invalidated) || loaders@[i as int].spec_is_invalid(*env),
            None => true,
        }),
{
    match current_loader {
        Some(i) => {
            if loaders[i].is_invalid(env) {
                *screen_invalidated = true;
            }
        },
        None => {
            *screen_invalidated = true;
        },
    }
}


/// The descriptor every slot of the ambient ring is created with: the
/// base resolution widened by the stereo multipliers, rendered in the
/// swapchain's color format, inheriting the screen texture's
/// dimensionality and usage extended with render-target capability.
pub open spec fn spec_ambient_desc(
    screen_desc: crate::gpu::TextureDesc,
    aspect: AspectRatio,
    stereo_mode: crate::loaders::StereoMode,
) -> crate::gpu::TextureDesc {
    crate::gpu::TextureDesc {
        width: (AMBIENT_BLUR_BASE_RES * spec_width_multiplier(stereo_mode)) as u32,
        height: spec_ambient_height(aspect, stereo_mode),
        depth_or_array_layers: screen_desc.depth_or_array_layers,
        mip_level_count: 1,
        sample_count: 1,
        dimension: screen_desc.dimension,
        format: SWAPCHAIN_COLOR_FORMAT.spec_to_texture_format()->Some_0,
        usage: screen_desc.usage.spec_union(crate::texture::spec_render_attachment_usage()),
        view_format: None,
    }
}

/// A full top-and-bottom source doubles the ring's height.
pub open spec fn spec_height_multiplier(stereo_mode: crate::loaders::StereoMode) -> u32 {
    match stereo_mode {
        crate::loaders::StereoMode::FullTab => 2u32,
        _ => 1u32,
    }
}

/// A full side-by-side source doubles the ring's width.
pub open spec fn spec_width_multiplier(stereo_mode: crate::loaders::StereoMode) -> u32 {
    match stereo_mode {
        crate::loaders::StereoMode::FullSbs => 2u32,
        _ => 1u32,
    }
}

/// The ring's height: the base resolution divided by the aspect ratio,
/// truncated, then widened by the stereo multiplier.
pub open spec fn spec_ambient_height(
    aspect: AspectRatio,
    stereo_mode: crate::loaders::StereoMode,
) -> u32 {
    ((((AMBIENT_BLUR_BASE_RES as int) * (aspect.den as int)) / (aspect.num as int))
        * (spec_height_multiplier(stereo_mode) as int)) as u32
}

/// Builds the three-slot ambient ring: three render targets sized
/// relative to the screen texture's aspect ratio, each bound to the
/// caller's layout. All slots are allocated here, once; afterwards only
/// the cursor and the slot contents change.
pub fn get_ambient_texture(
    screen_texture: &crate::texture::Texture2D<crate::texture::Bound>,
    aspect: AspectRatio,
    stereo_mode: &crate::loaders::StereoMode,
    device: &mut crate::gpu::GpuDevice,
    bind_group_layout: &crate::gpu::BindGroupLayout,
) -> (r: Result<
    crate::texture::RoundRobinTextureBuffer<
        crate::texture::Texture2D<crate::texture::Bound>,
        3,
    >,
    CaptureError,
>)
    requires
        old(device).wf(),
        aspect.wf(),
    ensures
        final(device).wf(),
        r is Ok <==> old(device).spec_capacity(12),
        r is Err ==> *final(device) == *old(device) && r == Err::<
            crate::texture::RoundRobinTextureBuffer<
                crate::texture::Texture2D<crate::texture::Bound>,
                3,
            >,
            CaptureError,
        >(CaptureError::ResourceExhausted),
        r matches Ok(buf) ==> {
            &&& buf.wf()
            &&& buf.index == 0
            &&& forall|k: int|
                0 <= k < 3 ==> (#[trigger] buf.textures@[k]).desc == spec_ambient_desc(
                    screen_texture.desc,
                    aspect,
                    *stereo_mode,
                )
            &&& forall|k: int| 0 <= k < 3 ==> (#[trigger] buf.textures@[k]).spec_bind_group() is Some
            &&& final(device).objects@.len() == old(device).objects@.len() + 12
            &&& final(device).objects@.subrange(0, old(device).objects@.len() as int)
                =~= old(device).objects@
            &&& final(device).budget == old(device).budget - 12
        },
{
    let height_multiplier: u32 = match stereo_mode {
        crate::loaders::StereoMode::FullTab => 2,
        _ => 1,
    };
    let width_multiplier: u32 = match stereo_mode {
        crate::loaders::StereoMode::FullSbs => 2,
        _ => 1,
    };
    if !device.has_capacity(12) {
        return Err(CaptureError::ResourceExhausted);
    }
    let width: u32 = AMBIENT_BLUR_BASE_RES * width_multiplier;
    proof {
        assert(0 <= (16 * (aspect.den as int)) / (aspect.num as int) <= 16 * (aspect.den as int))
            by (nonlinear_arith)
            requires
                aspect.num >= 1,
                aspect.den >= 1,
        ;
    }
    let base: u64 = ((AMBIENT_BLUR_BASE_RES as u64) * aspect.den) / aspect.num;
    proof {
        assert(base <= 0x4000_0000);
        assert(height_multiplier <= 2);
        assert((base as int) * (height_multiplier as int) <= 0x8000_0000) by (nonlinear_arith)
            requires
                base <= 0x4000_0000,
                height_multiplier <= 2,
        ;
    }
    let height: u32 = (base as u32) * height_multiplier;
    let depth: u32 = screen_texture.desc.depth_or_array_layers;
    let t0 = match screen_texture.as_render_target_with_extent(
        width,
        height,
        depth,
        SWAPCHAIN_COLOR_FORMAT,
        None,
        device,
    ) {
        Ok(t) => t,
        Err(_) => {
            proof {
                assert(false);
            }
            return Err(CaptureError::ResourceExhausted);
        },
    };
    proof {
        assert(device.objects@.subrange(0, old(device).objects@.len() as int) =~= old(
            device,
        ).objects@);
    }
    let b0 = t0.bind_to_context(device, bind_group_layout);
    proof {
        assert(device.objects@.subrange(0, old(device).objects@.len() as int) =~= old(
            device,
        ).objects@);
    }
    let t1 = match screen_texture.as_render_target_with_extent(
        width,
        height,
        depth,
        SWAPCHAIN_COLOR_FORMAT,
        None,
        device,
    ) {
        Ok(t) => t,
        Err(_) => {
            proof {
                assert(false);
            }
            return Err(CaptureError::ResourceExhausted);
        },
    };
    proof {
        assert(device.objects@.subrange(0, old(device).objects@.len() as int) =~= old(
            device,
        ).objects@);
    }
    let b1 = t1.bind_to_context(device, bind_group_layout);
    proof {
        assert(device.objects@.subrange(0, old(device).objects@.len() as int) =~= old(
            device,
        ).objects@);
    }
    let t2 = match screen_texture.as_render_target_with_extent(
        width,
        height,
        depth,
        SWAPCHAIN_COLOR_FORMAT,
        None,
        device,
    ) {
        Ok(t) => t,
        Err(_) => {
            proof {
                assert(false);
            }
            return Err(CaptureError::ResourceExhausted);
        },
    };
    proof {
        assert(device.objects@.subrange(0, old(device).objects@.len() as int) =~= old(
            device,
        ).objects@);
    }
    let b2 = t2.bind_to_context(device, bind_group_layout);
    proof {
        assert(device.objects@.subrange(0, old(device).objects@.len() as int) =~= old(
            device,
        ).objects@);
    }
    Ok(crate::texture::RoundRobinTextureBuffer::new([b0, b1, b2]))
}


/// The render loop's loader-selection state: the loaders in priority
/// order, the index of the active one, the pending-invalidation flag, and
/// the texture currently displayed. The loop drives it with one tick
/// method per phase; the OS snapshot and the device come in from outside
/// each tick.
pub struct PipelineState {
    pub loaders: Vec<crate::loaders::Loader>,
    pub current_loader: Option<usize>,
    pub screen_invalidated: bool,
    pub screen_texture: Option<crate::texture::Texture2D<crate::texture::Bound>>,
}

impl PipelineState {
    /// The active index stays in range, the active texture exists while a
    /// loader is active, and a displayed texture is always bound.
    pub open spec fn wf(self) -> bool {
        &&& self.current_loader matches Some(i) ==> i < self.loaders@.len()
        &&& self.current_loader is Some ==> self.screen_texture is Some
        &&& self.screen_texture matches Some(s) ==> s.spec_bind_group() is Some
    }

    /// A fresh pipeline over a priority-ordered list of loaders; nothing
    /// is active yet, so the first invalidation check will force a load.
    pub fn new(loaders: Vec<crate::loaders::Loader>) -> (r: Self)
        ensures
            r.wf(),
            r.loaders@ == loaders@,
            r.current_loader is None,
            r.screen_invalidated == false,
            r.screen_texture is None,
    {
        PipelineState { loaders, current_loader: None, screen_invalidated: false, screen_texture: None }
    }

    /// Tries to upgrade to a loader of strictly higher priority than the
    /// active one. On success the new texture is bound first and the
    /// previous one destroyed only then; loaders below the winner are not
    /// attempted. Returns the new aspect ratio and stereo layout for the
    /// caller to resize its intermediate buffers with.
    pub fn tick_upgrade(
        &mut self,
        device: &mut crate::gpu::GpuDevice,
        env: &crate::loaders::CaptureEnvironment,
        bind_group_layout: &crate::gpu::BindGroupLayout,
    ) -> (r: Option<(AspectRatio, Option<crate::loaders::StereoMode>)>)
        requires
            old(self).wf(),
            old(device).wf(),
            old(device).spec_capacity(6),
            env.wf(),
        ensures
            final(self).wf(),
            final(device).wf(),
            final(self).loaders@.len() == old(self).loaders@.len(),
            forall|j: int|
                0 <= j < old(self).loaders@.len() ==> crate::loaders::spec_same_kind(
                    #[trigger] old(self).loaders@[j],
                    final(self).loaders@[j],
                ),
            r is None <==> forall|j: int|
                0 <= j < spec_scan_end(old(self).current_loader, old(self).loaders@.len() as int)
                    ==> !(#[trigger] old(self).loaders@[j]).spec_load_ok(*env, *old(device)),
            r is None ==> {
                &&& final(self).current_loader == old(self).current_loader
                &&& final(self).screen_invalidated == old(self).screen_invalidated
                &&& final(self).screen_texture == old(self).screen_texture
                &&& crate::gpu::spec_same_device(*old(device), *final(device))
            },
            r is Some ==> (final(self).current_loader matches Some(w) && {
                &&& 0 <= w < spec_scan_end(old(self).current_loader, old(self).loaders@.len() as int)
                &&& old(self).loaders@[w as int].spec_load_ok(*env, *old(device))
                &&& forall|j: int|
                    0 <= j < w ==> !(#[trigger] old(self).loaders@[j]).spec_load_ok(
                        *env,
                        *old(device),
                    )
                &&& forall|j: int|
                    w < j < old(self).loaders@.len() ==> final(self).loaders@[j] == old(
                        self,
                    ).loaders@[j]
                &&& final(self).screen_texture matches Some(s) && s.spec_bind_group() is Some
                &&& final(self).screen_invalidated == (old(self).current_loader != Some(w))
                &&& r == Some(
                    (
                        spec_aspect_of(
                            old(self).loaders@[w as int].spec_source_dims(*env).0,
                            old(self).loaders@[w as int].spec_source_dims(*env).1,
                            old(self).loaders@[w as int].spec_stereo(),
                        ),
                        old(self).loaders@[w as int].spec_stereo(),
                    ),
                )
                &&& (old(self).screen_texture matches Some(prev)
                    ==> !final(device).spec_contains_id(prev.texture))
            }),
    {
        let r = try_to_load_texture(&mut self.loaders, device, env, self.current_loader);
        match r {
            Some((texture, aspect, mode, loader_idx)) => {
                let new_screen = texture.bind_to_context(device, bind_group_layout);
                let previous = self.screen_texture.take();
                self.screen_texture = Some(new_screen);
                match previous {
                    Some(prev) => {
                        release_screen(device, prev);
                    },
                    None => (),
                }
                let changed: bool = match self.current_loader {
                    Some(c) => c != loader_idx,
                    None => true,
                };
                self.screen_invalidated = changed;
                self.current_loader = Some(loader_idx);
                Some((aspect, mode))
            },
            None => None,
        }
    }

    /// Polls the active loader's invalidation flag into the pipeline's
    /// own; with no active loader the flag is set so the next reload pass
    /// acquires one.
    pub fn tick_check_invalidation(&mut self, env: &crate::loaders::CaptureEnvironment)
        requires
            old(self).wf(),
        ensures
            final(self).wf(),
            final(self).loaders@ == old(self).loaders@,
            final(self).current_loader == old(self).current_loader,
            final(self).screen_texture == old(self).screen_texture,
            final(self).screen_invalidated == (match old(self).current_loader {
                Some(i) => old(self).screen_invalidated || old(
                    self,
                ).loaders@[i as int].spec_is_invalid(*env),
                None => true,
            }),
    {
        check_loader_invalidation(self.current_loader, &self.loaders, env, &mut self.screen_invalidated)
    }

    /// Acts on a pending invalidation: retries the active loader first
    /// and falls back to a scan of the whole priority list only when that
    /// fails. The flag is cleared either way; on success the previous
    /// texture is destroyed only after the new one is bound.
    pub fn tick_reload(
        &mut self,
        device: &mut crate::gpu::GpuDevice,
        env: &crate::loaders::CaptureEnvironment,
        bind_group_layout: &crate::gpu::BindGroupLayout,
    ) -> (r: Option<(AspectRatio, Option<crate::loaders::StereoMode>)>)
        requires
            old(self).wf(),
            old(device).wf(),
            old(device).spec_capacity(6),
            env.wf(),
        ensures
            final(self).wf(),
            final(device).wf(),
            final(self).loaders@.len() == old(self).loaders@.len(),
            forall|j: int|
                0 <= j < old(self).loaders@.len() ==> crate::loaders::spec_same_kind(
                    #[trigger] old(self).loaders@[j],
                    final(self).loaders@[j],
                ),
            !old(self).screen_invalidated ==> {
                &&& r is None
                &&& final(self).loaders@ == old(self).loaders@
                &&& final(self).current_loader == old(self).current_loader
                &&& final(self).screen_invalidated == old(self).screen_invalidated
                &&& final(self).screen_texture == old(self).screen_texture
                &&& crate::gpu::spec_same_device(*old(device), *final(device))
            },
            old(self).screen_invalidated ==> final(self).screen_invalidated == false,
            old(self).screen_invalidated ==> (r is Some <==> exists|j: int|
                0 <= j < old(self).loaders@.len() && (#[trigger] old(self).loaders@[j]).spec_load_ok(
                    *env,
                    *old(device),
                )),
            old(self).screen_invalidated && r is None ==> {
                &&& final(self).current_loader == old(self).current_loader
                &&& final(self).screen_texture == old(self).screen_texture
                &&& crate::gpu::spec_same_device(*old(device), *final(device))
            },
            old(self).screen_invalidated && r is Some ==> (final(self).current_loader
                matches Some(w) && {
                &&& 0 <= w < old(self).loaders@.len()
                &&& old(self).loaders@[w as int].spec_load_ok(*env, *old(device))
                &&& (old(self).current_loader is Some && old(self).loaders@[old(
                    self,
                ).current_loader->Some_0 as int].spec_load_ok(*env, *old(device)) ==> w == old(
                    self,
                ).current_loader->Some_0)
                &&& ((match old(self).current_loader {
                    Some(c) => !old(self).loaders@[c as int].spec_load_ok(*env, *old(device)),
                    None => true,
                }) ==> forall|j: int|
                    0 <= j < w ==> !(#[trigger] old(self).loaders@[j]).spec_load_ok(
                        *env,
                        *old(device),
                    ))
                &&& final(self).screen_texture matches Some(s) && s.spec_bind_group() is Some
                &&& (old(self).screen_texture matches Some(prev)
                    ==> !final(device).spec_contains_id(prev.texture))
            }),
    {
        if !self.screen_invalidated {
            return None;
        }
        // Try the same loader again before falling back to the full
        // priority scan.
        let first = match self.current_loader {
            Some(idx) => {
                let ghost pre = self.loaders@;
                let mut l = self.loaders.remove(idx);
                let attempt = try_loader(&mut l, device, env, idx);
                self.loaders.insert(idx, l);
                proof {
                    assert(self.loaders@ =~= pre.update(idx as int, self.loaders@[idx as int]));
                }
                attempt
            },
            None => None,
        };
        let ghost mid_loaders = self.loaders@;
        let ghost dev_mid = *device;
        let new_loader = match first {
            Some(t) => Some(t),
            None => try_to_load_texture(&mut self.loaders, device, env, None),
        };
        proof {
            assert forall|j: int|
                0 <= j < old(self).loaders@.len() implies crate::loaders::spec_same_kind(
                #[trigger] old(self).loaders@[j],
                self.loaders@[j],
            ) by {
                crate::loaders::lemma_load_ok_same(
                    old(self).loaders@[j],
                    old(self).loaders@[j],
                    *env,
                    *old(device),
                    *old(device),
                );
                assert(crate::loaders::spec_same_kind(old(self).loaders@[j], mid_loaders[j]));
                assert(crate::loaders::spec_same_kind(mid_loaders[j], self.loaders@[j]));
            }
            if first is None {
                assert(crate::gpu::spec_same_device(*old(device), dev_mid));
                assert forall|j: int|
                    0 <= j < old(self).loaders@.len() implies ((#[trigger] old(
                    self,
                ).loaders@[j]).spec_load_ok(*env, *old(device)) == mid_loaders[j].spec_load_ok(
                    *env,
                    dev_mid,
                )) by {
                    crate::loaders::lemma_load_ok_same(
                        old(self).loaders@[j],
                        mid_loaders[j],
                        *env,
                        *old(device),
                        dev_mid,
                    );
                }
            }
        }
        match new_loader {
            Some((texture, aspect, mode, loader_idx)) => {
                let new_screen = texture.bind_to_context(device, bind_group_layout);
                let previous = self.screen_texture.take();
                self.screen_texture = Some(new_screen);
                match previous {
                    Some(prev) => {
                        release_screen(device, prev);
                    },
                    None => (),
                }
                self.current_loader = Some(loader_idx);
                self.screen_invalidated = false;
                Some((aspect, mode))
            },
            None => {
                self.screen_invalidated = false;
                None
            },
        }
    }

    /// Runs the active loader's per-tick refresh; a failed refresh flags
    /// invalidation so the next reload pass reacquires.
    pub fn tick_update(
        &mut self,
        device: &mut crate::gpu::GpuDevice,
        env: &crate::loaders::CaptureEnvironment,
    )
        requires
            old(self).wf(),
            old(device).wf(),
        ensures
            final(self).wf(),
            final(device).wf(),
            final(self).current_loader == old(self).current_loader,
            final(self).screen_texture == old(self).screen_texture,
            final(self).loaders@.len() == old(self).loaders@.len(),
            forall|j: int|
                0 <= j < old(self).loaders@.len() ==> crate::loaders::spec_same_kind(
                    #[trigger] old(self).loaders@[j],
                    final(self).loaders@[j],
                ),
            final(device).objects@.len() == old(device).objects@.len(),
            final(device).budget == old(device).budget,
            final(device).next_id == old(device).next_id,
            final(self).screen_invalidated == (match old(self).current_loader {
                Some(i) => old(self).screen_invalidated || !old(
                    self,
                ).loaders@[i as int].spec_update_ok(*env),
                None => old(self).screen_invalidated,
            }),
            old(self).current_loader matches Some(i) ==> forall|j: int|
                0 <= j < old(self).loaders@.len() && j != i ==> final(self).loaders@[j] == old(
                    self,
                ).loaders@[j],
            old(self).current_loader is None ==> final(self).loaders@ == old(self).loaders@,
    {
        let idx = match self.current_loader {
            Some(i) => i,
            None => {
                return ;
            },
        };
        let tex = match &self.screen_texture {
            Some(t) => t,
            None => {
                proof {
                    assert(false);
                }
                return ;
            },
        };
        let ghost pre = self.loaders@;
        let mut l = self.loaders.remove(idx);
        let result = l.update(device, env, tex);
        self.loaders.insert(idx, l);
        proof {
            assert(self.loaders@ =~= pre.update(idx as int, self.loaders@[idx as int]));
        }
        match result {
            Ok(_) => (),
            Err(_) => {
                self.screen_invalidated = true;
            },
        }
    }
}

/// Destroys the four device objects of a displayed texture, newest
/// first: the binding group, the sampler, the view, and the texture
/// itself last, so that afterwards the texture id is certainly gone.
fn release_screen(
    device: &mut crate::gpu::GpuDevice,
    screen: crate::texture::Texture2D<crate::texture::Bound>,
)
    requires
        old(device).wf(),
        screen.spec_bind_group() is Some,
    ensures
        final(device).wf(),
        !final(device).spec_contains_id(screen.texture),
        final(device).next_id <= old(device).next_id,
        final(device).objects@.len() >= old(device).objects@.len() - 4,
        final(device).objects@.len() <= old(device).objects@.len(),
        final(device).budget >= old(device).budget,
{
    let bind_group = match screen.bind_group {
        Some(id) => id,
        None => {
            proof {
                assert(false);
            }
            0
        },
    };
    device.destroy(bind_group);
    device.destroy(screen.sampler);
    device.destroy(screen.view);
    device.destroy(screen.texture);
}


} // verus!
