//! The desktop-duplication backend.
//!
//! Binds to the platform's native screen-duplication capability. A load
//! imports the currently shared surface without a pixel copy; a refresh
//! only flags invalidation when the producer's handle changed, instead of
//! re-importing inline; the invalidation poll compares the reported
//! display mode against the one the texture was loaded at.

use vstd::prelude::*;

use crate::external_texture::{ExternalApi, ExternalTextureInfo};
use crate::gpu::{spec_same_device, GpuDevice};
use crate::loaders::{
    norm_view_format, spec_norm_view_format, CaptureEnvironment, DuplicationFrame, TextureSource,
};
use crate::texture::{Bound, Texture2D};

verus! {

use crate::CaptureError;

/// The desktop-duplication backend: which screen it captures, the handle
/// currently bound, the display mode the texture was loaded at, and the
/// deferred invalidation flag.
pub struct DesktopDuplicationLoader {
    pub screen_index: usize,
    pub current_handle: Option<u64>,
    pub resolution: Option<(u32, u32)>,
    pub invalid: bool,
}

/// The descriptor a duplication frame is imported from: a plain
/// single-layer, single-sample, single-mip surface shared by the first
/// API.
pub open spec fn spec_frame_info(frame: DuplicationFrame) -> ExternalTextureInfo {
    ExternalTextureInfo {
        external_api: ExternalApi::D3D11,
        width: frame.width,
        height: frame.height,
        array_size: 1,
        sample_count: 1,
        mip_levels: 1,
        format: frame.format.spec_to_internal()->Some_0,
        actual_handle: frame.handle,
    }
}

impl DesktopDuplicationLoader {
    /// Binds to the duplication capability for one screen; fails when the
    /// platform does not offer it.
    pub fn new(screen_index: usize, env: &CaptureEnvironment) -> (r: Result<Self, CaptureError>)
        ensures
            r is Ok <==> env.duplication_available,
            r matches Ok(l) ==> l == (DesktopDuplicationLoader {
                screen_index,
                current_handle: None::<u64>,
                resolution: None::<(u32, u32)>,
                invalid: false,
            }),
            r is Err ==> r == Err::<Self, CaptureError>(CaptureError::NoCapturableSource),
    {
        if !env.duplication_available {
            return Err(CaptureError::NoCapturableSource);
        }
        Ok(DesktopDuplicationLoader { screen_index, current_handle: None, resolution: None, invalid: false })
    }

    /// Whether a load will succeed on this snapshot and device: the
    /// display mode must be readable, a frame acquirable, every format
    /// translation must exist, and the device must have room.
    pub open spec fn spec_load_ok(env: CaptureEnvironment, device: GpuDevice) -> bool {
        &&& env.display_mode is Some
        &&& env.duplication_frame is Some
        &&& env.duplication_frame->Some_0.format.spec_to_internal() is Some
        &&& spec_frame_info(env.duplication_frame->Some_0).spec_formats_ok(
            spec_norm_view_format(spec_frame_info(env.duplication_frame->Some_0).format),
        )
        &&& device.spec_capacity(5)
    }

    /// Whether the loader must reacquire: never loaded yet, the display
    /// mode unreadable or changed, or invalidation was flagged by a
    /// refresh.
    pub open spec fn spec_is_invalid(self, env: CaptureEnvironment) -> bool {
        if self.resolution is None {
            true
        } else {
            match env.display_mode {
                Some(dm) => dm != self.resolution->Some_0 || self.invalid,
                None => true,
            }
        }
    }

    /// Acquires the next shared surface and imports it; the source's
    /// reported size is the display mode's, not the surface's.
    pub fn load(
        &mut self,
        device: &mut GpuDevice,
        env: &CaptureEnvironment,
    ) -> (r: Result<TextureSource, CaptureError>)
        requires
            old(device).wf(),
            env.wf(),
        ensures
            final(device).wf(),
            r is Ok <==> Self::spec_load_ok(*env, *old(device)),
            r is Err ==> spec_same_device(*old(device), *final(device)),
            final(self).screen_index == old(self).screen_index,
            final(self).invalid == old(self).invalid,
            final(self).current_handle == (
                if env.display_mode is Some && env.duplication_frame is Some {
                    Some(env.duplication_frame->Some_0.handle)
                } else {
                    old(self).current_handle
                }
            ),
            final(self).resolution == (
                if r is Ok {
                    env.display_mode
                } else {
                    old(self).resolution
                }
            ),
            env.display_mode is None ==> r == Err::<TextureSource, CaptureError>(
                CaptureError::NoCapturableSource),
            env.display_mode is Some && env.duplication_frame is None ==> r == Err::<
                TextureSource,
                CaptureError,
            >(CaptureError::CaptureFailed),
            r matches Ok(src) ==> {
                &&& src.width == env.display_mode->Some_0.0
                &&& src.height == env.display_mode->Some_0.1
                &&& src.stereo_mode is None
                &&& src.texture.spec_bind_group() is None
                &&& src.texture.desc.width == env.duplication_frame->Some_0.width
                &&& src.texture.desc.height == env.duplication_frame->Some_0.height
                &&& src.texture.desc.depth_or_array_layers == 1
                &&& src.texture.desc.mip_level_count == 1
                &&& src.texture.desc.sample_count == 1
                &&& Some(src.texture.desc.format) == spec_frame_info(
                    env.duplication_frame->Some_0,
                ).format.spec_to_texture_format()
                &&& final(device).objects@.len() == old(device).objects@.len() + 5
                &&& final(device).objects@.subrange(0, old(device).objects@.len() as int)
                    =~= old(device).objects@
                &&& final(device).budget == old(device).budget - 5
                &&& final(device).next_id == old(device).next_id + 5
            },
    {
        let dm = match env.display_mode {
            Some(dm) => dm,
            None => {
                return Err(CaptureError::NoCapturableSource);
            },
        };
        let frame = match env.duplication_frame {
            Some(f) => f,
            None => {
                return Err(CaptureError::CaptureFailed);
            },
        };
        self.current_handle = Some(frame.handle);
        let format = match frame.format.to_internal() {
            Ok(f) => f,
            Err(_) => {
                return Err(CaptureError::UnsupportedFormat);
            },
        };
        let tex_info = ExternalTextureInfo {
            external_api: ExternalApi::D3D11,
            width: frame.width,
            height: frame.height,
            array_size: 1,
            sample_count: 1,
            mip_levels: 1,
            format,
            actual_handle: frame.handle,
        };
        // Sample an sRGB source through its plain twin.
        let view_format = norm_view_format(format);
        let texture = match tex_info.map_as_wgpu_texture(device, view_format) {
            Ok(t) => t,
            Err(e) => {
                return Err(e);
            },
        };
        self.resolution = Some(dm);
        Ok(TextureSource { texture, width: dm.0, height: dm.1, stereo_mode: None })
    }

    /// Acquires the next frame and flags invalidation when its handle
    /// differs from the bound one, instead of re-importing inline.
    pub fn update(
        &mut self,
        device: &mut GpuDevice,
        env: &CaptureEnvironment,
        _texture: &Texture2D<Bound>,
    ) -> (r: Result<(), CaptureError>)
        ensures
            *final(device) == *old(device),
            final(self).screen_index == old(self).screen_index,
            final(self).current_handle == old(self).current_handle,
            final(self).resolution == old(self).resolution,
            r is Ok <==> env.duplication_frame is Some,
            r is Err ==> r == Err::<(), CaptureError>(CaptureError::CaptureFailed) && *final(self)
                == *old(self),
            final(self).invalid == (
                if env.duplication_frame is Some {
                    old(self).invalid || old(self).current_handle != Some(
                        env.duplication_frame->Some_0.handle,
                    )
                } else {
                    old(self).invalid
                }
            ),
    {
        let frame = match env.duplication_frame {
            Some(f) => f,
            None => {
                return Err(CaptureError::CaptureFailed);
            },
        };
        match self.current_handle {
            Some(h) => {
                if h == frame.handle {
                    return Ok(());
                }
            },
            None => (),
        }
        self.invalid = true;
        Ok(())
    }

    /// O(1) poll: true when the reported display-mode dimensions differ
    /// from the ones the texture was loaded at, or a refresh flagged the
    /// handle as changed.
    pub fn is_invalid(&self, env: &CaptureEnvironment) -> (r: bool)
        ensures
            r == self.spec_is_invalid(*env),
    {
        let (width, height) = match self.resolution {
            Some(res) => res,
            None => {
                return true;
            },
        };
        match env.display_mode {
            Some(dm) => dm.0 != width || dm.1 != height || self.invalid,
            None => true,
        }
    }

    /// No pre-pass work is needed.
    pub fn encode_pre_pass(&self, _texture: &Texture2D<Bound>) -> (r: Result<(), CaptureError>)
        ensures
            r is Ok,
    {
        Ok(())
    }
}

} // verus!
