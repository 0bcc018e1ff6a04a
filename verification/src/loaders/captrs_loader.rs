//! The generic pixel-copy backend.
//!
//! An explicit lower-performance fallback for platforms without zero-copy
//! capture: a load allocates a plain texture at the screen's geometry,
//! and each refresh uploads the captured pixels through an ordinary
//! buffer-to-texture copy. A capture timeout is not an error; a changed
//! geometry is invalidation.

use vstd::prelude::*;

use crate::conversions::TextureFormat;
use crate::gpu::{GpuDevice, TextureDesc, TextureDimension, TextureUsages};
use crate::loaders::{CaptureEnvironment, CapturedFrame, TextureSource};
use crate::texture::{spec_fresh_texture, Bound, Texture2D, Unbound};

verus! {

use crate::CaptureError;

/// The pixel-copy backend: which screen it captures and the geometry the
/// current texture was allocated at.
pub struct CaptrLoader {
    pub screen_index: usize,
    pub geometry: (u32, u32),
}

/// The descriptor of the capture's upload target at a given geometry.
pub open spec fn spec_capture_texture_desc(width: u32, height: u32) -> TextureDesc {
    TextureDesc {
        width,
        height,
        depth_or_array_layers: 1,
        mip_level_count: 1,
        sample_count: 1,
        dimension: TextureDimension::D2,
        format: TextureFormat::Bgra8Unorm,
        usage: TextureUsages {
            copy_src: true,
            copy_dst: true,
            texture_binding: true,
            storage_binding: false,
            render_attachment: false,
        },
        view_format: None,
    }
}

impl CaptrLoader {
    /// Opens the capture for one screen; fails when the platform does not
    /// offer it.
    pub fn new(screen_index: usize, env: &CaptureEnvironment) -> (r: Result<Self, CaptureError>)
        ensures
            r is Ok <==> env.capture_available,
            r matches Ok(l) ==> l == (CaptrLoader { screen_index, geometry: (0u32, 0u32) }),
            r is Err ==> r == Err::<Self, CaptureError>(CaptureError::NoCapturableSource),
    {
        if !env.capture_available {
            return Err(CaptureError::NoCapturableSource);
        }
        Ok(CaptrLoader { screen_index, geometry: (0, 0) })
    }

    /// Whether a load will succeed: the geometry is always readable, so
    /// only the device can refuse.
    pub open spec fn spec_load_ok(env: CaptureEnvironment, device: GpuDevice) -> bool {
        device.spec_capacity(3)
    }

    /// Allocates the upload target at the screen's geometry.
    pub fn load(
        &mut self,
        device: &mut GpuDevice,
        env: &CaptureEnvironment,
    ) -> (r: Result<TextureSource, CaptureError>)
        requires
            old(device).wf(),
            env.wf(),
        ensures
            final(device).wf(),
            r is Ok <==> Self::spec_load_ok(*env, *old(device)),
            r is Err ==> *final(device) == *old(device) && r == Err::<TextureSource, CaptureError>(
                CaptureError::ResourceExhausted),
            final(self).screen_index == old(self).screen_index,
            final(self).geometry == env.capture_geometry,
            r matches Ok(src) ==> {
                &&& src.width == env.capture_geometry.0
                &&& src.height == env.capture_geometry.1
                &&& src.stereo_mode is None
                &&& spec_fresh_texture(
                    src.texture,
                    *old(device),
                    *final(device),
                    spec_capture_texture_desc(env.capture_geometry.0, env.capture_geometry.1),
                    None,
                    None,
                )
            },
    {
        self.geometry = env.capture_geometry;
        let (width, height) = env.capture_geometry;
        if !device.has_capacity(3) {
            return Err(CaptureError::ResourceExhausted);
        }
        let desc = TextureDesc {
            width,
            height,
            depth_or_array_layers: 1,
            mip_level_count: 1,
            sample_count: 1,
            dimension: TextureDimension::D2,
            format: TextureFormat::Bgra8Unorm,
            usage: TextureUsages {
                copy_src: true,
                copy_dst: true,
                texture_binding: true,
                storage_binding: false,
                render_attachment: false,
            },
            view_format: None,
        };
        let id = match device.create_texture(desc) {
            Ok(id) => id,
            Err(e) => {
                return Err(e);
            },
        };
        let texture = Texture2D::<Unbound>::from_wgpu(device, id, desc);
        Ok(TextureSource { texture, width, height, stereo_mode: None })
    }

    /// Uploads the captured frame into the bound texture; a timeout
    /// leaves the previous contents in place and is not an error.
    pub fn update(
        &mut self,
        device: &mut GpuDevice,
        env: &CaptureEnvironment,
        texture: &Texture2D<Bound>,
    ) -> (r: Result<(), CaptureError>)
        requires
            old(device).wf(),
        ensures
            final(device).wf(),
            *final(self) == *old(self),
            r is Ok <==> !(env.capture_frame is Failed),
            r is Err ==> *final(device) == *old(device) && r == Err::<(), CaptureError>(
                CaptureError::CaptureFailed),
            env.capture_frame is Timeout ==> *final(device) == *old(device),
            env.capture_frame matches CapturedFrame::Frame(data) ==> {
                &&& final(device).objects@.len() == old(device).objects@.len()
                &&& final(device).budget == old(device).budget
                &&& final(device).next_id == old(device).next_id
                &&& forall|j: int|
                    0 <= j < old(device).objects@.len() && (#[trigger] old(
                        device,
                    ).objects@[j]).id != texture.texture ==> final(device).objects@[j] == old(
                        device,
                    ).objects@[j]
                &&& forall|j: int| {
                    &&& 0 <= j < old(device).objects@.len()
                    &&& (#[trigger] old(device).objects@[j]).id == texture.texture
                    &&& old(device).objects@[j].object is Texture
                } ==> (final(device).objects@[j].object->Texture_data matches Some(bytes)
                    && bytes@ == data@)
            },
    {
        match &env.capture_frame {
            CapturedFrame::Timeout => Ok(()),
            CapturedFrame::Failed => Err(CaptureError::CaptureFailed),
            CapturedFrame::Frame(data) => {
                device.write_texture(texture.texture, data);
                Ok(())
            },
        }
    }

    /// O(1) poll: true when the screen geometry no longer matches the one
    /// the texture was allocated at.
    pub fn is_invalid(&self, env: &CaptureEnvironment) -> (r: bool)
        ensures
            r == (env.capture_geometry != self.geometry),
    {
        env.capture_geometry.0 != self.geometry.0 || env.capture_geometry.1 != self.geometry.1
    }

    /// No pre-pass work is needed.
    pub fn encode_pre_pass(&self, _texture: &Texture2D<Bound>) -> (r: Result<(), CaptureError>)
        ensures
            r is Ok,
    {
        Ok(())
    }
}

} // verus!
