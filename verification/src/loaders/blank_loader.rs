//! The blank fallback backend.
//!
//! Always succeeds with a one-by-one grey placeholder texture, is never
//! invalid, and its refresh does nothing: the pipeline always has
//! something to display, whatever the platform offers.

use vstd::prelude::*;

use crate::gpu::GpuDevice;
use crate::loaders::{CaptureEnvironment, TextureSource};
use crate::texture::{
    spec_fresh_texture, spec_image_texture_desc, Bound, Texture2D, Unbound,
};

verus! {

use crate::CaptureError;

/// The fallback loader; it owns no OS resource and carries no state.
#[derive(Default)]
pub struct BlankLoader;

/// The single grey pixel of the placeholder texture.
pub open spec fn spec_blank_pixel() -> Seq<u8> {
    seq![0x80u8, 0x80u8, 0x80u8, 0xffu8]
}

impl BlankLoader {
    /// Whether a load will succeed: it needs only room on the device.
    pub open spec fn spec_load_ok(device: GpuDevice) -> bool {
        device.spec_capacity(3)
    }

    /// Creates the one-by-one grey placeholder texture. It succeeds
    /// whenever the device has room, whatever the environment holds.
    pub fn load(
        &mut self,
        device: &mut GpuDevice,
        _env: &CaptureEnvironment,
    ) -> (r: Result<TextureSource, CaptureError>)
        requires
            old(device).wf(),
        ensures
            final(device).wf(),
            r is Ok <==> Self::spec_load_ok(*old(device)),
            r is Err ==> *final(device) == *old(device) && r == Err::<TextureSource, CaptureError>(
                CaptureError::ResourceExhausted),
            r matches Ok(src) ==> {
                &&& src.width == 1 && src.height == 1
                &&& src.stereo_mode is None
                &&& spec_fresh_texture(
                    src.texture,
                    *old(device),
                    *final(device),
                    spec_image_texture_desc(1, 1, None),
                    Some(spec_blank_pixel()),
                    None,
                )
            },
    {
        let mut pixel: Vec<u8> = Vec::new();
        pixel.push(0x80);
        pixel.push(0x80);
        pixel.push(0x80);
        pixel.push(0xff);
        proof {
            assert(pixel@ =~= spec_blank_pixel());
        }
        let blank_texture = match Texture2D::<Unbound>::from_image(device, &pixel, 1, 1, None) {
            Ok(t) => t,
            Err(e) => {
                return Err(e);
            },
        };
        Ok(TextureSource { texture: blank_texture, width: 1, height: 1, stereo_mode: None })
    }

    /// The placeholder needs no refresh; this always succeeds and leaves
    /// the device alone.
    pub fn update(
        &mut self,
        device: &mut GpuDevice,
        _env: &CaptureEnvironment,
        _texture: &Texture2D<Bound>,
    ) -> (r: Result<(), CaptureError>)
        ensures
            *final(device) == *old(device),
            r is Ok,
    {
        Ok(())
    }

    /// The placeholder never becomes invalid.
    pub fn is_invalid(&self, _env: &CaptureEnvironment) -> (r: bool)
        ensures
            r == false,
    {
        false
    }

    /// No pre-pass work is needed.
    pub fn encode_pre_pass(&self, _texture: &Texture2D<Bound>) -> (r: Result<(), CaptureError>)
        ensures
            r is Ok,
    {
        Ok(())
    }
}

} // verus!
