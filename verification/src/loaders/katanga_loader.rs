//! The shared-memory import backend.
//!
//! A producer process publishes a machine-word shared-resource handle at
//! the start of a fixed-name shared-memory mapping. Each load re-reads
//! that word and resolves it with two strategies in order: first as a
//! first-API (D3D11) shared-resource handle, then — if that fails — as
//! the fixed well-known named resource of the second API (D3D12). The
//! resolved descriptor is imported without a pixel copy. A changed word
//! is invalidation: the producer has cycled its buffer.

use vstd::prelude::*;

use crate::external_texture::{ExternalApi, ExternalTextureInfo};
use crate::gpu::{spec_same_device, GpuDevice};
use crate::loaders::{
    norm_view_format, spec_norm_view_format, CaptureEnvironment, SharedTextureDesc, StereoMode,
    TextureSource,
};
use crate::texture::{Bound, Texture2D};

verus! {

use crate::CaptureError;

/// The shared-memory import backend; it owns the mapping of the
/// fixed-name shared-memory region and remembers the word it last
/// imported.
#[derive(Default)]
pub struct KatangaLoaderContext {
    /// Whether the fixed-name mapping is currently held.
    pub mapped: bool,
    /// The handle word the current texture was imported from.
    pub current_address: u64,
}

/// What the two-strategy handle resolution yields for a word: the
/// producing API, the handle to import, and the resource's descriptor.
/// The first API resolves the word itself; the second opens the fixed
/// well-known name and yields its own handle.
pub open spec fn spec_resolution(env: CaptureEnvironment, address: u64) -> Option<
    (ExternalApi, u64, SharedTextureDesc),
> {
    if env.d3d11_available && env.spec_d3d11_lookup(address) is Some {
        Some((ExternalApi::D3D11, address, env.spec_d3d11_lookup(address)->Some_0))
    } else if env.d3d12_available && env.d3d12_named_stream is Some {
        Some(
            (
                ExternalApi::D3D12,
                env.d3d12_named_stream->Some_0.0,
                env.d3d12_named_stream->Some_0.1,
            ),
        )
    } else {
        None
    }
}

/// The descriptor the import works from, once the word resolves.
pub open spec fn spec_tex_info(env: CaptureEnvironment) -> ExternalTextureInfo {
    let address = env.katanga_word->Some_0;
    let resolved = spec_resolution(env, address)->Some_0;
    ExternalTextureInfo {
        external_api: resolved.0,
        width: resolved.2.width,
        height: resolved.2.height,
        array_size: resolved.2.array_size,
        sample_count: resolved.2.sample_count,
        mip_levels: resolved.2.mip_levels,
        format: resolved.2.format.spec_to_internal()->Some_0,
        actual_handle: resolved.1,
    }
}

/// Resolves a handle word: first as a first-API shared handle, then as
/// the fixed named resource of the second API.
fn resolve(env: &CaptureEnvironment, address: u64) -> (r: Option<
    (ExternalApi, u64, SharedTextureDesc),
>)
    ensures
        r == spec_resolution(*env, address),
        env.wf() ==> (r matches Some(t) ==> t.2.wf()),
{
    if env.d3d11_available {
        if let Some(desc) = env.d3d11_lookup(address) {
            return Some((ExternalApi::D3D11, address, desc));
        }
    }
    if env.d3d12_available {
        if let Some((h, desc)) = env.d3d12_named_stream {
            return Some((ExternalApi::D3D12, h, desc));
        }
    }
    None
}

impl KatangaLoaderContext {
    /// Whether a load will succeed on this snapshot and device: the
    /// mapping must open, the word must resolve, every format translation
    /// must exist, and the device must have room for the import.
    pub open spec fn spec_load_ok(env: CaptureEnvironment, device: GpuDevice) -> bool {
        &&& env.katanga_word is Some
        &&& spec_resolution(env, env.katanga_word->Some_0) is Some
        &&& spec_resolution(env, env.katanga_word->Some_0)->Some_0.2.format.spec_to_internal()
            is Some
        &&& spec_tex_info(env).spec_formats_ok(spec_norm_view_format(spec_tex_info(env).format))
        &&& device.spec_capacity(5)
    }

    /// Whether the loader must reacquire: the mapping is gone, or the
    /// word no longer matches the one the current texture was imported
    /// from.
    pub open spec fn spec_is_invalid(self, env: CaptureEnvironment) -> bool {
        !self.mapped || env.katanga_word != Some(self.current_address)
    }

    /// Maps the fixed-name region, reads the handle word, resolves it and
    /// imports the resolved resource as a full side-by-side stereo
    /// texture.
    pub fn load(
        &mut self,
        device: &mut GpuDevice,
        env: &CaptureEnvironment,
    ) -> (r: Result<TextureSource, CaptureError>)
        requires
            old(device).wf(),
            env.wf(),
        ensures
            final(device).wf(),
            r is Ok <==> Self::spec_load_ok(*env, *old(device)),
            r is Err ==> spec_same_device(*old(device), *final(device)),
            final(self).mapped == (env.katanga_word is Some),
            final(self).current_address == (
                if env.katanga_word is Some {
                    env.katanga_word->Some_0
                } else {
                    old(self).current_address
                }
            ),
            env.katanga_word is None ==> r == Err::<TextureSource, CaptureError>(
                CaptureError::NoCapturableSource),
            env.katanga_word is Some && spec_resolution(*env, env.katanga_word->Some_0) is None
                ==> r == Err::<TextureSource, CaptureError>(CaptureError::HandleStale),
            r matches Ok(src) ==> {
                &&& src.width == spec_tex_info(*env).width
                &&& src.height == spec_tex_info(*env).height
                &&& src.stereo_mode == Some(StereoMode::FullSbs)
                &&& src.texture.spec_bind_group() is None
                &&& src.texture.desc.width == spec_tex_info(*env).width
                &&& src.texture.desc.height == spec_tex_info(*env).height
                &&& src.texture.desc.depth_or_array_layers == spec_tex_info(*env).array_size
                &&& src.texture.desc.mip_level_count == spec_tex_info(*env).mip_levels
                &&& src.texture.desc.sample_count == spec_tex_info(*env).sample_count
                &&& Some(src.texture.desc.format) == spec_tex_info(
                    *env,
                ).format.spec_to_texture_format()
                &&& final(device).objects@.len() == old(device).objects@.len() + 5
                &&& final(device).objects@.subrange(0, old(device).objects@.len() as int)
                    =~= old(device).objects@
                &&& final(device).budget == old(device).budget - 5
                &&& final(device).next_id == old(device).next_id + 5
            },
    {
        // Open (or keep) the fixed-name mapping; without a producer there
        // is nothing to capture.
        let address = match env.katanga_word {
            Some(w) => {
                self.mapped = true;
                w
            },
            None => {
                self.mapped = false;
                return Err(CaptureError::NoCapturableSource);
            },
        };
        self.current_address = address;
        // Two resolution strategies, in order.
        let resolved = match resolve(env, address) {
            Some(t) => t,
            None => {
                return Err(CaptureError::HandleStale);
            },
        };
        let (api, handle, desc) = resolved;
        let format = match desc.format.to_internal() {
            Ok(f) => f,
            Err(_) => {
                return Err(CaptureError::UnsupportedFormat);
            },
        };
        let tex_info = ExternalTextureInfo {
            external_api: api,
            width: desc.width,
            height: desc.height,
            array_size: desc.array_size,
            sample_count: desc.sample_count,
            mip_levels: desc.mip_levels,
            format,
            actual_handle: handle,
        };
        // Sample an sRGB source through its plain twin.
        let view_format = norm_view_format(format);
        let texture = match tex_info.map_as_wgpu_texture(device, view_format) {
            Ok(t) => t,
            Err(e) => {
                return Err(e);
            },
        };
        Ok(TextureSource {
            texture,
            width: tex_info.width,
            height: tex_info.height,
            stereo_mode: Some(StereoMode::FullSbs),
        })
    }

    /// Re-maps the fixed-name region so the next invalidation poll reads
    /// a fresh word; the texture itself needs no per-tick upload.
    pub fn update(
        &mut self,
        device: &mut GpuDevice,
        env: &CaptureEnvironment,
        _texture: &Texture2D<Bound>,
    ) -> (r: Result<(), CaptureError>)
        ensures
            *final(device) == *old(device),
            final(self).mapped == (env.katanga_word is Some),
            final(self).current_address == old(self).current_address,
            r is Ok <==> env.katanga_word is Some,
            r is Err ==> r == Err::<(), CaptureError>(CaptureError::NoCapturableSource),
    {
        match env.katanga_word {
            Some(_) => {
                self.mapped = true;
                Ok(())
            },
            None => {
                self.mapped = false;
                Err(CaptureError::NoCapturableSource)
            },
        }
    }

    /// O(1) poll: true when the mapping is gone or the producer has
    /// published a different handle word.
    pub fn is_invalid(&self, env: &CaptureEnvironment) -> (r: bool)
        ensures
            r == self.spec_is_invalid(*env),
    {
        if !self.mapped {
            return true;
        }
        match env.katanga_word {
            Some(w) => w != self.current_address,
            None => true,
        }
    }

    /// No pre-pass work is needed.
    pub fn encode_pre_pass(&self, _texture: &Texture2D<Bound>) -> (r: Result<(), CaptureError>)
        ensures
            r is Ok,
    {
        Ok(())
    }
}

} // verus!
