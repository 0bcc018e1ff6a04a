//! The external-memory importer.
//!
//! Turns a foreign-API descriptor plus an OS shared handle into a texture
//! of the rendering abstraction without copying pixels: translate the
//! format (aborting before any device object when a translation is
//! missing), create an externally-backed image, import the handle as a
//! memory object tagged with the source API's handle type, bind it at
//! offset zero, and wrap the image through the construct-from-raw entry
//! point. A failing step destroys every object an earlier step created:
//! the device ledger is unchanged whenever the import fails.

use vstd::prelude::*;

use crate::formats::InternalColorFormat;
use crate::gpu::{
    spec_same_device, ExternalMemoryHandleType, GpuDevice, GpuObject, GpuRecord, ImageCreateParams,
};
use crate::texture::{spec_view_format_of, spec_view_format_ok, Texture2D, Unbound};

verus! {

use crate::CaptureError;

/// The foreign API a shared resource came from; the import's handle type
/// follows it.
#[derive(Clone, Copy, Debug, PartialEq, Eq, Structural)]
pub enum ExternalApi {
    D3D11,
    D3D12,
}

impl ExternalApi {
    /// The external-memory handle type matching the producing API.
    pub open spec fn spec_handle_type(self) -> ExternalMemoryHandleType {
        match self {
            ExternalApi::D3D11 => ExternalMemoryHandleType::D3D11TextureKmt,
            ExternalApi::D3D12 => ExternalMemoryHandleType::D3D12Resource,
        }
    }

    pub fn handle_type(self) -> (r: ExternalMemoryHandleType)
        ensures
            r == self.spec_handle_type(),
    {
        match self {
            ExternalApi::D3D11 => ExternalMemoryHandleType::D3D11TextureKmt,
            ExternalApi::D3D12 => ExternalMemoryHandleType::D3D12Resource,
        }
    }
}

/// What a foreign-API resource's descriptor query yields: dimensions,
/// layer/sample/mip counts, the format translated into the neutral space,
/// and the OS handle the resource is shared under.
#[derive(Clone, Copy, Debug, PartialEq, Eq, Structural)]
pub struct ExternalTextureInfo {
    pub external_api: ExternalApi,
    pub width: u32,
    pub height: u32,
    pub array_size: u32,
    pub sample_count: u32,
    pub mip_levels: u32,
    pub format: InternalColorFormat,
    pub actual_handle: u64,
}

impl ExternalTextureInfo {
    /// A descriptor within the device limits this model assumes.
    pub open spec fn wf(self) -> bool {
        &&& 1 <= self.width <= 16384
        &&& 1 <= self.height <= 16384
        &&& 1 <= self.array_size <= 2048
        &&& 1 <= self.sample_count <= 32
        &&& 1 <= self.mip_levels <= 16
    }

    /// Whether the descriptor is within the device limits, decided at run
    /// time.
    pub fn check_wf(&self) -> (r: bool)
        ensures
            r == self.wf(),
    {
        1 <= self.width && self.width <= 16384 && 1 <= self.height && self.height <= 16384 && 1
            <= self.array_size && self.array_size <= 2048 && 1 <= self.sample_count
            && self.sample_count <= 32 && 1 <= self.mip_levels && self.mip_levels <= 16
    }

    /// The size of the memory allocation backing the image: four bytes per
    /// texel over every layer, which is what the model's requirement query
    /// reports.
    pub open spec fn spec_memory_size(self) -> int {
        4 * self.width * self.height * self.array_size
    }

    /// The image-creation parameters of the import; the descriptor's layer
    /// count goes to both the extent depth and the layer count, and the
    /// image is always single-sampled.
    pub open spec fn spec_image_params(self) -> ImageCreateParams {
        ImageCreateParams {
            format: self.format.spec_to_vulkan()->Some_0,
            width: self.width,
            height: self.height,
            depth: self.array_size,
            mip_levels: self.mip_levels,
            array_layers: self.array_size,
            sample_count: 1,
            handle_type: self.external_api.spec_handle_type(),
        }
    }

    /// Whether every format translation the import needs exists.
    pub open spec fn spec_formats_ok(self, view_format: Option<InternalColorFormat>) -> bool {
        &&& self.format.spec_to_vulkan() is Some
        &&& self.format.spec_to_texture_format() is Some
        &&& spec_view_format_ok(view_format)
    }

    /// Imports the shared resource as a texture. When any step fails, no
    /// net device object remains: either the translation failed before the
    /// device was touched, or every object an earlier step created was
    /// destroyed again.
    pub fn map_as_wgpu_texture(
        &self,
        device: &mut GpuDevice,
        view_format: Option<InternalColorFormat>,
    ) -> (r: Result<Texture2D<Unbound>, CaptureError>)
        requires
            old(device).wf(),
            self.wf(),
        ensures
            final(device).wf(),
            r is Err ==> spec_same_device(*old(device), *final(device)),
            r is Err <==> !(self.spec_formats_ok(view_format) && old(device).spec_capacity(5)),
            !self.spec_formats_ok(view_format) ==> r == Err::<Texture2D<Unbound>, CaptureError>(
                CaptureError::UnsupportedFormat) && *final(device) == *old(device),
            self.spec_formats_ok(view_format) && !old(device).spec_capacity(5) ==> r == Err::<
                Texture2D<Unbound>,
                CaptureError,
            >(CaptureError::ResourceExhausted),
            r matches Ok(t) ==> {
                &&& t.spec_bind_group() is None
                &&& t.desc.width == self.width
                &&& t.desc.height == self.height
                &&& t.desc.depth_or_array_layers == self.array_size
                &&& t.desc.mip_level_count == self.mip_levels
                &&& t.desc.sample_count == self.sample_count
                &&& Some(t.desc.format) == self.format.spec_to_texture_format()
                &&& t.desc.view_format == spec_view_format_of(view_format)
                &&& t.desc.usage.copy_src && t.desc.usage.texture_binding
                &&& !t.desc.usage.copy_dst && !t.desc.usage.storage_binding
                    && !t.desc.usage.render_attachment
                &&& final(device).objects@.len() == old(device).objects@.len() + 5
                &&& final(device).objects@.subrange(0, old(device).objects@.len() as int)
                    =~= old(device).objects@
                &&& final(device).objects@[old(device).objects@.len() as int] == (GpuRecord {
                    id: old(device).next_id,
                    object: GpuObject::Image {
                        params: self.spec_image_params(),
                        bound_memory: Some((old(device).next_id + 1) as u64),
                    },
                })
                &&& final(device).objects@[old(device).objects@.len() as int + 1] == (GpuRecord {
                    id: (old(device).next_id + 1) as u64,
                    object: GpuObject::Memory {
                        handle: self.actual_handle,
                        size: self.spec_memory_size() as u64,
                        handle_type: self.external_api.spec_handle_type(),
                    },
                })
                &&& t.texture == old(device).next_id + 2
                &&& final(device).objects@[old(device).objects@.len() as int + 2].id == t.texture
                &&& final(device).objects@[old(device).objects@.len() as int + 2].object
                    ->Texture_raw_image == Some(old(device).next_id)
                &&& final(device).objects@[old(device).objects@.len() as int + 2].object
                    ->Texture_desc == t.desc
                &&& final(device).objects@[old(device).objects@.len() as int + 2].object
                    ->Texture_data is None
                &&& final(device).budget == old(device).budget - 5
                &&& final(device).next_id == old(device).next_id + 5
            },
    {
        // Translate every format first: a missing row aborts the import
        // before any device object exists.
        let vk_format = match self.format.to_vulkan() {
            Ok(f) => f,
            Err(_) => {
                return Err(CaptureError::UnsupportedFormat);
            },
        };
        let wgpu_format = match self.format.to_texture_format() {
            Ok(f) => f,
            Err(_) => {
                return Err(CaptureError::UnsupportedFormat);
            },
        };
        match view_format {
            Some(vf) => match vf.to_texture_format() {
                Ok(_) => (),
                Err(_) => {
                    return Err(CaptureError::UnsupportedFormat);
                },
            },
            None => (),
        }
        let handle_type = self.external_api.handle_type();
        let params = ImageCreateParams {
            format: vk_format,
            width: self.width,
            height: self.height,
            depth: self.array_size,
            mip_levels: self.mip_levels,
            array_layers: self.array_size,
            sample_count: 1,
            handle_type,
        };
        let image = match device.create_image(params) {
            Ok(id) => id,
            Err(e) => {
                return Err(e);
            },
        };
        proof {
            assert((4 * (self.width as int)) * (self.height as int) <= 0x4000_0000)
                by (nonlinear_arith)
                requires
                    self.width <= 16384,
                    self.height <= 16384,
            ;
            assert((4 * (self.width as int)) * (self.height as int) * (self.array_size as int)
                <= 0x200_0000_0000) by (nonlinear_arith)
                requires
                    self.width <= 16384,
                    self.height <= 16384,
                    self.array_size <= 2048,
            ;
        }
        let size: u64 = 4 * (self.width as u64) * (self.height as u64) * (self.array_size as u64);
        let memory = match device.import_memory(self.actual_handle, size, handle_type) {
            Ok(id) => id,
            Err(e) => {
                proof {
                    assert(device.objects@.last().id == image);
                }
                device.destroy(image);
                proof {
                    assert(device.objects@ =~= old(device).objects@);
                }
                return Err(e);
            },
        };
        proof {
            let n = device.objects@.len() as int;
            assert(device.objects@[n - 2].id == image);
            assert(device.objects@[n - 2].object is Image);
            assert(device.spec_is_image(image));
        }
        match device.bind_image_memory(image, memory) {
            Ok(_) => (),
            Err(e) => {
                // The bind failed: destroy the orphaned memory object and
                // image before propagating the error.
                device.destroy(memory);
                proof {
                    assert(device.objects@ =~= old(device).objects@.push(
                        GpuRecord {
                            id: image,
                            object: GpuObject::Image { params, bound_memory: None },
                        },
                    ));
                }
                device.destroy(image);
                proof {
                    assert(device.objects@ =~= old(device).objects@);
                }
                return Err(e);
            },
        }
        let texture = match Texture2D::<Unbound>::from_vk_image(
            device,
            image,
            self.width,
            self.height,
            self.array_size,
            self.mip_levels,
            self.sample_count,
            self.format,
            view_format,
            crate::gpu::TextureUsages::sampled_copy_src(),
        ) {
            Ok(t) => t,
            Err(e) => {
                device.destroy(memory);
                device.destroy(image);
                proof {
                    assert(device.objects@ =~= old(device).objects@);
                }
                return Err(e);
            },
        };
        Ok(texture)
    }
}

} // verus!
