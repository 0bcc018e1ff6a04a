//! The device-side resource model.
//!
//! GPU and driver objects are opaque to this library's logic: all it ever
//! reads back from them are the plain attributes it put in. The device is
//! therefore modelled as a ledger of live objects with those attributes,
//! plus an allocation budget that makes resource exhaustion an explicit,
//! testable outcome. The render loop's real device lives outside the
//! library and performs each ledger operation for real.

use vstd::prelude::*;

use crate::conversions::{TextureFormat, VulkanFormat};

verus! {

use crate::CaptureError;

/// Usage flags of a texture at the rendering-API level.
#[derive(Clone, Copy, Debug, PartialEq, Eq, Structural)]
pub struct TextureUsages {
    pub copy_src: bool,
    pub copy_dst: bool,
    pub texture_binding: bool,
    pub storage_binding: bool,
    pub render_attachment: bool,
}

impl TextureUsages {
    /// The union of two sets of usage flags.
    pub open spec fn spec_union(self, other: Self) -> Self {
        TextureUsages {
            copy_src: self.copy_src || other.copy_src,
            copy_dst: self.copy_dst || other.copy_dst,
            texture_binding: self.texture_binding || other.texture_binding,
            storage_binding: self.storage_binding || other.storage_binding,
            render_attachment: self.render_attachment || other.render_attachment,
        }
    }

    pub fn union(self, other: Self) -> (r: Self)
        ensures
            r == self.spec_union(other),
    {
        TextureUsages {
            copy_src: self.copy_src || other.copy_src,
            copy_dst: self.copy_dst || other.copy_dst,
            texture_binding: self.texture_binding || other.texture_binding,
            storage_binding: self.storage_binding || other.storage_binding,
            render_attachment: self.render_attachment || other.render_attachment,
        }
    }

    /// The usage of a texture that is sampled and uploaded to.
    pub fn sampled_copy_dst() -> (r: Self)
        ensures
            r == (TextureUsages {
                copy_src: false,
                copy_dst: true,
                texture_binding: true,
                storage_binding: false,
                render_attachment: false,
            }),
    {
        TextureUsages {
            copy_src: false,
            copy_dst: true,
            texture_binding: true,
            storage_binding: false,
            render_attachment: false,
        }
    }

    /// The usage of an imported texture: sampled read and copy-source only.
    pub fn sampled_copy_src() -> (r: Self)
        ensures
            r == (TextureUsages {
                copy_src: true,
                copy_dst: false,
                texture_binding: true,
                storage_binding: false,
                render_attachment: false,
            }),
    {
        TextureUsages {
            copy_src: true,
            copy_dst: false,
            texture_binding: true,
            storage_binding: false,
            render_attachment: false,
        }
    }
}

/// Usage flags at the driver level, derived from `TextureUsages`.
#[derive(Clone, Copy, Debug, PartialEq, Eq, Structural)]
pub struct TextureUses {
    pub copy_src: bool,
    pub copy_dst: bool,
    pub resource: bool,
    pub storage_read: bool,
    pub storage_read_write: bool,
    pub color_target: bool,
    pub depth_stencil_read: bool,
    pub depth_stencil_write: bool,
}

/// The aspects a format exposes: color, or depth/stencil.
#[derive(Clone, Copy, Debug, PartialEq, Eq, Structural)]
pub struct FormatAspects {
    pub color: bool,
    pub depth: bool,
    pub stencil: bool,
}

/// Dimensionality of a texture.
#[derive(Clone, Copy, Debug, PartialEq, Eq, Structural)]
pub enum TextureDimension {
    D1,
    D2,
    D3,
}

/// Sampler filtering mode.
#[derive(Clone, Copy, Debug, PartialEq, Eq, Structural)]
pub enum FilterMode {
    Nearest,
    Linear,
}

/// The descriptor a rendering-API texture is created from, and the
/// attributes that can later be read back from it.
#[derive(Clone, Copy, Debug, PartialEq, Eq, Structural)]
pub struct TextureDesc {
    pub width: u32,
    pub height: u32,
    pub depth_or_array_layers: u32,
    pub mip_level_count: u32,
    pub sample_count: u32,
    pub dimension: TextureDimension,
    pub format: TextureFormat,
    pub usage: TextureUsages,
    pub view_format: Option<TextureFormat>,
}

/// The handle type an external memory import is tagged with; it follows
/// the API that produced the OS handle, not the API importing it.
#[derive(Clone, Copy, Debug, PartialEq, Eq, Structural)]
pub enum ExternalMemoryHandleType {
    D3D11TextureKmt,
    D3D12Resource,
}

/// The parameters an externally-backed image is created with.
#[derive(Clone, Copy, Debug, PartialEq, Eq, Structural)]
pub struct ImageCreateParams {
    pub format: VulkanFormat,
    pub width: u32,
    pub height: u32,
    pub depth: u32,
    pub mip_levels: u32,
    pub array_layers: u32,
    pub sample_count: u32,
    pub handle_type: ExternalMemoryHandleType,
}

/// A live device object and the attributes the logic put in it.
pub enum GpuObject {
    /// An image created for external backing; `bound_memory` is the memory
    /// object bound to it at offset zero, once bound.
    Image { params: ImageCreateParams, bound_memory: Option<u64> },
    /// A memory object imported from an OS shared handle.
    Memory { handle: u64, size: u64, handle_type: ExternalMemoryHandleType },
    /// A rendering-API texture; `data` holds its uploaded contents, if any
    /// were uploaded, `raw_image` the image it wraps, if it was built
    /// around an externally-backed image, and `hal_uses` the driver-level
    /// usage it was wrapped with in that case.
    Texture {
        desc: TextureDesc,
        data: Option<Vec<u8>>,
        raw_image: Option<u64>,
        hal_uses: Option<TextureUses>,
    },
    /// A view onto a texture.
    TextureView { texture: u64, format: Option<TextureFormat> },
    /// A sampler.
    Sampler { filter: FilterMode },
    /// A binding group tying one view and one sampler to a layout.
    BindGroup { layout: u64, view: u64, sampler: u64 },
}

/// A ledger entry: one live object under its id.
pub struct GpuRecord {
    pub id: u64,
    pub object: GpuObject,
}

/// The two-slot (texture + sampler) binding layout handed in by the caller.
#[derive(Clone, Copy, Debug, PartialEq, Eq, Structural)]
pub struct BindGroupLayout {
    pub id: u64,
}

/// The device model: the ledger of live objects and the remaining
/// allocation budget.
pub struct GpuDevice {
    pub objects: Vec<GpuRecord>,
    pub next_id: u64,
    pub budget: u64,
}

impl GpuDevice {
    /// Ids already handed out are below the next one, and no id is live
    /// twice.
    pub open spec fn wf(self) -> bool {
        &&& forall|i: int|
            0 <= i < self.objects@.len() ==> (#[trigger] self.objects@[i]).id < self.next_id
        &&& forall|i: int, j: int|
            0 <= i < self.objects@.len() && 0 <= j < self.objects@.len() && i != j
                ==> (#[trigger] self.objects@[i]).id != (#[trigger] self.objects@[j]).id
    }

    /// Whether the device can hand out `k` more objects.
    pub open spec fn spec_capacity(self, k: int) -> bool {
        self.budget >= k && self.next_id as int + k <= u64::MAX as int
    }

    pub open spec fn spec_contains_id(self, id: u64) -> bool {
        exists|i: int| 0 <= i < self.objects@.len() && (#[trigger] self.objects@[i]).id == id
    }

    /// Whether `id` is a live image object.
    pub open spec fn spec_is_image(self, id: u64) -> bool {
        exists|i: int|
            0 <= i < self.objects@.len() && (#[trigger] self.objects@[i]).id == id
                && self.objects@[i].object is Image
    }

    /// A fresh device with nothing allocated.
    pub fn new(budget: u64) -> (d: Self)
        ensures
            d.wf(),
            d.objects@ =~= Seq::<GpuRecord>::empty(),
            d.budget == budget,
            d.next_id == 0,
    {
        GpuDevice { objects: Vec::new(), next_id: 0, budget }
    }

    /// Whether the device can hand out `k` more objects, decided at run time.
    pub fn has_capacity(&self, k: u64) -> (r: bool)
        ensures
            r == self.spec_capacity(k as int),
    {
        self.budget >= k && u64::MAX - self.next_id >= k
    }

    /// Pushes a record for a new object and returns its id.
    fn allocate(&mut self, object: GpuObject) -> (id: u64)
        requires
            old(self).wf(),
            old(self).spec_capacity(1),
        ensures
            final(self).wf(),
            id == old(self).next_id,
            final(self).objects@ == old(self).objects@.push(GpuRecord { id, object }),
            final(self).next_id == old(self).next_id + 1,
            final(self).budget == old(self).budget - 1,
    {
        let id = self.next_id;
        self.next_id = self.next_id + 1;
        self.budget = self.budget - 1;
        self.objects.push(GpuRecord { id, object });
        id
    }

    /// Creates an empty externally-backed image. No memory is allocated for
    /// it yet; fails only when the device is exhausted.
    pub fn create_image(&mut self, params: ImageCreateParams) -> (r: Result<u64, CaptureError>)
        requires
            old(self).wf(),
        ensures
            final(self).wf(),
            r matches Ok(id) ==> {
                &&& old(self).spec_capacity(1)
                &&& id == old(self).next_id
                &&& final(self).objects@ == old(self).objects@.push(
                    GpuRecord { id, object: GpuObject::Image { params, bound_memory: None } })
                &&& final(self).next_id == old(self).next_id + 1
                &&& final(self).budget == old(self).budget - 1
            },
            r is Err ==> *final(self) == *old(self) && r == Err::<u64, CaptureError>(
                CaptureError::ResourceExhausted),
            r is Err <==> !old(self).spec_capacity(1),
    {
        if !self.has_capacity(1) {
            return Err(CaptureError::ResourceExhausted);
        }
        Ok(self.allocate(GpuObject::Image { params, bound_memory: None }))
    }

    /// Imports an OS shared handle as a memory object of the given size,
    /// tagged with the handle type of the API that produced the handle.
    pub fn import_memory(
        &mut self,
        handle: u64,
        size: u64,
        handle_type: ExternalMemoryHandleType,
    ) -> (r: Result<u64, CaptureError>)
        requires
            old(self).wf(),
        ensures
            final(self).wf(),
            r matches Ok(id) ==> {
                &&& old(self).spec_capacity(1)
                &&& id == old(self).next_id
                &&& final(self).objects@ == old(self).objects@.push(
                    GpuRecord { id, object: GpuObject::Memory { handle, size, handle_type } })
                &&& final(self).next_id == old(self).next_id + 1
                &&& final(self).budget == old(self).budget - 1
            },
            r is Err ==> *final(self) == *old(self) && r == Err::<u64, CaptureError>(
                CaptureError::ResourceExhausted),
            r is Err <==> !old(self).spec_capacity(1),
    {
        if !self.has_capacity(1) {
            return Err(CaptureError::ResourceExhausted);
        }
        Ok(self.allocate(GpuObject::Memory { handle, size, handle_type }))
    }

    /// Binds a memory object to an image at offset zero. Fails only when
    /// the device is exhausted; on failure nothing changes.
    pub fn bind_image_memory(&mut self, image: u64, memory: u64) -> (r: Result<(), CaptureError>)
        requires
            old(self).wf(),
            old(self).spec_is_image(image),
        ensures
            final(self).wf(),
            final(self).budget == old(self).budget,
            final(self).next_id == old(self).next_id,
            r is Err <==> old(self).budget == 0,
            r is Err ==> *final(self) == *old(self) && r == Err::<(), CaptureError>(
                CaptureError::ResourceExhausted),
            r is Ok ==> exists|i: int| {
                &&& 0 <= i < old(self).objects@.len()
                &&& (#[trigger] old(self).objects@[i]).id == image
                &&& old(self).objects@[i].object is Image
                &&& final(self).objects@ == old(self).objects@.update(i, GpuRecord {
                    id: image,
                    object: GpuObject::Image {
                        params: old(self).objects@[i].object->Image_params,
                        bound_memory: Some(memory),
                    },
                })
            },
            r is Ok ==> final(self).objects@.len() == old(self).objects@.len(),
    {
        if self.budget == 0 {
            return Err(CaptureError::ResourceExhausted);
        }
        let ghost w: int = choose|w: int|
            0 <= w < self.objects@.len() && (#[trigger] self.objects@[w]).id == image
                && self.objects@[w].object is Image;
        let mut i: usize = 0;
        while i < self.objects.len()
            invariant
                *self == *old(self),
                old(self).wf(),
                old(self).budget > 0,
                forall|j: int| 0 <= j < i ==> (#[trigger] old(self).objects@[j]).id != image,
                i <= self.objects@.len(),
                0 <= w < self.objects@.len(),
                self.objects@[w].id == image,
                self.objects@[w].object is Image,
            decreases self.objects@.len() - i,
        {
            if self.objects[i].id == image {
                proof {
                    assert(i as int == w);
                }
                let params = match &self.objects[i].object {
                    GpuObject::Image { params, .. } => *params,
                    _ => ImageCreateParams {
                        format: VulkanFormat::R8Unorm,
                        width: 0,
                        height: 0,
                        depth: 0,
                        mip_levels: 0,
                        array_layers: 0,
                        sample_count: 0,
                        handle_type: ExternalMemoryHandleType::D3D11TextureKmt,
                    },
                };
                self.objects.set(i, GpuRecord {
                    id: image,
                    object: GpuObject::Image { params, bound_memory: Some(memory) },
                });
                proof {
                    assert forall|a: int|
                        0 <= a < self.objects@.len() implies (#[trigger] self.objects@[a]).id
                        < self.next_id by {
                        if a != i as int {
                            assert(self.objects@[a] == old(self).objects@[a]);
                        }
                    }
                    assert forall|a: int, b: int|
                        0 <= a < self.objects@.len() && 0 <= b < self.objects@.len() && a
                            != b implies (#[trigger] self.objects@[a]).id != (
                    #[trigger] self.objects@[b]).id by {
                        assert(self.objects@[a].id == old(self).objects@[a].id);
                        assert(self.objects@[b].id == old(self).objects@[b].id);
                    }
                }
                return Ok(());
            }
            i = i + 1;
        }
        proof {
            assert(old(self).objects@[w].id == image);
            assert(false);
        }
        Ok(())
    }

    /// Creates a rendering-API texture from a descriptor.
    pub fn create_texture(&mut self, desc: TextureDesc) -> (r: Result<u64, CaptureError>)
        requires
            old(self).wf(),
        ensures
            final(self).wf(),
            r matches Ok(id) ==> {
                &&& old(self).spec_capacity(1)
                &&& id == old(self).next_id
                &&& final(self).objects@ == old(self).objects@.push(
                    GpuRecord { id, object: GpuObject::Texture { desc, data: None, raw_image: None, hal_uses: None } })
                &&& final(self).next_id == old(self).next_id + 1
                &&& final(self).budget == old(self).budget - 1
            },
            r is Err ==> *final(self) == *old(self) && r == Err::<u64, CaptureError>(
                CaptureError::ResourceExhausted),
            r is Err <==> !old(self).spec_capacity(1),
    {
        if !self.has_capacity(1) {
            return Err(CaptureError::ResourceExhausted);
        }
        Ok(self.allocate(GpuObject::Texture { desc, data: None, raw_image: None, hal_uses: None }))
    }

    /// Wraps an already-backed image as a rendering-API texture; the
    /// construct-from-raw entry point of the rendering abstraction.
    pub fn texture_from_raw(
        &mut self,
        image: u64,
        desc: TextureDesc,
        hal_uses: TextureUses,
    ) -> (r: Result<u64, CaptureError>)
        requires
            old(self).wf(),
        ensures
            final(self).wf(),
            r matches Ok(id) ==> {
                &&& old(self).spec_capacity(1)
                &&& id == old(self).next_id
                &&& final(self).objects@ == old(self).objects@.push(GpuRecord {
                    id,
                    object: GpuObject::Texture {
                        desc,
                        data: None,
                        raw_image: Some(image),
                        hal_uses: Some(hal_uses),
                    },
                })
                &&& final(self).next_id == old(self).next_id + 1
                &&& final(self).budget == old(self).budget - 1
            },
            r is Err ==> *final(self) == *old(self) && r == Err::<u64, CaptureError>(
                CaptureError::ResourceExhausted),
            r is Err <==> !old(self).spec_capacity(1),
    {
        if !self.has_capacity(1) {
            return Err(CaptureError::ResourceExhausted);
        }
        Ok(self.allocate(GpuObject::Texture { desc, data: None, raw_image: Some(image), hal_uses: Some(hal_uses) }))
    }

    /// Creates a view onto a texture, in the given view format if one is
    /// given.
    pub fn create_view(&mut self, texture: u64, format: Option<TextureFormat>) -> (r: Result<
        u64,
        CaptureError,
    >)
        requires
            old(self).wf(),
        ensures
            final(self).wf(),
            r matches Ok(id) ==> {
                &&& old(self).spec_capacity(1)
                &&& id == old(self).next_id
                &&& final(self).objects@ == old(self).objects@.push(
                    GpuRecord { id, object: GpuObject::TextureView { texture, format } })
                &&& final(self).next_id == old(self).next_id + 1
                &&& final(self).budget == old(self).budget - 1
            },
            r is Err ==> *final(self) == *old(self) && r == Err::<u64, CaptureError>(
                CaptureError::ResourceExhausted),
            r is Err <==> !old(self).spec_capacity(1),
    {
        if !self.has_capacity(1) {
            return Err(CaptureError::ResourceExhausted);
        }
        Ok(self.allocate(GpuObject::TextureView { texture, format }))
    }

    /// Creates a sampler with the given filtering mode.
    pub fn create_sampler(&mut self, filter: FilterMode) -> (r: Result<u64, CaptureError>)
        requires
            old(self).wf(),
        ensures
            final(self).wf(),
            r matches Ok(id) ==> {
                &&& old(self).spec_capacity(1)
                &&& id == old(self).next_id
                &&& final(self).objects@ == old(self).objects@.push(
                    GpuRecord { id, object: GpuObject::Sampler { filter } })
                &&& final(self).next_id == old(self).next_id + 1
                &&& final(self).budget == old(self).budget - 1
            },
            r is Err ==> *final(self) == *old(self) && r == Err::<u64, CaptureError>(
                CaptureError::ResourceExhausted),
            r is Err <==> !old(self).spec_capacity(1),
    {
        if !self.has_capacity(1) {
            return Err(CaptureError::ResourceExhausted);
        }
        Ok(self.allocate(GpuObject::Sampler { filter }))
    }

    /// Creates a binding group tying one view and one sampler to a layout.
    pub fn create_bind_group(&mut self, layout: u64, view: u64, sampler: u64) -> (r: Result<
        u64,
        CaptureError,
    >)
        requires
            old(self).wf(),
        ensures
            final(self).wf(),
            r matches Ok(id) ==> {
                &&& old(self).spec_capacity(1)
                &&& id == old(self).next_id
                &&& final(self).objects@ == old(self).objects@.push(
                    GpuRecord { id, object: GpuObject::BindGroup { layout, view, sampler } })
                &&& final(self).next_id == old(self).next_id + 1
                &&& final(self).budget == old(self).budget - 1
            },
            r is Err ==> *final(self) == *old(self) && r == Err::<u64, CaptureError>(
                CaptureError::ResourceExhausted),
            r is Err <==> !old(self).spec_capacity(1),
    {
        if !self.has_capacity(1) {
            return Err(CaptureError::ResourceExhausted);
        }
        Ok(self.allocate(GpuObject::BindGroup { layout, view, sampler }))
    }

    /// Destroys the object with the given id, returning its budget; when
    /// the newest object is destroyed, its id is reused for the next one.
    /// Destroying an id that is not live leaves the device unchanged.
    pub fn destroy(&mut self, id: u64)
        requires
            old(self).wf(),
        ensures
            final(self).wf(),
            final(self).next_id == (
                if old(self).spec_contains_id(id) && id == old(self).next_id - 1 {
                    (old(self).next_id - 1) as u64
                } else {
                    old(self).next_id
                }
            ),
            old(self).spec_contains_id(id) ==> exists|i: int| {
                &&& 0 <= i < old(self).objects@.len()
                &&& (#[trigger] old(self).objects@[i]).id == id
                &&& final(self).objects@ == old(self).objects@.remove(i)
            },
            old(self).spec_contains_id(id) ==> final(self).budget == (
                if old(self).budget < u64::MAX { old(self).budget + 1 } else { old(self).budget as int }
            ),
            !old(self).spec_contains_id(id) ==> *final(self) == *old(self),
            !final(self).spec_contains_id(id),
    {
        let mut i: usize = 0;
        while i < self.objects.len()
            invariant
                *self == *old(self),
                old(self).wf(),
                forall|j: int| 0 <= j < i ==> (#[trigger] old(self).objects@[j]).id != id,
                i <= self.objects@.len(),
            decreases self.objects@.len() - i,
        {
            if self.objects[i].id == id {
                self.objects.remove(i);
                if self.budget < u64::MAX {
                    self.budget = self.budget + 1;
                }
                if self.next_id >= 1 && id == self.next_id - 1 {
                    self.next_id = self.next_id - 1;
                }
                proof {
                    assert(old(self).spec_contains_id(id));
                    assert forall|a: int|
                        0 <= a < self.objects@.len() implies (#[trigger] self.objects@[a]).id
                        < self.next_id by {
                        if a < i as int {
                            assert(self.objects@[a] == old(self).objects@[a]);
                        } else {
                            assert(self.objects@[a] == old(self).objects@[a + 1]);
                        }
                    }
                    assert forall|a: int, b: int|
                        0 <= a < self.objects@.len() && 0 <= b < self.objects@.len() && a
                            != b implies (#[trigger] self.objects@[a]).id != (
                    #[trigger] self.objects@[b]).id by {
                        let a0: int = if a < i as int { a } else { a + 1 };
                        let b0: int = if b < i as int { b } else { b + 1 };
                        assert(self.objects@[a] == old(self).objects@[a0]);
                        assert(self.objects@[b] == old(self).objects@[b0]);
                    }
                    assert forall|a: int|
                        0 <= a < self.objects@.len() implies (#[trigger] self.objects@[a]).id
                        != id by {
                        let a0: int = if a < i as int { a } else { a + 1 };
                        assert(self.objects@[a] == old(self).objects@[a0]);
                        assert(old(self).objects@[i as int].id == id);
                    }
                }
                return;
            }
            i = i + 1;
        }
        proof {
            assert(!old(self).spec_contains_id(id));
        }
    }

    /// Uploads pixel data into a texture, replacing its contents.
    pub fn write_texture(&mut self, texture: u64, data: &Vec<u8>)
        requires
            old(self).wf(),
        ensures
            final(self).wf(),
            final(self).next_id == old(self).next_id,
            final(self).budget == old(self).budget,
            final(self).objects@.len() == old(self).objects@.len(),
            forall|j: int|
                0 <= j < old(self).objects@.len() && (#[trigger] old(self).objects@[j]).id != texture
                    ==> final(self).objects@[j] == old(self).objects@[j],
            forall|j: int| 0 <= j < old(self).objects@.len()
                ==> (#[trigger] final(self).objects@[j]).id == old(self).objects@[j].id,
            forall|j: int| {
                &&& 0 <= j < old(self).objects@.len()
                &&& (#[trigger] old(self).objects@[j]).id == texture
                &&& old(self).objects@[j].object is Texture
            } ==> {
                &&& final(self).objects@[j].object matches GpuObject::Texture {
                    desc,
                    data: d,
                    raw_image,
                    hal_uses,
                }
                &&& desc == old(self).objects@[j].object->Texture_desc
                &&& raw_image == old(self).objects@[j].object->Texture_raw_image
                &&& hal_uses == old(self).objects@[j].object->Texture_hal_uses
                &&& d matches Some(bytes) && bytes@ == data@
            },
            forall|j: int| {
                &&& 0 <= j < old(self).objects@.len()
                &&& (#[trigger] old(self).objects@[j]).id == texture
                &&& !(old(self).objects@[j].object is Texture)
            } ==> final(self).objects@[j] == old(self).objects@[j],
    {
        let n = self.objects.len();
        let mut i: usize = 0;
        while i < n
            invariant
                n == self.objects@.len(),
                n == old(self).objects@.len(),
                i <= n,
                self.next_id == old(self).next_id,
                self.budget == old(self).budget,
                self.wf(),
                forall|j: int| i <= j < n ==> self.objects@[j] == old(self).objects@[j],
                forall|j: int|
                    0 <= j < i && (#[trigger] old(self).objects@[j]).id != texture
                        ==> self.objects@[j] == old(self).objects@[j],
                forall|j: int| 0 <= j < i
                    ==> (#[trigger] self.objects@[j]).id == old(self).objects@[j].id,
                forall|j: int| {
                    &&& 0 <= j < i
                    &&& (#[trigger] old(self).objects@[j]).id == texture
                    &&& old(self).objects@[j].object is Texture
                } ==> {
                    &&& self.objects@[j].object matches GpuObject::Texture {
                        desc,
                        data: d,
                        raw_image,
                        hal_uses,
                    }
                    &&& desc == old(self).objects@[j].object->Texture_desc
                    &&& raw_image == old(self).objects@[j].object->Texture_raw_image
                    &&& hal_uses == old(self).objects@[j].object->Texture_hal_uses
                    &&& d matches Some(bytes) && bytes@ == data@
                },
                forall|j: int| {
                    &&& 0 <= j < i
                    &&& (#[trigger] old(self).objects@[j]).id == texture
                    &&& !(old(self).objects@[j].object is Texture)
                } ==> self.objects@[j] == old(self).objects@[j],
            decreases n - i,
        {
            if self.objects[i].id == texture {
                let (desc, raw_image, hal_uses, is_texture) = match &self.objects[i].object {
                    GpuObject::Texture { desc, raw_image, hal_uses, .. } => (
                        *desc,
                        *raw_image,
                        *hal_uses,
                        true,
                    ),
                    _ => (
                        TextureDesc {
                            width: 0,
                            height: 0,
                            depth_or_array_layers: 0,
                            mip_level_count: 0,
                            sample_count: 0,
                            dimension: TextureDimension::D2,
                            format: TextureFormat::R8Unorm,
                            usage: TextureUsages {
                                copy_src: false,
                                copy_dst: false,
                                texture_binding: false,
                                storage_binding: false,
                                render_attachment: false,
                            },
                            view_format: None,
                        },
                        None,
                        None,
                        false,
                    ),
                };
                if is_texture {
                    let mut copy: Vec<u8> = Vec::new();
                    let mut k: usize = 0;
                    while k < data.len()
                        invariant
                            k <= data@.len(),
                            copy@ == data@.subrange(0, k as int),
                        decreases data@.len() - k,
                    {
                        copy.push(data[k]);
                        k = k + 1;
                    }
                    assert(copy@ =~= data@);
                    self.objects.set(i, GpuRecord {
                        id: texture,
                        object: GpuObject::Texture { desc, data: Some(copy), raw_image, hal_uses },
                    });
                }
            }
            i = i + 1;
        }
    }
}

/// Whether two device states hold the same ledger, id counter and budget:
/// what "no net effect on the device" means for a failed operation.
pub open spec fn spec_same_device(a: GpuDevice, b: GpuDevice) -> bool {
    &&& a.objects@ == b.objects@
    &&& a.next_id == b.next_id
    &&& a.budget == b.budget
}

} // verus!
