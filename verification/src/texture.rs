//! The texture wrapper and its typestate.
//!
//! A `Texture2D` owns one texture object, one default view and one sampler.
//! An `Unbound` texture carries no shader binding and has no accessor for
//! one; binding is a consuming transform to the `Bound` form, which carries
//! exactly one binding group against one caller-supplied layout. Reading
//! the binding before it exists is therefore unrepresentable.

use vstd::prelude::*;

use crate::formats::InternalColorFormat;
use crate::conversions::TextureFormat;
use crate::gpu::{
    FilterMode, FormatAspects, GpuDevice, GpuObject, GpuRecord, BindGroupLayout, TextureDesc,
    TextureDimension, TextureUsages, TextureUses,
};

verus! {

use crate::CaptureError;

/// The state tag of a texture bound to a shader pipeline.
pub struct Bound;

/// The state tag of a texture that is merely allocated.
pub struct Unbound;

/// What a decoded image is: the RGBA bytes and dimensions that decoding a
/// byte buffer yields, a function of the byte content alone.
pub uninterp spec fn decoded_rgba(bytes: Seq<u8>) -> Option<(Seq<u8>, u32, u32)>;

/// Relies on `image::load_from_memory` and `DynamicImage::to_rgba8`:
/// decoding depends on the byte content alone, and the RGBA conversion of
/// a decoded image holds exactly four bytes per pixel.
#[verifier::external_body]
fn decode_image(bytes: &Vec<u8>) -> (r: Option<(Vec<u8>, u32, u32)>)
    ensures
        r is Some <==> decoded_rgba(bytes@) is Some,
        r matches Some((px, w, h)) ==> {
            &&& decoded_rgba(bytes@) matches Some((spx, sw, sh)) && px@ == spx && w == sw && h
                == sh
            &&& px@.len() == 4 * (w as nat) * (h as nat)
        },
{
    match image::load_from_memory(bytes.as_slice()) {
        Ok(img) => {
            let rgba = img.to_rgba8();
            let (w, h) = rgba.dimensions();
            Some((rgba.into_raw(), w, h))
        },
        Err(_) => None,
    }
}

/// Whether `rec` is a texture record with the given id and attributes;
/// `data` compares the uploaded contents by value.
pub open spec fn is_texture_record(
    rec: GpuRecord,
    id: u64,
    desc: TextureDesc,
    data: Option<Seq<u8>>,
    raw_image: Option<u64>,
) -> bool {
    &&& rec.id == id
    &&& rec.object is Texture
    &&& rec.object->Texture_desc == desc
    &&& rec.object->Texture_raw_image == raw_image
    &&& match (rec.object->Texture_data, data) {
        (Some(v), Some(s)) => v@ == s,
        (None, None) => true,
        _ => false,
    }
}

/// One texture with its default view and sampler, and — once bound — its
/// binding group. The `state` tag tells the two apart at the type level.
pub struct Texture2D<State> {
    pub texture: u64,
    pub view: u64,
    pub sampler: u64,
    pub bind_group: Option<u64>,
    pub desc: TextureDesc,
    pub state: State,
}

impl<State> Texture2D<State> {
    /// The binding group, if one exists; `None` exactly in the unbound
    /// state.
    pub open spec fn spec_bind_group(self) -> Option<u64> {
        self.bind_group
    }

    /// The width the texture was created with.
    pub fn width(&self) -> (r: u32)
        ensures
            r == self.desc.width,
    {
        self.desc.width
    }

    /// The height the texture was created with.
    pub fn height(&self) -> (r: u32)
        ensures
            r == self.desc.height,
    {
        self.desc.height
    }

    /// Derives a sibling render-target texture with a caller-chosen extent
    /// and format, inheriting this texture's dimensionality and extending
    /// its usage with render-attachment capability.
    pub fn as_render_target_with_extent(
        &self,
        width: u32,
        height: u32,
        depth_or_array_layers: u32,
        format: InternalColorFormat,
        view_format: Option<InternalColorFormat>,
        device: &mut GpuDevice,
    ) -> (r: Result<Texture2D<Unbound>, CaptureError>)
        requires
            old(device).wf(),
        ensures
            final(device).wf(),
            r is Err ==> *final(device) == *old(device),
            r is Err <==> !(format.spec_to_texture_format() is Some && spec_view_format_ok(
                view_format,
            ) && old(device).spec_capacity(3)),
            !(format.spec_to_texture_format() is Some && spec_view_format_ok(view_format)) ==> r
                == Err::<Texture2D<Unbound>, CaptureError>(CaptureError::UnsupportedFormat),
            format.spec_to_texture_format() is Some && spec_view_format_ok(view_format) && !old(
                device,
            ).spec_capacity(3) ==> r == Err::<Texture2D<Unbound>, CaptureError>(
                CaptureError::ResourceExhausted),
            r matches Ok(t) ==> format.spec_to_texture_format() matches Some(f)
                && spec_fresh_texture(
                t,
                *old(device),
                *final(device),
                TextureDesc {
                    width,
                    height,
                    depth_or_array_layers,
                    mip_level_count: 1,
                    sample_count: 1,
                    dimension: self.desc.dimension,
                    format: f,
                    usage: self.desc.usage.spec_union(spec_render_attachment_usage()),
                    view_format: spec_view_format_of(view_format),
                },
                None,
                None,
            ),
    {
        let f = match format.to_texture_format() {
            Ok(f) => f,
            Err(_) => {
                return Err(CaptureError::UnsupportedFormat);
            },
        };
        let vf = match build_view_format(view_format) {
            Ok(vf) => vf,
            Err(e) => {
                return Err(e);
            },
        };
        if !device.has_capacity(3) {
            return Err(CaptureError::ResourceExhausted);
        }
        let desc = TextureDesc {
            width,
            height,
            depth_or_array_layers,
            mip_level_count: 1,
            sample_count: 1,
            dimension: self.desc.dimension,
            format: f,
            usage: self.desc.usage.union(render_attachment_usage()),
            view_format: vf,
        };
        let texture = match device.create_texture(desc) {
            Ok(id) => id,
            Err(e) => {
                return Err(e);
            },
        };
        let (view, sampler) = get_view_and_sampler(device, texture, FilterMode::Linear, vf);
        Ok(Texture2D::<Unbound> {
            texture,
            view,
            sampler,
            bind_group: None,
            desc,
            state: Unbound,
        })
    }

}

/// The descriptor `from_image` creates its texture from.
pub open spec fn spec_image_texture_desc(
    width: u32,
    height: u32,
    view_format: Option<TextureFormat>,
) -> TextureDesc {
    TextureDesc {
        width,
        height,
        depth_or_array_layers: 1,
        mip_level_count: 1,
        sample_count: 1,
        dimension: TextureDimension::D2,
        format: TextureFormat::Rgba8UnormSrgb,
        usage: TextureUsages {
            copy_src: false,
            copy_dst: true,
            texture_binding: true,
            storage_binding: false,
            render_attachment: false,
        },
        view_format,
    }
}

/// The ledger effect shared by every constructor that makes a texture,
/// its view and its sampler in one step: exactly those three records are
/// appended, in that order.
pub open spec fn spec_fresh_texture(
    t: Texture2D<Unbound>,
    dev0: GpuDevice,
    dev1: GpuDevice,
    desc: TextureDesc,
    data: Option<Seq<u8>>,
    raw_image: Option<u64>,
) -> bool {
    &&& t.spec_bind_group() is None
    &&& t.desc == desc
    &&& t.texture == dev0.next_id
    &&& t.view == dev0.next_id + 1
    &&& t.sampler == dev0.next_id + 2
    &&& dev1.objects@.len() == dev0.objects@.len() + 3
    &&& dev1.objects@.subrange(0, dev0.objects@.len() as int) =~= dev0.objects@
    &&& is_texture_record(dev1.objects@[dev0.objects@.len() as int], t.texture, desc, data, raw_image)
    &&& dev1.objects@[dev0.objects@.len() as int + 1] == (GpuRecord {
        id: t.view,
        object: GpuObject::TextureView { texture: t.texture, format: desc.view_format },
    })
    &&& dev1.objects@[dev0.objects@.len() as int + 2] == (GpuRecord {
        id: t.sampler,
        object: GpuObject::Sampler { filter: FilterMode::Linear },
    })
    &&& dev1.next_id == dev0.next_id + 3
    &&& dev1.budget == dev0.budget - 3
}

impl Texture2D<Unbound> {
    /// Decodes an encoded image from bytes and uploads it as a new
    /// sampled texture.
    pub fn from_bytes(
        device: &mut GpuDevice,
        bytes: &Vec<u8>,
        view_format: Option<InternalColorFormat>,
    ) -> (r: Result<Texture2D<Unbound>, CaptureError>)
        requires
            old(device).wf(),
        ensures
            final(device).wf(),
            r is Err ==> *final(device) == *old(device),
            decoded_rgba(bytes@) is None ==> r == Err::<Texture2D<Unbound>, CaptureError>(
                CaptureError::DecodeFailed),
            r is Err <==> (decoded_rgba(bytes@) is None || !(spec_view_format_ok(view_format)
                && old(device).spec_capacity(3))),
            r matches Ok(t) ==> decoded_rgba(bytes@) matches Some((px, w, h))
                && spec_fresh_texture(
                t,
                *old(device),
                *final(device),
                spec_image_texture_desc(w, h, spec_view_format_of(view_format)),
                Some(px),
                None,
            ),
    {
        match decode_image(bytes) {
            Some((rgba, width, height)) => Self::from_image(device, &rgba, width, height, view_format),
            None => Err(CaptureError::DecodeFailed),
        }
    }

    /// Uploads decoded RGBA pixels as a new sampled texture; four bytes
    /// per pixel, tightly packed rows.
    pub fn from_image(
        device: &mut GpuDevice,
        rgba: &Vec<u8>,
        width: u32,
        height: u32,
        view_format: Option<InternalColorFormat>,
    ) -> (r: Result<Texture2D<Unbound>, CaptureError>)
        requires
            old(device).wf(),
            rgba@.len() == 4 * (width as nat) * (height as nat),
        ensures
            final(device).wf(),
            r is Err ==> *final(device) == *old(device),
            r is Err <==> !(spec_view_format_ok(view_format) && old(device).spec_capacity(3)),
            !spec_view_format_ok(view_format) ==> r == Err::<Texture2D<Unbound>, CaptureError>(
                CaptureError::UnsupportedFormat),
            spec_view_format_ok(view_format) && !old(device).spec_capacity(3) ==> r == Err::<
                Texture2D<Unbound>,
                CaptureError,
            >(CaptureError::ResourceExhausted),
            r matches Ok(t) ==> spec_fresh_texture(
                t,
                *old(device),
                *final(device),
                spec_image_texture_desc(width, height, spec_view_format_of(view_format)),
                Some(rgba@),
                None,
            ),
    {
        let vf = match build_view_format(view_format) {
            Ok(vf) => vf,
            Err(e) => {
                return Err(e);
            },
        };
        if !device.has_capacity(3) {
            return Err(CaptureError::ResourceExhausted);
        }
        let desc = TextureDesc {
            width,
            height,
            depth_or_array_layers: 1,
            mip_level_count: 1,
            sample_count: 1,
            dimension: TextureDimension::D2,
            format: TextureFormat::Rgba8UnormSrgb,
            usage: TextureUsages::sampled_copy_dst(),
            view_format: vf,
        };
        let texture = match device.create_texture(desc) {
            Ok(id) => id,
            Err(e) => {
                return Err(e);
            },
        };
        device.write_texture(texture, rgba);
        proof {
            assert forall|j: int| 0 <= j < old(device).objects@.len() implies device.objects@[j]
                == old(device).objects@[j] by {
                assert(old(device).objects@[j].id < old(device).next_id);
            }
        }
        let (view, sampler) = get_view_and_sampler(device, texture, FilterMode::Linear, vf);
        Ok(Texture2D::<Unbound> {
            texture,
            view,
            sampler,
            bind_group: None,
            desc,
            state: Unbound,
        })
    }

    /// Wraps an existing texture object, giving it a default view and
    /// sampler.
    pub fn from_wgpu(
        device: &mut GpuDevice,
        texture: u64,
        desc: TextureDesc,
    ) -> (t: Texture2D<Unbound>)
        requires
            old(device).wf(),
            old(device).spec_capacity(2),
        ensures
            final(device).wf(),
            t.spec_bind_group() is None,
            t.desc == desc,
            t.texture == texture,
            t.view == old(device).next_id,
            t.sampler == old(device).next_id + 1,
            final(device).objects@ =~= old(device).objects@.push(
                GpuRecord {
                    id: t.view,
                    object: GpuObject::TextureView { texture, format: desc.view_format },
                },
            ).push(
                GpuRecord { id: t.sampler, object: GpuObject::Sampler { filter: FilterMode::Linear } },
            ),
            final(device).next_id == old(device).next_id + 2,
            final(device).budget == old(device).budget - 2,
    {
        let (view, sampler) = get_view_and_sampler(device, texture, FilterMode::Linear, desc.view_format);
        Texture2D::<Unbound> { texture, view, sampler, bind_group: None, desc, state: Unbound }
    }

    /// Wraps an externally-backed image as a texture of this library,
    /// computing the driver-level usage the wrap is made with.
    pub fn from_vk_image(
        device: &mut GpuDevice,
        image: u64,
        width: u32,
        height: u32,
        depth_or_array_layers: u32,
        mip_level_count: u32,
        sample_count: u32,
        format: InternalColorFormat,
        view_format: Option<InternalColorFormat>,
        usage: TextureUsages,
    ) -> (r: Result<Texture2D<Unbound>, CaptureError>)
        requires
            old(device).wf(),
        ensures
            final(device).wf(),
            r is Err ==> *final(device) == *old(device),
            r is Err <==> !(format.spec_to_texture_format() is Some && spec_view_format_ok(
                view_format,
            ) && old(device).spec_capacity(3)),
            !(format.spec_to_texture_format() is Some && spec_view_format_ok(view_format)) ==> r
                == Err::<Texture2D<Unbound>, CaptureError>(CaptureError::UnsupportedFormat),
            format.spec_to_texture_format() is Some && spec_view_format_ok(view_format) && !old(
                device,
            ).spec_capacity(3) ==> r == Err::<Texture2D<Unbound>, CaptureError>(
                CaptureError::ResourceExhausted),
            r matches Ok(t) ==> format.spec_to_texture_format() matches Some(f) && {
                &&& t.spec_bind_group() is None
                &&& t.desc == (TextureDesc {
                    width,
                    height,
                    depth_or_array_layers,
                    mip_level_count,
                    sample_count,
                    dimension: TextureDimension::D2,
                    format: f,
                    usage,
                    view_format: spec_view_format_of(view_format),
                })
                &&& t.texture == old(device).next_id
                &&& t.view == old(device).next_id + 1
                &&& t.sampler == old(device).next_id + 2
                &&& final(device).objects@ =~= old(device).objects@.push(
                    GpuRecord {
                        id: t.texture,
                        object: GpuObject::Texture {
                            desc: t.desc,
                            data: None,
                            raw_image: Some(image),
                            hal_uses: Some(spec_vk_import_hal_usage(usage, format)),
                        },
                    },
                ).push(
                    GpuRecord {
                        id: t.view,
                        object: GpuObject::TextureView {
                            texture: t.texture,
                            format: t.desc.view_format,
                        },
                    },
                ).push(
                    GpuRecord {
                        id: t.sampler,
                        object: GpuObject::Sampler { filter: FilterMode::Linear },
                    },
                )
                &&& final(device).next_id == old(device).next_id + 3
                &&& final(device).budget == old(device).budget - 3
            },
    {
        let f = match format.to_texture_format() {
            Ok(f) => f,
            Err(_) => {
                return Err(CaptureError::UnsupportedFormat);
            },
        };
        let vf = match build_view_format(view_format) {
            Ok(vf) => vf,
            Err(e) => {
                return Err(e);
            },
        };
        if !device.has_capacity(3) {
            return Err(CaptureError::ResourceExhausted);
        }
        let desc = TextureDesc {
            width,
            height,
            depth_or_array_layers,
            mip_level_count,
            sample_count,
            dimension: TextureDimension::D2,
            format: f,
            usage,
            view_format: vf,
        };
        let hal_uses = vk_import_hal_usage(usage, format);
        let texture = match device.texture_from_raw(image, desc, hal_uses) {
            Ok(id) => id,
            Err(e) => {
                return Err(e);
            },
        };
        let (view, sampler) = get_view_and_sampler(device, texture, FilterMode::Linear, vf);
        Ok(Texture2D::<Unbound> {
            texture,
            view,
            sampler,
            bind_group: None,
            desc,
            state: Unbound,
        })
    }

    /// Binds the texture to a shader pipeline: allocates exactly one
    /// binding group against the caller's layout and moves the texture,
    /// view and sampler into the bound form. The unbound value is consumed
    /// and cannot be used again.
    pub fn bind_to_context(
        self,
        device: &mut GpuDevice,
        bind_group_layout: &BindGroupLayout,
    ) -> (t: Texture2D<Bound>)
        requires
            old(device).wf(),
            old(device).spec_capacity(1),
        ensures
            final(device).wf(),
            t.spec_bind_group() == Some(old(device).next_id),
            t.texture == self.texture,
            t.view == self.view,
            t.sampler == self.sampler,
            t.desc == self.desc,
            final(device).objects@ =~= old(device).objects@.push(
                GpuRecord {
                    id: old(device).next_id,
                    object: GpuObject::BindGroup {
                        layout: bind_group_layout.id,
                        view: self.view,
                        sampler: self.sampler,
                    },
                },
            ),
            final(device).next_id == old(device).next_id + 1,
            final(device).budget == old(device).budget - 1,
    {
        let bind_group = match device.create_bind_group(bind_group_layout.id, self.view, self.sampler) {
            Ok(id) => id,
            Err(_) => {
                proof {
                    assert(false);
                }
                0
            },
        };
        Texture2D::<Bound> {
            texture: self.texture,
            view: self.view,
            sampler: self.sampler,
            bind_group: Some(bind_group),
            desc: self.desc,
            state: Bound,
        }
    }
}

impl Texture2D<Bound> {
    /// The binding group of a bound texture. Only the bound form has this
    /// accessor; every constructor of the bound form establishes that the
    /// binding exists.
    pub fn bind_group(&self) -> (r: u64)
        requires
            self.spec_bind_group() is Some,
        ensures
            Some(r) == self.spec_bind_group(),
    {
        match self.bind_group {
            Some(id) => id,
            None => {
                proof {
                    assert(false);
                }
                0
            },
        }
    }
}

/// The render-attachment capability added by `as_render_target_with_extent`.
pub open spec fn spec_render_attachment_usage() -> TextureUsages {
    TextureUsages {
        copy_src: false,
        copy_dst: false,
        texture_binding: false,
        storage_binding: false,
        render_attachment: true,
    }
}

fn render_attachment_usage() -> (r: TextureUsages)
    ensures
        r == spec_render_attachment_usage(),
{
    TextureUsages {
        copy_src: false,
        copy_dst: false,
        texture_binding: false,
        storage_binding: false,
        render_attachment: true,
    }
}

/// Whether the optional view format translates into the rendering API's
/// space; nothing to translate counts as fine.
pub open spec fn spec_view_format_ok(view_format: Option<InternalColorFormat>) -> bool {
    match view_format {
        Some(vf) => vf.spec_to_texture_format() is Some,
        None => true,
    }
}

/// The translated view format, when there is one.
pub open spec fn spec_view_format_of(view_format: Option<InternalColorFormat>) -> Option<
    TextureFormat,
> {
    match view_format {
        Some(vf) => vf.spec_to_texture_format(),
        None => None,
    }
}

/// Translates the optional extra view format, failing instead of
/// substituting when the table has no row for it.
pub fn build_view_format(view_format: Option<InternalColorFormat>) -> (r: Result<
    Option<TextureFormat>,
    CaptureError,
>)
    ensures
        r is Ok <==> spec_view_format_ok(view_format),
        r matches Ok(vf) ==> vf == spec_view_format_of(view_format),
        r is Err ==> r == Err::<Option<TextureFormat>, CaptureError>(CaptureError::UnsupportedFormat),
{
    match view_format {
        Some(vf) => match vf.to_texture_format() {
            Ok(f) => Ok(Some(f)),
            Err(_) => Err(CaptureError::UnsupportedFormat),
        },
        None => Ok(None),
    }
}

/// Creates the default view and sampler for a texture: the view in the
/// optional view format, the sampler filtering linearly.
fn get_view_and_sampler(
    device: &mut GpuDevice,
    texture: u64,
    filter_mode: FilterMode,
    view_format: Option<TextureFormat>,
) -> (r: (u64, u64))
    requires
        old(device).wf(),
        old(device).spec_capacity(2),
    ensures
        final(device).wf(),
        r.0 == old(device).next_id,
        r.1 == old(device).next_id + 1,
        final(device).objects@ =~= old(device).objects@.push(
            GpuRecord { id: r.0, object: GpuObject::TextureView { texture, format: view_format } },
        ).push(GpuRecord { id: r.1, object: GpuObject::Sampler { filter: filter_mode } }),
        final(device).next_id == old(device).next_id + 2,
        final(device).budget == old(device).budget - 2,
{
    let view = match device.create_view(texture, view_format) {
        Ok(id) => id,
        Err(_) => {
            proof {
                assert(false);
            }
            0
        },
    };
    let sampler = match device.create_sampler(filter_mode) {
        Ok(id) => id,
        Err(_) => {
            proof {
                assert(false);
            }
            0
        },
    };
    (view, sampler)
}

/// The driver-level usage flags implied by rendering-API usage flags, for
/// a format with the given aspects.
pub open spec fn spec_map_texture_usage(usage: TextureUsages, aspect: FormatAspects) -> TextureUses {
    TextureUses {
        copy_src: usage.copy_src,
        copy_dst: usage.copy_dst,
        resource: usage.texture_binding,
        storage_read: usage.storage_binding,
        storage_read_write: usage.storage_binding,
        color_target: usage.render_attachment && aspect.color,
        depth_stencil_read: usage.render_attachment && !aspect.color,
        depth_stencil_write: usage.render_attachment && !aspect.color,
    }
}

/// Maps rendering-API usage flags to driver-level usage flags: storage
/// maps to both storage uses, and render-attachment goes to the color or
/// the depth/stencil targets according to the format's aspects.
pub fn map_texture_usage(usage: TextureUsages, aspect: FormatAspects) -> (r: TextureUses)
    ensures
        r == spec_map_texture_usage(usage, aspect),
{
    TextureUses {
        copy_src: usage.copy_src,
        copy_dst: usage.copy_dst,
        resource: usage.texture_binding,
        storage_read: usage.storage_binding,
        storage_read_write: usage.storage_binding,
        color_target: usage.render_attachment && aspect.color,
        depth_stencil_read: usage.render_attachment && !aspect.color,
        depth_stencil_write: usage.render_attachment && !aspect.color,
    }
}

/// The aspects of a format: color unless it is a depth/stencil format.
pub open spec fn spec_format_aspects(format: InternalColorFormat) -> FormatAspects {
    FormatAspects {
        color: !format.spec_is_depth_stencil_format(),
        depth: format.spec_is_depth_format(),
        stencil: format.spec_is_stencil_format(),
    }
}

pub fn format_aspects(format: InternalColorFormat) -> (r: FormatAspects)
    ensures
        r == spec_format_aspects(format),
{
    FormatAspects {
        color: !format.is_depth_stencil_format(),
        depth: format.is_depth_format(),
        stencil: format.is_stencil_format(),
    }
}

/// The driver-level usage an imported image is wrapped with: the mapped
/// usage, extended with depth/stencil write for a depth/stencil format,
/// copy-destination when that was already asked for, and color target
/// otherwise.
pub open spec fn spec_vk_import_hal_usage(
    usage: TextureUsages,
    format: InternalColorFormat,
) -> TextureUses {
    let base = spec_map_texture_usage(usage, spec_format_aspects(format));
    if format.spec_is_depth_stencil_format() {
        TextureUses { depth_stencil_write: true, ..base }
    } else if usage.copy_dst {
        TextureUses { copy_dst: true, ..base }
    } else {
        TextureUses { color_target: true, ..base }
    }
}

pub fn vk_import_hal_usage(usage: TextureUsages, format: InternalColorFormat) -> (r: TextureUses)
    ensures
        r == spec_vk_import_hal_usage(usage, format),
{
    let base = map_texture_usage(usage, format_aspects(format));
    if format.is_depth_stencil_format() {
        TextureUses { depth_stencil_write: true, ..base }
    } else if usage.copy_dst {
        TextureUses { copy_dst: true, ..base }
    } else {
        TextureUses { color_target: true, ..base }
    }
}


/// The slot the cursor lands on after one advance.
pub open spec fn spec_advance(cursor: int, n: int) -> int {
    (cursor + 1) % n
}

/// The cursor after `k` advances from slot zero.
pub open spec fn spec_cursor_after(k: nat, n: int) -> int
    decreases k,
{
    if k == 0 {
        0
    } else {
        spec_advance(spec_cursor_after((k - 1) as nat, n), n)
    }
}

/// The slot `previous(idx)` reads, `idx` steps behind the cursor,
/// wrapping around.
pub open spec fn spec_previous_index(cursor: int, n: int, idx: int) -> int {
    if idx <= cursor {
        cursor - idx
    } else {
        cursor + n - idx
    }
}

/// A fixed ring of `N` slots with a cyclically advancing cursor. All slots
/// are allocated once, at construction; afterwards only the cursor and the
/// slot contents change.
pub struct RoundRobinTextureBuffer<TextureType, const N: usize> {
    pub textures: [TextureType; N],
    pub index: usize,
}

impl<TextureType, const N: usize> RoundRobinTextureBuffer<TextureType, N> {
    /// The cursor stays inside the ring.
    pub open spec fn wf(self) -> bool {
        self.index < N
    }

    pub fn new(textures: [TextureType; N]) -> (r: Self)
        requires
            N >= 1,
        ensures
            r.wf(),
            r.textures@ == textures@,
            r.index == 0,
    {
        Self { textures, index: 0 }
    }

    /// The slot under the cursor.
    pub fn current(&self) -> (r: &TextureType)
        requires
            self.wf(),
        ensures
            r == self.textures@[self.index as int],
    {
        &self.textures[self.index]
    }

    /// The slot `idx` steps behind the cursor, wrapping around; `previous(0)`
    /// is the current slot.
    pub fn previous(&self, idx: usize) -> (r: &TextureType)
        requires
            self.wf(),
            idx <= N,
        ensures
            r == self.textures@[spec_previous_index(self.index as int, N as int, idx as int)],
    {
        if idx <= self.index {
            &self.textures[self.index - idx]
        } else {
            &self.textures[self.index + (N - idx)]
        }
    }

    /// Advances the cursor by one and returns a mutable handle to the new
    /// current slot, for writing.
    pub fn next(&mut self) -> (r: &mut TextureType)
        requires
            old(self).wf(),
        ensures
            final(self).wf(),
            final(self).index == spec_advance(old(self).index as int, N as int),
            *r == old(self).textures@[spec_advance(old(self).index as int, N as int)],
            final(self).textures@ == old(self).textures@.update(
                spec_advance(old(self).index as int, N as int),
                *final(r),
            ),
    {
        self.index = (self.index + 1) % N;
        &mut self.textures[self.index]
    }
}

/// Round-robin law: starting from a fresh ring, `k` advances land the
/// cursor on slot `k % N`, for any ring size of at least one.
pub proof fn lemma_cursor_after_k_advances(k: nat, n: int)
    requires
        n >= 1,
    ensures
        spec_cursor_after(k, n) == (k as int) % n,
    decreases k,
{
    if k == 0 {
    } else {
        lemma_cursor_after_k_advances((k - 1) as nat, n);
        assert(spec_cursor_after(k, n) == ((k as int - 1) % n + 1) % n);
        assert(((k as int - 1) % n + 1) % n == (k as int) % n) by (nonlinear_arith)
            requires
                n >= 1,
                k >= 1,
        ;
    }
}

/// Round-robin law: immediately after an advance, `previous(1)` is the
/// slot that was current before the advance.
pub proof fn lemma_previous_one_after_advance(cursor: int, n: int)
    requires
        n >= 1,
        0 <= cursor < n,
    ensures
        spec_previous_index(spec_advance(cursor, n), n, 1) == cursor,
{
    if cursor + 1 < n {
        assert(spec_advance(cursor, n) == cursor + 1) by (nonlinear_arith)
            requires
                n >= 1,
                0 <= cursor,
                cursor + 1 < n,
        ;
    } else {
        assert(spec_advance(cursor, n) == 0) by (nonlinear_arith)
            requires
                n >= 1,
                cursor + 1 == n,
        ;
    }
}

} // verus!
