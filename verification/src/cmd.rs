//! Commands of GPU command buffers: what each command is recorded with.
//!
//! A [`Buffer`] names a command buffer; each of its methods returns the parameters of the
//! command it records, taken from the views and settings it is given.

use vstd::prelude::*;
use crate::flags::{
    Handle, AccessFlags, PipelineStage, ImageLayout, ImageAspect, IMAGE_LAYOUT_TRANSFER_DST_OPTIMAL,
    IMAGE_LAYOUT_GENERAL,
};
use crate::layout::{Extent2D, Extent3D, ImageSubresourceLayers, ImageSubresourceRange, element_offset, element_size};
use crate::memory::{BufferView, ImageView, view_element};
use crate::pipeline::Rect2D;

verus! {

/// Errors of a command pool
#[derive(Debug, Clone, Copy, PartialEq, Eq, Structural)]
pub enum PoolError {
    /// Failed to create the command pool
    Creating,
    /// Failed to reset the command pool
    Reset,
}

/// Text that describes `e`.
pub open spec fn pool_error_text(e: PoolError) -> Seq<char> {
    match e {
        PoolError::Creating => "vkCreateCommandPool call failed"@,
        PoolError::Reset => "vkResetCommandPool call failed"@,
    }
}

impl PoolError {
    /// Human readable description of the error
    pub fn message(&self) -> (r: &'static str)
        ensures
            r@ == pool_error_text(*self),
    {
        match self {
            PoolError::Creating => "vkCreateCommandPool call failed",
            PoolError::Reset => "vkResetCommandPool call failed",
        }
    }
}

/// Errors of a command buffer
#[derive(Debug, Clone, Copy, PartialEq, Eq, Structural)]
pub enum BufferError {
    /// Failed to allocate the buffer
    Creating,
    /// Failed to begin the buffer
    Begin,
    /// Failed to end the buffer
    Commit,
    /// Failed to reset the buffer
    Reset,
}

/// Text that describes `e`.
pub open spec fn buffer_error_text(e: BufferError) -> Seq<char> {
    match e {
        BufferError::Creating => "vkAllocateCommandBuffers call failed"@,
        BufferError::Begin => "vkBeginCommandBuffer call failed"@,
        BufferError::Commit => "vkBeginCommandBuffer call failed"@,
        BufferError::Reset => "vkResetCommandBuffer call failed"@,
    }
}

impl BufferError {
    /// Human readable description of the error
    pub fn message(&self) -> (r: &'static str)
        ensures
            r@ == buffer_error_text(*self),
    {
        match self {
            BufferError::Creating => "vkAllocateCommandBuffers call failed",
            BufferError::Begin => "vkBeginCommandBuffer call failed",
            BufferError::Commit => "vkBeginCommandBuffer call failed",
            BufferError::Reset => "vkResetCommandBuffer call failed",
        }
    }
}

/// Flags of a pool or buffer reset: release the resources (`RELEASE_RESOURCES`) or keep them.
pub open spec fn spec_reset_flags(release_resources: bool) -> u32 {
    if release_resources { 1 } else { 0 }
}

/// A reset releases the resources exactly when asked to: its flags are the
/// `RELEASE_RESOURCES` bit then, and empty otherwise.
pub proof fn lemma_reset_flags(release_resources: bool)
    ensures
        spec_reset_flags(release_resources) == 1 <==> release_resources,
        spec_reset_flags(release_resources) == 0 <==> !release_resources,
{
}

/// Flags of a pool or buffer reset: release the resources or keep them
pub fn reset_flags(release_resources: bool) -> (r: u32)
    ensures
        r == spec_reset_flags(release_resources),
        release_resources ==> r == 1,
        !release_resources ==> r == 0,
{
    if release_resources { 1 } else { 0 }
}

/// Layout a copy destination image is taken to be in by default:
/// `TRANSFER_DST_OPTIMAL | GENERAL`.
pub open spec fn spec_transfer_layout() -> ImageLayout {
    IMAGE_LAYOUT_TRANSFER_DST_OPTIMAL | IMAGE_LAYOUT_GENERAL
}

/// Copy of buffer memory (`VkBufferCopy`)
#[derive(Debug, Clone, Copy, PartialEq, Eq, Structural)]
pub struct BufferCopy {
    pub src_offset: u64,
    pub dst_offset: u64,
    pub size: u64,
}

/// Offset inside an image (`VkOffset3D`)
#[derive(Debug, Clone, Copy, PartialEq, Eq, Structural)]
pub struct Offset3D {
    pub x: i32,
    pub y: i32,
    pub z: i32,
}

/// Copy of buffer memory to an image (`VkBufferImageCopy`)
#[derive(Debug, Clone, Copy, PartialEq, Eq, Structural)]
pub struct BufferImageCopy {
    pub buffer_offset: u64,
    pub buffer_row_length: u32,
    pub buffer_image_height: u32,
    pub image_subresource: ImageSubresourceLayers,
    pub image_offset: Offset3D,
    pub image_extent: Extent3D,
}

/// Buffer memory barrier (`VkBufferMemoryBarrier`)
#[derive(Debug, Clone, Copy, PartialEq, Eq, Structural)]
pub struct BufferBarrier {
    pub src_access_mask: AccessFlags,
    pub dst_access_mask: AccessFlags,
    pub src_queue_family_index: u32,
    pub dst_queue_family_index: u32,
    pub buffer: Handle,
    pub offset: u64,
    pub size: u64,
}

/// Image memory barrier (`VkImageMemoryBarrier`)
#[derive(Debug, Clone, Copy, PartialEq, Eq, Structural)]
pub struct ImageBarrier {
    pub src_access_mask: AccessFlags,
    pub dst_access_mask: AccessFlags,
    pub old_layout: ImageLayout,
    pub new_layout: ImageLayout,
    pub src_queue_family_index: u32,
    pub dst_queue_family_index: u32,
    pub image: Handle,
    pub subresource_range: ImageSubresourceRange,
}

/// Pipeline barrier over one buffer or one image, between two pipeline stages
#[derive(Debug, Clone, Copy, PartialEq, Eq, Structural)]
pub struct PipelineBarrier<B> {
    pub src_stage: PipelineStage,
    pub dst_stage: PipelineStage,
    pub barrier: B,
}

/// Command of a buffer-to-image copy
#[derive(Debug, Clone, Copy, PartialEq, Eq, Structural)]
pub struct CopyToImage {
    pub buffer: Handle,
    pub image: Handle,
    pub dst_image_layout: ImageLayout,
    pub region: BufferImageCopy,
}

/// The view names a buffer element of its memory.
pub open spec fn is_buffer_view<T: BufferView>(view: T) -> bool {
    &&& view.spec_index() < view.spec_memory().spec_layout().elements@.len()
    &&& view_element(view.spec_memory(), view.spec_index()) is Buffer
}

/// The view names an image element of its memory.
pub open spec fn is_image_view<U: ImageView>(view: U) -> bool {
    &&& view.spec_index() < view.spec_memory().spec_layout().elements@.len()
    &&& view_element(view.spec_memory(), view.spec_index()) is Image
}

/// Buffer handle of a buffer view.
pub open spec fn buffer_of<T: BufferView>(view: T) -> Handle {
    view_element(view.spec_memory(), view.spec_index())->vk_buffer
}

/// Requested size of the buffer of a view.
pub open spec fn size_of_view<T: BufferView>(view: T) -> u64 {
    element_size(view_element(view.spec_memory(), view.spec_index()))
}

/// Default copy of the buffer of `src` to the whole image of `dst`: no offset in either, the
/// image's first subresource layers and its extent.
pub open spec fn spec_copy_to_image<T: BufferView, U: ImageView>(src: T, dst: U) -> CopyToImage {
    let e = view_element(dst.spec_memory(), dst.spec_index());
    CopyToImage {
        buffer: buffer_of(src),
        image: e->vk_image,
        dst_image_layout: spec_transfer_layout(),
        region: BufferImageCopy {
            buffer_offset: 0,
            buffer_row_length: 0,
            buffer_image_height: 0,
            image_subresource: ImageSubresourceLayers {
                aspect_mask: e->subresource.aspect_mask,
                mip_level: e->subresource.base_mip_level,
                base_array_layer: e->subresource.base_array_layer,
                layer_count: e->subresource.layer_count,
            },
            image_offset: Offset3D { x: 0, y: 0, z: 0 },
            image_extent: e->extent,
        },
    }
}

fn copy_to_image<T: BufferView, U: ImageView>(src: &T, dst: &U) -> (r: CopyToImage)
    requires
        is_buffer_view(*src),
        is_image_view(*dst),
    ensures
        r == spec_copy_to_image(*src, *dst),
{
    CopyToImage {
        buffer: src.buffer(),
        image: dst.image(),
        dst_image_layout: IMAGE_LAYOUT_TRANSFER_DST_OPTIMAL | IMAGE_LAYOUT_GENERAL,
        region: BufferImageCopy {
            buffer_offset: 0,
            buffer_row_length: 0,
            buffer_image_height: 0,
            image_subresource: dst.memory().layout().subresource_layer(dst.index()),
            image_offset: Offset3D { x: 0, y: 0, z: 0 },
            image_extent: dst.extent(),
        },
    }
}

/// A command buffer in which commands are written
#[derive(Debug, Clone, Copy, PartialEq, Eq, Structural)]
pub struct Buffer {
    i_buffer: Handle,
}

impl Buffer {
    pub closed spec fn spec_buffer(&self) -> Handle { self.i_buffer }

    /// Command buffer `buffer`
    pub fn new(buffer: Handle) -> (r: Buffer)
        ensures
            r.spec_buffer() == buffer,
    {
        Buffer { i_buffer: buffer }
    }

    /// Command buffer handle; once ended it is the executable buffer
    pub fn buffer(&self) -> (r: Handle)
        ensures
            r == self.spec_buffer(),
    {
        self.i_buffer
    }

    /// Copy of `src` into `dst`: as many bytes as the smaller of the two holds, so that the
    /// rest of a larger destination stays intact
    pub fn copy_memory<T: BufferView>(&self, src: &T, dst: &T) -> (r: (Handle, Handle, BufferCopy))
        requires
            is_buffer_view(*src),
            is_buffer_view(*dst),
        ensures
            r.0 == buffer_of(*src),
            r.1 == buffer_of(*dst),
            r.2.src_offset == 0,
            r.2.dst_offset == 0,
            r.2.size == if size_of_view(*src) <= size_of_view(*dst) { size_of_view(*src) } else { size_of_view(*dst) },
    {
        let src_size = src.size();
        let dst_size = dst.size();
        let size = if src_size <= dst_size { src_size } else { dst_size };
        (src.buffer(), dst.buffer(), BufferCopy { src_offset: 0, dst_offset: 0, size })
    }

    /// Copy of the buffer of `src` to the image of `dst`, which must be in layout
    /// `TRANSFER_DST_OPTIMAL` or `GENERAL`; sizes are not checked
    pub fn copy_buffer_to_image<T: BufferView, U: ImageView>(&self, src: &T, dst: &U) -> (r: CopyToImage)
        requires
            is_buffer_view(*src),
            is_image_view(*dst),
        ensures
            r == spec_copy_to_image(*src, *dst),
    {
        copy_to_image(src, dst)
    }

    /// Copy described by `cfg`
    pub fn copy_buffer_to_image_with_cfg(&self, cfg: &CopyBufferToImageCfg) -> (r: CopyToImage)
        ensures
            r == cfg.spec_copy(),
    {
        cfg.i_copy
    }

    /// Barrier over the buffer of `mem`, its offset and size, between the accesses and
    /// stages given
    pub fn set_barrier<T: BufferView>(
        &self,
        mem: &T,
        src_type: AccessFlags,
        dst_type: AccessFlags,
        src_stage: PipelineStage,
        dst_stage: PipelineStage,
        src_queue_family: u32,
        dst_queue_family: u32,
    ) -> (r: PipelineBarrier<BufferBarrier>)
        requires
            is_buffer_view(*mem),
        ensures
            r == (PipelineBarrier {
                src_stage,
                dst_stage,
                barrier: BufferBarrier {
                    src_access_mask: src_type,
                    dst_access_mask: dst_type,
                    src_queue_family_index: src_queue_family,
                    dst_queue_family_index: dst_queue_family,
                    buffer: buffer_of(*mem),
                    offset: element_offset(view_element(mem.spec_memory(), mem.spec_index())),
                    size: size_of_view(*mem),
                },
            }),
    {
        PipelineBarrier {
            src_stage,
            dst_stage,
            barrier: BufferBarrier {
                src_access_mask: src_type,
                dst_access_mask: dst_type,
                src_queue_family_index: src_queue_family,
                dst_queue_family_index: dst_queue_family,
                buffer: mem.buffer(),
                offset: mem.offset(),
                size: mem.size(),
            },
        }
    }

    /// Barrier over the image of `view` and its subresource range, with a layout transition
    pub fn set_image_barrier<U: ImageView>(
        &self,
        view: &U,
        src_type: AccessFlags,
        dst_type: AccessFlags,
        src_layout: ImageLayout,
        dst_layout: ImageLayout,
        src_stage: PipelineStage,
        dst_stage: PipelineStage,
        src_queue_family: u32,
        dst_queue_family: u32,
    ) -> (r: PipelineBarrier<ImageBarrier>)
        requires
            is_image_view(*view),
        ensures
            r == (PipelineBarrier {
                src_stage,
                dst_stage,
                barrier: ImageBarrier {
                    src_access_mask: src_type,
                    dst_access_mask: dst_type,
                    old_layout: src_layout,
                    new_layout: dst_layout,
                    src_queue_family_index: src_queue_family,
                    dst_queue_family_index: dst_queue_family,
                    image: view_element(view.spec_memory(), view.spec_index())->vk_image,
                    subresource_range: view_element(view.spec_memory(), view.spec_index())->subresource,
                },
            }),
    {
        PipelineBarrier {
            src_stage,
            dst_stage,
            barrier: ImageBarrier {
                src_access_mask: src_type,
                dst_access_mask: dst_type,
                old_layout: src_layout,
                new_layout: dst_layout,
                src_queue_family_index: src_queue_family,
                dst_queue_family_index: dst_queue_family,
                image: view.image(),
                subresource_range: view.subresource(),
            },
        }
    }

    /// Vertex buffers bound from the first binding on, each with its offset
    pub fn bind_vertex_buffers_with_offsets<T: BufferView>(&self, buffers: &[(T, u64)]) -> (r: (Vec<Handle>, Vec<u64>))
        requires
            forall|i: int| 0 <= i < buffers@.len() ==> is_buffer_view(#[trigger] buffers@[i].0),
        ensures
            r.0@ == Seq::new(buffers@.len(), |i: int| buffer_of(buffers@[i].0)),
            r.1@ == Seq::new(buffers@.len(), |i: int| buffers@[i].1),
    {
        let mut handles: Vec<Handle> = Vec::new();
        let mut offsets: Vec<u64> = Vec::new();
        let n = buffers.len();
        let mut i: usize = 0;
        while i < n
            invariant
                n == buffers@.len(),
                forall|k: int| 0 <= k < buffers@.len() ==> is_buffer_view(#[trigger] buffers@[k].0),
                0 <= i <= n,
                handles@ == Seq::new(i as nat, |k: int| buffer_of(buffers@[k].0)),
                offsets@ == Seq::new(i as nat, |k: int| buffers@[k].1),
            decreases n - i,
        {
            let entry = &buffers[i];
            assert(is_buffer_view(buffers@[i as int].0));
            handles.push(entry.0.buffer());
            offsets.push(entry.1);
            i = i + 1;
            assert(handles@ =~= Seq::new(i as nat, |k: int| buffer_of(buffers@[k].0)));
            assert(offsets@ =~= Seq::new(i as nat, |k: int| buffers@[k].1));
        }
        (handles, offsets)
    }

    /// Vertex buffers bound from the first binding on, each from its start
    pub fn bind_vertex_buffers<T: BufferView>(&self, buffers: &[T]) -> (r: (Vec<Handle>, Vec<u64>))
        requires
            forall|i: int| 0 <= i < buffers@.len() ==> is_buffer_view(#[trigger] buffers@[i]),
        ensures
            r.0@ == Seq::new(buffers@.len(), |i: int| buffer_of(buffers@[i])),
            r.1@ == Seq::new(buffers@.len(), |i: int| 0u64),
    {
        let mut handles: Vec<Handle> = Vec::new();
        let mut offsets: Vec<u64> = Vec::new();
        let n = buffers.len();
        let mut i: usize = 0;
        while i < n
            invariant
                n == buffers@.len(),
                forall|k: int| 0 <= k < buffers@.len() ==> is_buffer_view(#[trigger] buffers@[k]),
                0 <= i <= n,
                handles@ == Seq::new(i as nat, |k: int| buffer_of(buffers@[k])),
                offsets@ == Seq::new(i as nat, |k: int| 0u64),
            decreases n - i,
        {
            assert(is_buffer_view(buffers@[i as int]));
            handles.push(buffers[i].buffer());
            offsets.push(0);
            i = i + 1;
            assert(handles@ =~= Seq::new(i as nat, |k: int| buffer_of(buffers@[k])));
            assert(offsets@ =~= Seq::new(i as nat, |k: int| 0u64));
        }
        (handles, offsets)
    }

    /// Scissors from the origin with the given extents; the pipeline must have a dynamic scissor
    pub fn set_scissors_2d(&self, scissors: &[Extent2D]) -> (r: Vec<Rect2D>)
        ensures
            r@ == Seq::new(scissors@.len(), |i: int| Rect2D { x: 0, y: 0, extent: scissors@[i] }),
    {
        let mut r: Vec<Rect2D> = Vec::new();
        let n = scissors.len();
        let mut i: usize = 0;
        while i < n
            invariant
                n == scissors@.len(),
                0 <= i <= n,
                r@ == Seq::new(i as nat, |k: int| Rect2D { x: 0, y: 0, extent: scissors@[k] }),
            decreases n - i,
        {
            r.push(Rect2D { x: 0, y: 0, extent: scissors[i] });
            i = i + 1;
            assert(r@ =~= Seq::new(i as nat, |k: int| Rect2D { x: 0, y: 0, extent: scissors@[k] }));
        }
        r
    }

    /// Area of a render pass over a framebuffer of `extent`: all of it
    pub fn render_area(&self, extent: Extent2D) -> (r: Rect2D)
        ensures
            r == (Rect2D { x: 0, y: 0, extent }),
    {
        Rect2D { x: 0, y: 0, extent }
    }
}

/// Copy of a buffer to an image whose settings can be changed one by one; by default they
/// are those that [`Buffer::copy_buffer_to_image`] takes from the views
#[derive(Debug, Clone, Copy)]
pub struct CopyBufferToImageCfg {
    i_copy: CopyToImage,
}

impl CopyBufferToImageCfg {
    pub closed spec fn spec_copy(&self) -> CopyToImage { self.i_copy }

    /// Settings of the copy of the buffer of `src` to the image of `dst`
    pub fn new<T: BufferView, U: ImageView>(src: &T, dst: &U) -> (r: CopyBufferToImageCfg)
        requires
            is_buffer_view(*src),
            is_image_view(*dst),
        ensures
            r.spec_copy() == spec_copy_to_image(*src, *dst),
    {
        CopyBufferToImageCfg { i_copy: copy_to_image(src, dst) }
    }

    /// Offset in the buffer; default is 0
    pub fn buffer_offset(&mut self, offset: u64) -> (r: &mut Self)
        ensures
            r.spec_copy() == (CopyToImage {
                region: BufferImageCopy { buffer_offset: offset, ..old(self).spec_copy().region },
                ..old(self).spec_copy()
            }),
            *final(self) == *final(r),
    {
        self.i_copy.region.buffer_offset = offset;
        self
    }

    /// Row length in the buffer; default is 0, tightly packed
    pub fn buffer_row_length(&mut self, length: u32) -> (r: &mut Self)
        ensures
            r.spec_copy() == (CopyToImage {
                region: BufferImageCopy { buffer_row_length: length, ..old(self).spec_copy().region },
                ..old(self).spec_copy()
            }),
            *final(self) == *final(r),
    {
        self.i_copy.region.buffer_row_length = length;
        self
    }

    /// Image height in the buffer; default is 0, tightly packed
    pub fn buffer_image_height(&mut self, height: u32) -> (r: &mut Self)
        ensures
            r.spec_copy() == (CopyToImage {
                region: BufferImageCopy { buffer_image_height: height, ..old(self).spec_copy().region },
                ..old(self).spec_copy()
            }),
            *final(self) == *final(r),
    {
        self.i_copy.region.buffer_image_height = height;
        self
    }

    /// Aspect of the copied subresource
    pub fn image_subresource_aspect(&mut self, aspect: ImageAspect) -> (r: &mut Self)
        ensures
            r.spec_copy() == (CopyToImage {
                region: BufferImageCopy {
                    image_subresource: ImageSubresourceLayers {
                        aspect_mask: aspect,
                        ..old(self).spec_copy().region.image_subresource
                    },
                    ..old(self).spec_copy().region
                },
                ..old(self).spec_copy()
            }),
            *final(self) == *final(r),
    {
        self.i_copy.region.image_subresource.aspect_mask = aspect;
        self
    }

    /// Mip level of the copied subresource
    pub fn image_subresource_mip_level(&mut self, mip_level: u32) -> (r: &mut Self)
        ensures
            r.spec_copy() == (CopyToImage {
                region: BufferImageCopy {
                    image_subresource: ImageSubresourceLayers {
                        mip_level,
                        ..old(self).spec_copy().region.image_subresource
                    },
                    ..old(self).spec_copy().region
                },
                ..old(self).spec_copy()
            }),
            *final(self) == *final(r),
    {
        self.i_copy.region.image_subresource.mip_level = mip_level;
        self
    }

    /// First array layer of the copied subresource
    pub fn image_subresource_base_array_layer(&mut self, base_array_layer: u32) -> (r: &mut Self)
        ensures
            r.spec_copy() == (CopyToImage {
                region: BufferImageCopy {
                    image_subresource: ImageSubresourceLayers {
                        base_array_layer,
                        ..old(self).spec_copy().region.image_subresource
                    },
                    ..old(self).spec_copy().region
                },
                ..old(self).spec_copy()
            }),
            *final(self) == *final(r),
    {
        self.i_copy.region.image_subresource.base_array_layer = base_array_layer;
        self
    }

    /// Number of array layers of the copied subresource
    pub fn image_subresource_layer_count(&mut self, layer_count: u32) -> (r: &mut Self)
        ensures
            r.spec_copy() == (CopyToImage {
                region: BufferImageCopy {
                    image_subresource: ImageSubresourceLayers {
                        layer_count,
                        ..old(self).spec_copy().region.image_subresource
                    },
                    ..old(self).spec_copy().region
                },
                ..old(self).spec_copy()
            }),
            *final(self) == *final(r),
    {
        self.i_copy.region.image_subresource.layer_count = layer_count;
        self
    }

    /// Offset in the image; default is the origin
    pub fn image_offset(&mut self, x: i32, y: i32, z: i32) -> (r: &mut Self)
        ensures
            r.spec_copy() == (CopyToImage {
                region: BufferImageCopy { image_offset: Offset3D { x, y, z }, ..old(self).spec_copy().region },
                ..old(self).spec_copy()
            }),
            *final(self) == *final(r),
    {
        self.i_copy.region.image_offset = Offset3D { x, y, z };
        self
    }

    /// Extent of the copied part of the image; default is the whole image
    pub fn image_extent(&mut self, width: u32, height: u32, depth: u32) -> (r: &mut Self)
        ensures
            r.spec_copy() == (CopyToImage {
                region: BufferImageCopy {
                    image_extent: Extent3D { width, height, depth },
                    ..old(self).spec_copy().region
                },
                ..old(self).spec_copy()
            }),
            *final(self) == *final(r),
    {
        self.i_copy.region.image_extent = Extent3D { width, height, depth };
        self
    }

    /// Layout the image is in; default is `TRANSFER_DST_OPTIMAL | GENERAL`
    pub fn dst_image_layout(&mut self, layout: ImageLayout) -> (r: &mut Self)
        ensures
            r.spec_copy() == (CopyToImage { dst_image_layout: layout, ..old(self).spec_copy() }),
            *final(self) == *final(r),
    {
        self.i_copy.dst_image_layout = layout;
        self
    }
}

} // verus!
