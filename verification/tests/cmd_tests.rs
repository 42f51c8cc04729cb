use libvktypes::cmd::{reset_flags, BufferCopy, BufferError, CopyBufferToImageCfg, Offset3D, PoolError};
use libvktypes::cmd;
use libvktypes::flags::{
    ACCESS_MEMORY_READ, ACCESS_COLOR_ATTACHMENT_WRITE, IMAGE_ASPECT_COLOR, IMAGE_LAYOUT_GENERAL,
    IMAGE_LAYOUT_TRANSFER_DST_OPTIMAL, PIPELINE_STAGE_BOTTOM_OF_PIPE, PIPELINE_STAGE_COLOR_ATTACHMENT_OUTPUT,
    QUEUE_FAMILY_IGNORED,
};
use libvktypes::layout::{single_subresource, Extent2D, Extent3D, Layout, LayoutElement, MemoryRequirements};
use libvktypes::memory::{Memory, RefImageView, RefView, Region};
use libvktypes::pipeline::Rect2D;

fn memory() -> Memory {
    let elements = vec![
        LayoutElement::Buffer { vk_buffer: 1, offset: 0, allocated_size: 0, size: 300 },
        LayoutElement::Buffer { vk_buffer: 2, offset: 0, allocated_size: 0, size: 120 },
        LayoutElement::Image {
            vk_image: 3,
            vk_image_view: 4,
            extent: Extent3D { width: 16, height: 8, depth: 1 },
            subresource: single_subresource(IMAGE_ASPECT_COLOR),
            format: 37,
            offset: 0,
            allocated_size: 0,
            is_swapchain_image: false,
        },
    ];
    let reqs = [
        MemoryRequirements { size: 320, alignment: 64, memory_type_bits: 1 },
        MemoryRequirements { size: 128, alignment: 64, memory_type_bits: 1 },
        MemoryRequirements { size: 512, alignment: 64, memory_type_bits: 1 },
    ];
    Memory::new(Layout::new(elements, &reqs, 64), Region::new(9, 2048, 0))
}

#[test]
fn copy_takes_the_smaller_size() {
    let m = memory();
    let buffer = cmd::Buffer::new(77);
    assert_eq!(buffer.buffer(), 77);
    let (src, dst, region) = buffer.copy_memory(&RefView::new(&m, 0), &RefView::new(&m, 1));
    assert_eq!((src, dst), (1, 2));
    assert_eq!(region, BufferCopy { src_offset: 0, dst_offset: 0, size: 120 });
    let (_, _, region) = buffer.copy_memory(&RefView::new(&m, 1), &RefView::new(&m, 0));
    assert_eq!(region.size, 120);
}

#[test]
fn copy_to_image_defaults() {
    let m = memory();
    let buffer = cmd::Buffer::new(77);
    let copy = buffer.copy_buffer_to_image(&RefView::new(&m, 0), &RefImageView::new(&m, 2));
    assert_eq!(copy.buffer, 1);
    assert_eq!(copy.image, 3);
    assert_eq!(copy.dst_image_layout, IMAGE_LAYOUT_TRANSFER_DST_OPTIMAL | IMAGE_LAYOUT_GENERAL);
    assert_eq!(copy.dst_image_layout, 7);
    assert_eq!(copy.region.image_extent, Extent3D { width: 16, height: 8, depth: 1 });
    assert_eq!(copy.region.image_offset, Offset3D { x: 0, y: 0, z: 0 });
    assert_eq!(copy.region.image_subresource.aspect_mask, IMAGE_ASPECT_COLOR);
    assert_eq!(copy.region.buffer_offset, 0);

    let mut cfg = CopyBufferToImageCfg::new(&RefView::new(&m, 0), &RefImageView::new(&m, 2));
    assert_eq!(buffer.copy_buffer_to_image_with_cfg(&cfg), copy);
    cfg.buffer_offset(64).buffer_row_length(16).buffer_image_height(8).image_offset(1, 2, 0)
        .image_extent(4, 4, 1).image_subresource_mip_level(1).image_subresource_layer_count(2)
        .image_subresource_base_array_layer(1).image_subresource_aspect(2).dst_image_layout(IMAGE_LAYOUT_GENERAL);
    let changed = buffer.copy_buffer_to_image_with_cfg(&cfg);
    assert_eq!(changed.region.buffer_offset, 64);
    assert_eq!(changed.region.buffer_row_length, 16);
    assert_eq!(changed.region.buffer_image_height, 8);
    assert_eq!(changed.region.image_offset, Offset3D { x: 1, y: 2, z: 0 });
    assert_eq!(changed.region.image_extent, Extent3D { width: 4, height: 4, depth: 1 });
    assert_eq!(changed.region.image_subresource.mip_level, 1);
    assert_eq!(changed.region.image_subresource.layer_count, 2);
    assert_eq!(changed.region.image_subresource.base_array_layer, 1);
    assert_eq!(changed.region.image_subresource.aspect_mask, 2);
    assert_eq!(changed.dst_image_layout, IMAGE_LAYOUT_GENERAL);
    assert_eq!((changed.buffer, changed.image), (1, 3));
}

#[test]
fn barriers_cover_the_views() {
    let m = memory();
    let buffer = cmd::Buffer::new(77);
    let b = buffer.set_barrier(&RefView::new(&m, 1), ACCESS_COLOR_ATTACHMENT_WRITE, ACCESS_MEMORY_READ,
        PIPELINE_STAGE_COLOR_ATTACHMENT_OUTPUT, PIPELINE_STAGE_BOTTOM_OF_PIPE, QUEUE_FAMILY_IGNORED, QUEUE_FAMILY_IGNORED);
    assert_eq!(b.barrier.buffer, 2);
    assert_eq!(b.barrier.offset, 320);
    assert_eq!(b.barrier.size, 120);
    assert_eq!(b.src_stage, PIPELINE_STAGE_COLOR_ATTACHMENT_OUTPUT);
    let i = buffer.set_image_barrier(&RefImageView::new(&m, 2), 0, ACCESS_MEMORY_READ, 0, IMAGE_LAYOUT_GENERAL,
        PIPELINE_STAGE_COLOR_ATTACHMENT_OUTPUT, PIPELINE_STAGE_BOTTOM_OF_PIPE, 0, 1);
    assert_eq!(i.barrier.image, 3);
    assert_eq!(i.barrier.subresource_range, single_subresource(IMAGE_ASPECT_COLOR));
    assert_eq!((i.barrier.old_layout, i.barrier.new_layout), (0, IMAGE_LAYOUT_GENERAL));
    assert_eq!((i.barrier.src_queue_family_index, i.barrier.dst_queue_family_index), (0, 1));
}

#[test]
fn vertex_buffers_and_scissors() {
    let m = memory();
    let buffer = cmd::Buffer::new(77);
    let views = [RefView::new(&m, 1), RefView::new(&m, 0)];
    assert_eq!(buffer.bind_vertex_buffers(&views), (vec![2, 1], vec![0, 0]));
    let with_offsets = [(RefView::new(&m, 0), 16u64), (RefView::new(&m, 1), 32u64)];
    assert_eq!(buffer.bind_vertex_buffers_with_offsets(&with_offsets), (vec![1, 2], vec![16, 32]));
    let extents = [Extent2D { width: 1, height: 2 }, Extent2D { width: 3, height: 4 }];
    assert_eq!(buffer.set_scissors_2d(&extents), vec![
        Rect2D { x: 0, y: 0, extent: extents[0] },
        Rect2D { x: 0, y: 0, extent: extents[1] },
    ]);
    assert_eq!(buffer.render_area(extents[1]), Rect2D { x: 0, y: 0, extent: extents[1] });
}

#[test]
fn reset_flag_values() {
    assert_eq!(reset_flags(true), ash::vk::CommandPoolResetFlags::RELEASE_RESOURCES.as_raw());
    assert_eq!(reset_flags(true), ash::vk::CommandBufferResetFlags::RELEASE_RESOURCES.as_raw());
    assert_eq!(reset_flags(false), 0);
}

#[test]
fn command_error_messages() {
    assert_eq!(PoolError::Creating.message(), "vkCreateCommandPool call failed");
    assert_eq!(PoolError::Reset.message(), "vkResetCommandPool call failed");
    assert_eq!(BufferError::Creating.message(), "vkAllocateCommandBuffers call failed");
    assert_eq!(BufferError::Begin.message(), "vkBeginCommandBuffer call failed");
    assert_eq!(BufferError::Commit.message(), "vkBeginCommandBuffer call failed");
    assert_eq!(BufferError::Reset.message(), "vkResetCommandBuffer call failed");
}
