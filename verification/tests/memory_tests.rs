use libvktypes::flags::{
    BUFFER_USAGE_TRANSFER_DST, BUFFER_USAGE_TRANSFER_SRC, BUFFER_USAGE_UNIFORM_BUFFER, DESCRIPTOR_TYPE_UNIFORM_BUFFER,
    MEMORY_PROPERTY_DEVICE_LOCAL, MEMORY_PROPERTY_HOST_COHERENT, MEMORY_PROPERTY_HOST_VISIBLE, SHADER_STAGE_FRAGMENT,
    IMAGE_ASPECT_COLOR,
};
use libvktypes::hw::{
    DeviceLimits, DeviceProperties, HWDevice, MemoryDescription, MemoryType, PhysicalDeviceMemoryProperties,
};
use libvktypes::layout::{single_subresource, Extent2D, Extent3D, Layout, LayoutElement, LayoutElementCfg, MemoryRequirements};
use libvktypes::memory::{
    allocation_failure, element_failure, AllocationObject, AllocationStep,
    is_compatible, mapped_len, memory_type_matches, needs_flush, select_memory, select_memory_with_property,
    subslice_bounds, uniform_usage_flags, AccessStep, BaseStorage, BufferView, Framebuffer, FramebufferCfg,
    FramebufferError, ImageError, ImageView, Memory, MemoryCfg, MemoryError, RefImageView, RefView, Region,
    StorageObject, StorageStep, UniformBuffer, DEVICE_MEMORY, HOST_COHERENT_MEMORY, HOST_MEMORY, STORAGE, UNIFORM,
};

fn hw() -> HWDevice {
    let memory = PhysicalDeviceMemoryProperties {
        memory_types: vec![
            MemoryType { property_flags: MEMORY_PROPERTY_DEVICE_LOCAL, heap_index: 0 },
            MemoryType { property_flags: MEMORY_PROPERTY_HOST_VISIBLE | MEMORY_PROPERTY_HOST_COHERENT, heap_index: 1 },
            MemoryType { property_flags: MEMORY_PROPERTY_HOST_VISIBLE, heap_index: 1 },
        ],
        memory_heaps: vec![1 << 30, 1 << 28],
    };
    let properties = DeviceProperties {
        api_version: 0,
        vendor_id: 0,
        device_id: 0,
        device_type: 2,
        limits: DeviceLimits {
            min_uniform_buffer_offset_alignment: 256,
            min_storage_buffer_offset_alignment: 64,
            non_coherent_atom_size: 64,
        },
    };
    HWDevice::new(9, properties, &[], &memory)
}

fn cfg(properties: u32, src: bool, dst: bool) -> MemoryCfg<'static> {
    MemoryCfg { size: 1024, properties, shared_access: false, transfer_src: src, transfer_dst: dst, queue_families: &[] }
}

fn memory_with_buffer_and_image() -> Memory {
    let elements = vec![
        LayoutElement::Buffer { vk_buffer: 21, offset: 0, allocated_size: 0, size: 100 },
        LayoutElement::Image {
            vk_image: 31,
            vk_image_view: 32,
            extent: Extent3D { width: 8, height: 8, depth: 1 },
            subresource: single_subresource(IMAGE_ASPECT_COLOR),
            format: 37,
            offset: 0,
            allocated_size: 0,
            is_swapchain_image: false,
        },
    ];
    let reqs = [
        MemoryRequirements { size: 128, alignment: 16, memory_type_bits: 0b111 },
        MemoryRequirements { size: 256, alignment: 256, memory_type_bits: 0b110 },
    ];
    let layout = Layout::new(elements, &reqs, 64);
    Memory::new(layout, Region::new(77, layout_alloc(&reqs), MEMORY_PROPERTY_HOST_VISIBLE))
}

fn layout_alloc(reqs: &[MemoryRequirements]) -> u64 {
    reqs.iter().map(|r| r.size + std::cmp::max(64, r.alignment)).sum()
}

#[test]
fn memory_type_filter() {
    let hw = hw();
    let m = &hw.memory()[1];
    assert!(memory_type_matches(m, 0b010, MEMORY_PROPERTY_HOST_VISIBLE));
    assert!(!memory_type_matches(m, 0b101, MEMORY_PROPERTY_HOST_VISIBLE));
    assert!(!memory_type_matches(m, 0b010, MEMORY_PROPERTY_DEVICE_LOCAL));
}

#[test]
fn selecting_memory_by_property() {
    let hw = hw();
    assert_eq!(select_memory_with_property(&hw, 0b111, HOST_MEMORY).map(|m| m.index()), Some(1));
    assert_eq!(select_memory_with_property(&hw, 0b100, HOST_MEMORY).map(|m| m.index()), Some(2));
    assert_eq!(select_memory_with_property(&hw, 0b111, DEVICE_MEMORY).map(|m| m.index()), Some(0));
    assert!(select_memory_with_property(&hw, 0b110, DEVICE_MEMORY).is_none());
    assert!(select_memory_with_property(&hw, 0b111, HOST_COHERENT_MEMORY).is_none());
}

#[test]
fn selecting_memory_by_filter() {
    let hw = hw();
    let filter = |m: &MemoryDescription, mask: u32| ((mask >> m.index()) & 1) == 1 && m.is_host_visible();
    assert_eq!(select_memory(&hw, 0b101, &filter).map(|m| m.index()), Some(2));
    assert!(select_memory(&hw, 0b001, &filter).is_none());
}

#[test]
fn flushing_needs() {
    assert!(needs_flush(MEMORY_PROPERTY_HOST_VISIBLE));
    assert!(!needs_flush(MEMORY_PROPERTY_HOST_VISIBLE | MEMORY_PROPERTY_HOST_COHERENT));
    assert!(!needs_flush(MEMORY_PROPERTY_DEVICE_LOCAL));
}

#[test]
fn mapped_ranges() {
    assert_eq!(mapped_len(100, 4), 25);
    assert_eq!(mapped_len(10, 4), 2);
    assert_eq!(subslice_bounds(256, 128, 4), (64, 96));
}

#[test]
fn memory_views() {
    let memory = memory_with_buffer_and_image();
    assert_eq!(memory.size(), 192 + 512);
    let buffer = RefView::new(&memory, 0);
    assert_eq!(buffer.offset(), 0);
    assert_eq!(buffer.size(), 100);
    assert_eq!(buffer.allocated_size(), 128);
    assert_eq!(buffer.buffer(), 21);
    let image = RefImageView::new(&memory, 1);
    assert_eq!(image.offset(), 256);
    assert_eq!(image.image(), 31);
    assert_eq!(image.image_view(), 32);
    assert_eq!(image.format(), 37);
    assert_eq!(image.aspect(), IMAGE_ASPECT_COLOR);
    assert_eq!(image.extent(), Extent3D { width: 8, height: 8, depth: 1 });
    assert!(memory.region().needs_flush());
    assert_eq!(memory.region().memory(), 77);
}

#[test]
fn region_without_memory() {
    let region = Region::empty(4096);
    assert!(region.is_empty());
    assert_eq!(region.size(), 4096);
    assert!(!Region::new(5, 10, 0).is_empty());
}

#[test]
fn region_steps() {
    let hw = hw();
    assert_eq!(Region::allocation_steps(&hw.memory()[2]),
        vec![StorageStep::DeviceMemory, StorageStep::MapMemory, StorageStep::Flush]);
    assert_eq!(Region::allocation_steps(&hw.memory()[1]), vec![StorageStep::DeviceMemory]);
    assert_eq!(Region::allocation_failure(StorageStep::MapMemory), (MemoryError::MapAccess, true));
    assert_eq!(Region::allocation_failure(StorageStep::DeviceMemory), (MemoryError::DeviceMemory, false));
    let coherent = Region::new(1, 10, MEMORY_PROPERTY_HOST_VISIBLE | MEMORY_PROPERTY_HOST_COHERENT);
    assert_eq!(coherent.access_steps(), vec![AccessStep::MapMemory, AccessStep::Unmap]);
}

#[test]
fn uniform_usage() {
    assert_eq!(uniform_usage_flags(&cfg(0, false, false)), BUFFER_USAGE_UNIFORM_BUFFER);
    assert_eq!(uniform_usage_flags(&cfg(0, true, false)), BUFFER_USAGE_UNIFORM_BUFFER | BUFFER_USAGE_TRANSFER_SRC);
    assert_eq!(uniform_usage_flags(&cfg(0, true, true)), UNIFORM);
    assert_eq!(UNIFORM, 0x13);
    assert_eq!(STORAGE, 0x23);
    assert_eq!(uniform_usage_flags(&cfg(0, false, true)), BUFFER_USAGE_UNIFORM_BUFFER | BUFFER_USAGE_TRANSFER_DST);
}

#[test]
fn buffer_compatibility() {
    let hw = hw();
    let c = cfg(MEMORY_PROPERTY_HOST_VISIBLE, false, false);
    assert!(is_compatible(0b110, &hw.memory()[1], &c));
    assert!(!is_compatible(0b100, &hw.memory()[1], &c));
    assert!(!is_compatible(0b111, &hw.memory()[0], &c));
}

#[test]
fn storage_creation_steps() {
    assert_eq!(BaseStorage::steps(MEMORY_PROPERTY_HOST_VISIBLE),
        vec![StorageStep::Buffer, StorageStep::DeviceMemory, StorageStep::MapMemory, StorageStep::Flush, StorageStep::Bind]);
    assert_eq!(BaseStorage::steps(MEMORY_PROPERTY_DEVICE_LOCAL),
        vec![StorageStep::Buffer, StorageStep::DeviceMemory, StorageStep::Bind]);
    assert_eq!(BaseStorage::failure(StorageStep::Buffer), (MemoryError::Buffer, vec![]));
    assert_eq!(BaseStorage::failure(StorageStep::DeviceMemory), (MemoryError::DeviceMemory, vec![StorageObject::Buffer]));
    assert_eq!(BaseStorage::failure(StorageStep::Flush),
        (MemoryError::Flush, vec![StorageObject::DeviceMemory, StorageObject::Buffer]));
    assert_eq!(BaseStorage::failure(StorageStep::MapMemory).0, MemoryError::MapAccess);
    assert_eq!(BaseStorage::failure(StorageStep::Bind), (MemoryError::Bind, vec![]));
    let hw = hw();
    let reqs = MemoryRequirements { size: 2048, alignment: 256, memory_type_bits: 0b10 };
    assert_eq!(BaseStorage::allocation(&reqs, &hw.memory()[1]), (2048, 1));
    assert_eq!(BaseStorage::access_error(AccessStep::Invalidate), MemoryError::Flush);
    assert_eq!(BaseStorage::access_error(AccessStep::MapMemory), MemoryError::MapAccess);
}

#[test]
fn uniform_buffer() {
    let c = MemoryCfg { size: 512, ..cfg(MEMORY_PROPERTY_HOST_VISIBLE, false, false) };
    let ubo = UniformBuffer::allocate(&c, Ok((3, 4))).expect("created");
    assert_eq!(ubo.size(), 512);
    assert_eq!(ubo.storage().needs_sync(), true);
    assert_eq!(ubo.buffer(), 4);
    assert_eq!(ubo.storage().device_memory(), 3);
    assert_eq!(ubo.resource_type(), DESCRIPTOR_TYPE_UNIFORM_BUFFER);
    assert_eq!(ubo.count(), 1);
    assert_eq!(ubo.layout(SHADER_STAGE_FRAGMENT), (DESCRIPTOR_TYPE_UNIFORM_BUFFER, SHADER_STAGE_FRAGMENT, 1));
    assert_eq!(ubo.write(), vec![AccessStep::MapMemory, AccessStep::Flush, AccessStep::Unmap]);
    assert_eq!(ubo.read(), vec![AccessStep::Invalidate, AccessStep::MapMemory, AccessStep::Unmap]);
    assert_eq!(UniformBuffer::allocate(&c, Err(MemoryError::Bind)).err(), Some(MemoryError::Bind));

    let coherent = UniformBuffer::from_storage(BaseStorage::new(3, 4, 512, HOST_COHERENT_MEMORY));
    assert_eq!(coherent.write(), vec![AccessStep::MapMemory, AccessStep::Unmap]);
    assert_eq!(coherent.read(), vec![AccessStep::MapMemory, AccessStep::Unmap]);
}

#[test]
fn uniform_buffer_memory() {
    let hw = hw();
    let c = cfg(MEMORY_PROPERTY_HOST_VISIBLE, false, false);
    let found = UniformBuffer::find_memory(&hw, |_m: &MemoryDescription| true, 0b111, &c);
    assert_eq!(found.map(|m| m.index()), Some(1));
    let found = UniformBuffer::find_memory(&hw, |m: &MemoryDescription| !m.is_host_coherent(), 0b111, &c);
    assert_eq!(found.map(|m| m.index()), Some(2));
    assert!(UniformBuffer::find_memory(&hw, |_m: &MemoryDescription| true, 0b001, &c).is_none());
    let all = UniformBuffer::filter_memory(&hw, |_m: &MemoryDescription| true, 0b111, &c);
    assert_eq!(all.iter().map(|m| m.index()).collect::<Vec<_>>(), vec![1, 2]);
}

#[test]
fn framebuffer_attachments() {
    let memory = memory_with_buffer_and_image();
    let views = [RefImageView::new(&memory, 1), RefImageView::new(&memory, 1)];
    let fb_cfg = FramebufferCfg { images: &views, extent: Extent2D { width: 640, height: 480 }, render_pass: 8 };
    let info = Framebuffer::create_info(&fb_cfg);
    assert_eq!(info.attachments, vec![32, 32]);
    assert_eq!((info.width, info.height, info.layers, info.render_pass), (640, 480, 1, 8));
    let fb = Framebuffer::new(55, fb_cfg.extent);
    assert_eq!(fb.framebuffer(), 55);
    assert_eq!(fb.extent(), Extent2D { width: 640, height: 480 });
}

#[test]
fn memory_error_messages() {
    assert_eq!(MemoryError::NoSuitableMemory.message(), "Failed to find suitable memory");
    assert_eq!(MemoryError::Framebuffer.message(), "Failed to create framebuffer (vkCreateFramebuffer call failed)");
    assert_eq!(ImageError::Creating.message(), "Failed to create image (vkCreateImage call failed)");
    assert_eq!(ImageError::Bind.message(), "Failed to bind image memory");
    assert_eq!(FramebufferError::Framebuffer.message(), "vkCreateFramebuffer call failed");
}

#[test]
fn memory_records_image_view() {
    let layout = Layout::preallocated(41, 42, 44, Extent2D { width: 2, height: 2 },
        MemoryRequirements { size: 16, alignment: 16, memory_type_bits: 1 });
    let mut memory = Memory::new(layout, Region::empty(16));
    memory.set_image_view(0, 99);
    assert_eq!(memory.layout().image_view(0), 99);
    assert_eq!(memory.layout().image(0), 41);
    assert_eq!(memory.layout().alloc_size, 16);
    assert_eq!(memory.size(), 16);
}

#[test]
fn uniform_search_gives_first_of_filter() {
    let hw = hw();
    let c = cfg(MEMORY_PROPERTY_HOST_VISIBLE, true, false);
    let f = |m: &MemoryDescription| m.index() != 1;
    let found = UniformBuffer::find_memory(&hw, f, 0b111, &c).map(|m| m.index());
    let all = UniformBuffer::filter_memory(&hw, f, 0b111, &c);
    assert_eq!(found, all.first().map(|m| m.index()));
    assert_eq!(found, Some(2));
    let none = UniformBuffer::find_memory(&hw, f, 0b001, &c);
    assert!(none.is_none());
    assert!(UniformBuffer::filter_memory(&hw, f, 0b001, &c).is_empty());
}

#[test]
fn failed_element_creation_destroys_the_earlier_elements() {
    let buffer = LayoutElementCfg::Buffer { size: 8, usage: 0, queue_families: &[], simultaneous_access: false, count: 1 };
    let image = LayoutElementCfg::Image {
        queue_families: &[],
        simultaneous_access: false,
        format: 37,
        extent: Extent3D { width: 1, height: 1, depth: 1 },
        usage: 0,
        layout: 0,
        aspect: IMAGE_ASPECT_COLOR,
        tiling: 0,
        count: 1,
    };
    let (e, t) = element_failure(&buffer, 3);
    assert_eq!(e, MemoryError::Buffer);
    assert_eq!(t, vec![AllocationObject::Element(2), AllocationObject::Element(1), AllocationObject::Element(0)]);
    let (e, t) = element_failure(&image, 0);
    assert_eq!(e, MemoryError::Image);
    assert!(t.is_empty());
}

#[test]
fn failed_allocation_teardown() {
    let memory = memory_with_buffer_and_image();
    let layout = memory.layout();
    let (e, t) = allocation_failure(AllocationStep::MemoryType, layout);
    assert_eq!(e, MemoryError::NoSuitableMemory);
    assert_eq!(t, vec![AllocationObject::Element(1), AllocationObject::Element(0)]);
    let (e, _) = allocation_failure(AllocationStep::DeviceMemory(MemoryError::Flush), layout);
    assert_eq!(e, MemoryError::Flush);
    let (e, t) = allocation_failure(AllocationStep::Bind(1), layout);
    assert_eq!(e, MemoryError::ImageBind);
    assert_eq!(t, vec![AllocationObject::Element(1), AllocationObject::Element(0), AllocationObject::DeviceMemory]);
    let (e, _) = allocation_failure(AllocationStep::Bind(0), layout);
    assert_eq!(e, MemoryError::Bind);
}

#[test]
fn failed_view_destroys_earlier_views() {
    let image = |h: u64| LayoutElement::Image {
        vk_image: h,
        vk_image_view: h + 1,
        extent: Extent3D { width: 1, height: 1, depth: 1 },
        subresource: single_subresource(IMAGE_ASPECT_COLOR),
        format: 37,
        offset: 0,
        allocated_size: 0,
        is_swapchain_image: false,
    };
    let elements = vec![image(10), LayoutElement::Buffer { vk_buffer: 20, offset: 0, allocated_size: 0, size: 4 }, image(30)];
    let reqs = [
        MemoryRequirements { size: 16, alignment: 16, memory_type_bits: 1 },
        MemoryRequirements { size: 4, alignment: 4, memory_type_bits: 1 },
        MemoryRequirements { size: 16, alignment: 16, memory_type_bits: 1 },
    ];
    let layout = Layout::new(elements, &reqs, 16);
    let (e, t) = allocation_failure(AllocationStep::View(2), &layout);
    assert_eq!(e, MemoryError::ImageView);
    assert_eq!(t, vec![
        AllocationObject::View(0),
        AllocationObject::Element(2),
        AllocationObject::Element(1),
        AllocationObject::Element(0),
        AllocationObject::DeviceMemory,
    ]);
}
