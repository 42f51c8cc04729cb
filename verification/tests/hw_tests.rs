use libvktypes::flags::{
    MEMORY_PROPERTY_DEVICE_LOCAL, MEMORY_PROPERTY_HOST_COHERENT, MEMORY_PROPERTY_HOST_VISIBLE, QUEUE_COMPUTE,
    QUEUE_GRAPHICS, QUEUE_TRANSFER, HW_TYPE_DISCRETE_GPU, HW_TYPE_INTEGRATED_GPU,
};
use libvktypes::hw::{
    any, any_hw, any_memory, any_queue, is_compute_family, select_hw, MemoryDescription, Description, DeviceLimits, DeviceProperties, HWDevice, HWIndex,
    MemoryType, PhysicalDeviceMemoryProperties, QueueFamilyDescription,
};

fn memory_properties() -> PhysicalDeviceMemoryProperties {
    PhysicalDeviceMemoryProperties {
        memory_types: vec![
            MemoryType { property_flags: MEMORY_PROPERTY_DEVICE_LOCAL, heap_index: 0 },
            MemoryType { property_flags: MEMORY_PROPERTY_HOST_VISIBLE | MEMORY_PROPERTY_HOST_COHERENT, heap_index: 1 },
            MemoryType { property_flags: MEMORY_PROPERTY_HOST_VISIBLE, heap_index: 1 },
        ],
        memory_heaps: vec![1 << 30, 1 << 28],
    }
}

fn properties(device_type: i32, version: u32) -> DeviceProperties {
    DeviceProperties {
        api_version: version,
        vendor_id: 0x10de,
        device_id: 7,
        device_type,
        limits: DeviceLimits {
            min_uniform_buffer_offset_alignment: 256,
            min_storage_buffer_offset_alignment: 64,
            non_coherent_atom_size: 64,
        },
    }
}

fn device(handle: u64, device_type: i32) -> HWDevice {
    let families = [
        QueueFamilyDescription::new(0, 16, QUEUE_GRAPHICS | QUEUE_COMPUTE | QUEUE_TRANSFER, true),
        QueueFamilyDescription::new(1, 2, QUEUE_TRANSFER, false),
        QueueFamilyDescription::new(2, 1, 0, false),
    ];
    HWDevice::new(handle, properties(device_type, ash::vk::make_api_version(0, 1, 3, 250)), &families, &memory_properties())
}

#[test]
fn hw_device_keeps_usable_families() {
    let hw = device(1, HW_TYPE_DISCRETE_GPU);
    assert_eq!(hw.queues().len(), 2);
    assert_eq!(hw.queues()[0].index(), 0);
    assert_eq!(hw.queues()[1].index(), 1);
    assert!(hw.queues()[0].is_surface_supported());
    assert!(!hw.queues()[1].is_graphics());
}

#[test]
fn hw_device_describes_memory() {
    let hw = device(1, HW_TYPE_DISCRETE_GPU);
    assert_eq!(hw.memory().len(), 3);
    assert_eq!(hw.memory()[1].index(), 1);
    assert_eq!(hw.memory()[1].heap_size(), 1 << 28);
    assert!(hw.memory()[0].is_local());
    assert!(hw.memory()[1].is_host_coherent());
    assert!(!hw.memory()[2].is_host_coherent());
    assert!(hw.memory()[2].is_compatible(MEMORY_PROPERTY_HOST_VISIBLE));
    assert!(!hw.memory()[2].is_compatible(MEMORY_PROPERTY_HOST_VISIBLE | MEMORY_PROPERTY_HOST_COHERENT));
}

#[test]
fn hw_device_version_numbers() {
    let hw = device(1, HW_TYPE_DISCRETE_GPU);
    assert_eq!(hw.version_major(), 1);
    assert_eq!(hw.version_minor(), 3);
    assert_eq!(hw.version_patch(), 250);
    assert!(hw.is_discrete_gpu());
    assert!(!hw.is_integrated_gpu());
    assert!(hw.is_dedicated_gpu());
}

#[test]
fn hw_device_alignments() {
    let hw = device(1, HW_TYPE_INTEGRATED_GPU);
    assert_eq!(hw.ubo_offset(), 256);
    assert_eq!(hw.ubo_size(100), 256);
    assert_eq!(hw.ubo_size(256), 256);
    assert_eq!(hw.ubo_size(0), 0);
    assert_eq!(hw.ubo_size(257), 512);
    assert_eq!(hw.storage_offset(), 64);
    assert_eq!(hw.memory_alignment(), 64);
}

#[test]
fn hw_device_filters() {
    let hw = device(1, HW_TYPE_DISCRETE_GPU);
    let transfer = hw.filter_queue(|q: &QueueFamilyDescription| q.is_transfer());
    assert_eq!(transfer.len(), 2);
    let graphics = hw.find_first_queue(|q: &QueueFamilyDescription| q.is_graphics());
    assert_eq!(graphics.map(|q| q.index()), Some(0));
    let visible = hw.filter_memory(|m: &libvktypes::hw::MemoryDescription| m.is_host_visible());
    assert_eq!(visible.len(), 2);
    assert_eq!(hw.filter_memory(any).len(), 3);
    let first_visible = hw.find_first_memory(|m: &libvktypes::hw::MemoryDescription| m.is_host_visible());
    assert_eq!(first_visible.map(|m| m.index()), Some(1));
    assert!(hw.find_first_memory(|m: &libvktypes::hw::MemoryDescription| m.is_lazily_allocated()).is_none());
}

#[test]
fn selecting_hardware() {
    let devices = vec![device(1, HW_TYPE_INTEGRATED_GPU), device(2, HW_TYPE_DISCRETE_GPU)];
    let selected = select_hw(&devices, |h: &HWDevice| h.is_discrete_gpu(), is_compute_family, |m: &libvktypes::hw::MemoryDescription| m.is_host_coherent());
    let idx: HWIndex = selected.expect("a device is suitable");
    assert_eq!((idx.device, idx.queue, idx.memory), (1, 0, 1));
    assert!(select_hw(&devices, |_h: &HWDevice| false, any, any).is_none());

    let description = Description::new(devices);
    assert_eq!(description.filter_hw(|h: &HWDevice| h.is_discrete_gpu()), vec![1]);
    let found = description.find_first(any, is_compute_family, |m: &libvktypes::hw::MemoryDescription| m.is_local());
    let (h, q, m) = found.expect("found");
    assert_eq!(h.device(), 1);
    assert_eq!(q.index(), 0);
    assert_eq!(m.index(), 0);
}

#[test]
fn any_accepts_everything() {
    assert!(any(&3u32));
    assert!(any(&"x"));
}

#[test]
fn hw_index_holds_its_parts() {
    let idx = HWIndex::new(3, 2, 1);
    assert_eq!((idx.device, idx.queue, idx.memory), (3, 2, 1));
}

#[test]
fn accept_all_filters() {
    let props = PhysicalDeviceMemoryProperties {
        memory_types: vec![MemoryType { property_flags: 0, heap_index: 0 }],
        memory_heaps: vec![1024],
    };
    let mem = MemoryDescription::new(&props, 0);
    assert!(any_memory(&mem));
    let q = QueueFamilyDescription::new(0, 1, 0, false);
    assert!(any_queue(&q));
    let hw = device(3, HW_TYPE_INTEGRATED_GPU);
    assert!(any_hw(&hw));
    let picked = select_hw(&[hw], any_hw, any_queue, any_memory).expect("accepting filters pick the first device");
    assert_eq!((picked.device, picked.queue, picked.memory), (0, 0, 0));
}
