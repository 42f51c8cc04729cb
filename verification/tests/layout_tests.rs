use libvktypes::layout::{
    calculate_subregions, element_order, unplaced_elements, single_subresource, sharing_mode, Extent2D, Extent3D, Layout, LayoutElement,
    LayoutElementCfg, MemoryRequirements, BindCommand,
};
use libvktypes::offset::{full_size, padding_bytes};
use libvktypes::flags::{IMAGE_ASPECT_COLOR, NULL_HANDLE};

fn req(size: u64, alignment: u64, bits: u32) -> MemoryRequirements {
    MemoryRequirements { size, alignment, memory_type_bits: bits }
}

#[test]
fn padding_to_next_multiple() {
    assert_eq!(padding_bytes(10, 8), 6);
    assert_eq!(padding_bytes(16, 8), 0);
    assert_eq!(padding_bytes(0, 64), 0);
    assert_eq!(padding_bytes(1, 64), 63);
}

#[test]
fn full_size_rounds_up() {
    assert_eq!(full_size(10, 8), 16);
    assert_eq!(full_size(16, 8), 16);
    assert_eq!(full_size(0, 256), 0);
    assert_eq!(full_size(257, 256), 512);
}

#[test]
fn full_size_is_idempotent() {
    for size in [0u64, 1, 7, 8, 9, 100, 255, 256, 1000] {
        for alignment in [1u64, 2, 8, 64, 256] {
            let once = full_size(size, alignment);
            assert_eq!(full_size(once, alignment), once);
            assert!(once >= size);
            assert_eq!(once % alignment, 0);
            assert!(once - size < alignment);
        }
    }
}

#[test]
fn subregions_are_aligned_and_disjoint() {
    let reqs = [req(100, 16, 0b111), req(10, 4, 0b110), req(300, 256, 0b011)];
    let info = calculate_subregions(64, &reqs);
    assert_eq!(info.subregions.len(), 3);
    assert_eq!(info.subregions[0].offset, 0);
    assert_eq!(info.subregions[1].offset, 128);
    assert_eq!(info.subregions[2].offset, 256);
    for (i, r) in info.subregions.iter().enumerate() {
        assert_eq!(r.allocated_size, reqs[i].size);
        let alignment = std::cmp::max(64, reqs[i].alignment);
        assert_eq!(r.offset % alignment, 0);
    }
    for i in 0..3 {
        for j in (i + 1)..3 {
            assert!(info.subregions[i].offset + info.subregions[i].allocated_size <= info.subregions[j].offset);
        }
    }
    assert_eq!(info.memory_bits, 0b010);
    assert_eq!(info.total_size, (100 + 64) + (10 + 64) + (300 + 256));
}

#[test]
fn subregions_of_nothing() {
    let info = calculate_subregions(64, &[]);
    assert!(info.subregions.is_empty());
    assert_eq!(info.total_size, 0);
    assert_eq!(info.memory_bits, 0xffff_ffff);
}

#[test]
fn uniform_alignment_fits_in_total() {
    let reqs = [req(1, 64, 1), req(65, 32, 1), req(200, 64, 1)];
    let info = calculate_subregions(64, &reqs);
    let last = &info.subregions[2];
    assert!(last.offset + last.allocated_size <= info.total_size);
    assert!(info.total_size >= 1 + 65 + 200);
}

#[test]
fn layout_places_elements() {
    let elements = vec![
        LayoutElement::Buffer { vk_buffer: 11, offset: 0, allocated_size: 0, size: 100 },
        LayoutElement::Buffer { vk_buffer: 12, offset: 0, allocated_size: 0, size: 10 },
    ];
    let reqs = [req(128, 16, 0b11), req(16, 16, 0b10)];
    let layout = Layout::new(elements, &reqs, 64);
    assert_eq!(layout.offset(0), 0);
    assert_eq!(layout.offset(1), 128);
    assert_eq!(layout.size(0), 100);
    assert_eq!(layout.size(1), 10);
    assert_eq!(layout.allocated_size(0), 128);
    assert_eq!(layout.buffer(1), 12);
    assert_eq!(layout.requested_size, 110);
    assert_eq!(layout.memory_bits, 0b10);
    let binds = layout.bind_commands();
    assert_eq!(binds, vec![BindCommand::Buffer { buffer: 11, offset: 0 }, BindCommand::Buffer { buffer: 12, offset: 128 }]);
}

#[test]
fn element_config_makes_unplaced_elements() {
    let families = [0u32];
    let cfg = LayoutElementCfg::Image {
        queue_families: &families,
        simultaneous_access: false,
        format: 37,
        extent: Extent3D { width: 4, height: 4, depth: 1 },
        usage: 0x10,
        layout: 0,
        aspect: IMAGE_ASPECT_COLOR,
        tiling: 0,
        count: 2,
    };
    assert_eq!(cfg.count(), 2);
    match cfg.element(99) {
        LayoutElement::Image { vk_image, vk_image_view, offset, subresource, is_swapchain_image, .. } => {
            assert_eq!(vk_image, 99);
            assert_eq!(vk_image_view, NULL_HANDLE);
            assert_eq!(offset, 0);
            assert_eq!(subresource, single_subresource(IMAGE_ASPECT_COLOR));
            assert!(!is_swapchain_image);
        }
        _ => panic!("expected an image"),
    }
}

#[test]
fn preallocated_swapchain_image() {
    let layout = Layout::preallocated(5, 6, 44, Extent2D { width: 800, height: 600 }, req(4096, 256, 0b1));
    assert!(layout.is_swapchain_image(0));
    assert_eq!(layout.extent(0), Extent3D { width: 800, height: 600, depth: 1 });
    assert_eq!(layout.allocated_size(0), 4096);
    assert_eq!(layout.image_view(0), 6);
    assert_eq!(layout.subresource_layer(0).layer_count, 1);
}

#[test]
fn sharing_modes() {
    assert_eq!(sharing_mode(true), ash::vk::SharingMode::CONCURRENT.as_raw());
    assert_eq!(sharing_mode(false), ash::vk::SharingMode::EXCLUSIVE.as_raw());
}

#[test]
fn try_new_gives_the_same_layout_as_new() {
    let make = || vec![
        LayoutElement::Buffer { vk_buffer: 11, offset: 0, allocated_size: 0, size: 100 },
        LayoutElement::Buffer { vk_buffer: 12, offset: 0, allocated_size: 0, size: 10 },
    ];
    let reqs = [req(128, 16, 0b11), req(16, 16, 0b10)];
    let checked = Layout::try_new(make(), &reqs, 64).expect("layout fits");
    let plain = Layout::new(make(), &reqs, 64);
    assert_eq!(checked.elements.len(), plain.elements.len());
    for i in 0..plain.elements.len() {
        assert_eq!(checked.offset(i), plain.offset(i));
        assert_eq!(checked.size(i), plain.size(i));
        assert_eq!(checked.allocated_size(i), plain.allocated_size(i));
        assert_eq!(checked.buffer(i), plain.buffer(i));
    }
    assert_eq!(checked.offset(1), 128);
    assert_eq!(checked.alloc_size, plain.alloc_size);
    assert_eq!(checked.requested_size, plain.requested_size);
    assert_eq!(checked.memory_bits, plain.memory_bits);
}

#[test]
fn try_new_refuses_zero_alignment() {
    let elements = vec![LayoutElement::Buffer { vk_buffer: 1, offset: 0, allocated_size: 0, size: 4 }];
    assert!(Layout::try_new(elements, &[req(4, 0, 1)], 0).is_none());
}

#[test]
fn try_new_refuses_mismatched_lengths() {
    let elements = vec![LayoutElement::Buffer { vk_buffer: 1, offset: 0, allocated_size: 0, size: 4 }];
    assert!(Layout::try_new(elements, &[], 16).is_none());
}

#[test]
fn try_new_refuses_overflowing_layout() {
    let elements = vec![
        LayoutElement::Buffer { vk_buffer: 1, offset: 0, allocated_size: 0, size: 4 },
        LayoutElement::Buffer { vk_buffer: 2, offset: 0, allocated_size: 0, size: 4 },
    ];
    let reqs = [req(u64::MAX - 8, 1, 1), req(u64::MAX - 8, 1, 1)];
    assert!(Layout::try_new(elements, &reqs, 1).is_none());
}

#[test]
fn try_new_of_nothing_is_empty() {
    let layout = Layout::try_new(Vec::new(), &[], 64).expect("empty layout fits");
    assert!(layout.elements.is_empty());
    assert_eq!(layout.alloc_size, 0);
    assert_eq!(layout.requested_size, 0);
}

#[test]
fn shrinking_alignments_fit_in_the_allocation() {
    let reqs = [req(100, 256, 1), req(10, 64, 1), req(3, 16, 1)];
    let info = calculate_subregions(16, &reqs);
    for (i, r) in reqs.iter().enumerate() {
        assert!(info.subregions[i].offset + r.size <= info.total_size);
    }
    assert_eq!(info.subregions[1].offset, 256);
    assert_eq!(info.subregions[2].offset, 320);
    assert_eq!(info.total_size, 100 + 256 + 10 + 64 + 3 + 16);
}

#[test]
fn growing_alignment_grows_the_allocation() {
    // An element whose alignment is larger than the one before it is padded at both ends;
    // the allocation then reaches to the padded end of the last element.
    let reqs = [req(1, 64, 1), req(1, 256, 1), req(1, 64, 1)];
    let info = calculate_subregions(64, &reqs);
    assert_eq!(info.subregions[0].offset, 0);
    assert_eq!(info.subregions[1].offset, 256);
    assert_eq!(info.subregions[2].offset, 512);
    assert_eq!(info.total_size, 576);
    assert!(info.subregions[2].offset + reqs[2].size <= info.total_size);
}

#[test]
fn every_region_lies_inside_the_allocation() {
    let reqs = [req(1, 1, 1), req(1, 4, 1), req(1, 1, 1), req(1, 8, 1), req(1, 1, 1)];
    let info = calculate_subregions(1, &reqs);
    assert_eq!(info.subregions[4].offset, 24);
    assert_eq!(info.total_size, 25);
    for (i, r) in reqs.iter().enumerate() {
        assert!(info.subregions[i].offset + r.size <= info.total_size);
    }
}

#[test]
fn configurations_expand_in_order() {
    let families = [0u32];
    let buffer = || LayoutElementCfg::Buffer { size: 64, usage: 0x10, queue_families: &families, simultaneous_access: false, count: 2 };
    let image = LayoutElementCfg::Image {
        queue_families: &families,
        simultaneous_access: false,
        format: 37,
        extent: Extent3D { width: 4, height: 4, depth: 1 },
        usage: 0x10,
        layout: 0,
        aspect: IMAGE_ASPECT_COLOR,
        tiling: 0,
        count: 1,
    };
    let none = LayoutElementCfg::Buffer { size: 8, usage: 0x10, queue_families: &families, simultaneous_access: false, count: 0 };
    let cfgs = [buffer(), none, image, buffer()];
    assert_eq!(element_order(&cfgs), vec![0, 0, 2, 3, 3]);
    let elements = unplaced_elements(&cfgs, &[1, 2, 3, 4, 5]);
    assert_eq!(elements.len(), 5);
    assert!(matches!(elements[1], LayoutElement::Buffer { vk_buffer: 2, size: 64, .. }));
    assert!(matches!(elements[2], LayoutElement::Image { vk_image: 3, format: 37, .. }));
    assert!(matches!(elements[4], LayoutElement::Buffer { vk_buffer: 5, .. }));
}

#[test]
fn split_counts_lay_out_like_one_count() {
    let make = |count: usize| LayoutElementCfg::Buffer { size: 10, usage: 0, queue_families: &[], simultaneous_access: false, count };
    let reqs = [req(16, 16, 1), req(16, 16, 1), req(16, 16, 1)];
    let split = Layout::new(unplaced_elements(&[make(1), make(2)], &[7, 8, 9]), &reqs, 16);
    let whole = Layout::new(unplaced_elements(&[make(3)], &[7, 8, 9]), &reqs, 16);
    for i in 0..3 {
        assert_eq!(split.offset(i), whole.offset(i));
        assert_eq!(split.buffer(i), whole.buffer(i));
        assert_eq!(split.size(i), whole.size(i));
    }
    assert_eq!(split.alloc_size, whole.alloc_size);
}
