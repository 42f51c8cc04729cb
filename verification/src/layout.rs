//! Placement of buffers and images inside a single allocation.
//!
//! Every element is aligned on its own: at least to the memory mapping alignment of the
//! device and to the alignment that the driver reports for it. Elements are placed in the
//! order in which they were configured, none is rearranged.

use vstd::prelude::*;
use crate::offset::{padding_bytes, spec_padding_bytes, spec_full_size, lemma_padding_bytes};
use crate::flags::{bits_contain, Handle, ImageFormat, ImageAspect, ImageLayout, ImageUsageFlags, BufferUsageFlags, Tiling, NULL_HANDLE};

verus! {

/// Memory requirements that the driver reports for a buffer or an image
/// (`VkMemoryRequirements`).
#[derive(Debug, Clone, Copy)]
pub struct MemoryRequirements {
    /// Size in bytes
    pub size: u64,
    /// Required alignment of the offset in bytes
    pub alignment: u64,
    /// Bitmask of the memory types that can hold the element
    pub memory_type_bits: u32,
}

/// Placement of one element: where it starts and how many bytes it takes.
#[derive(Debug, Clone, Copy)]
pub struct LayoutSubregion {
    pub offset: u64,
    pub allocated_size: u64,
}

/// Placement of all elements with the size of the whole allocation.
#[derive(Debug)]
pub struct LayoutSizeInfo {
    pub subregions: Vec<LayoutSubregion>,
    pub total_size: u64,
    pub memory_bits: u32,
}

/// Alignment an element is placed with: the larger of the device's mapping alignment
/// and the element's own alignment.
pub open spec fn effective_alignment(r: MemoryRequirements, memory_alignment: u64) -> int {
    if memory_alignment >= r.alignment { memory_alignment as int } else { r.alignment as int }
}

/// Every element has a non-zero effective alignment.
pub open spec fn alignments_positive(reqs: Seq<MemoryRequirements>, memory_alignment: u64) -> bool {
    forall|i: int| 0 <= i < reqs.len() ==> effective_alignment(#[trigger] reqs[i], memory_alignment) > 0
}

/// First byte after the first `n` elements, each padded to its alignment at both ends.
pub open spec fn layout_end(reqs: Seq<MemoryRequirements>, memory_alignment: u64, n: nat) -> int
    decreases n,
{
    if n == 0 {
        0
    } else {
        let prev = layout_end(reqs, memory_alignment, (n - 1) as nat);
        let r = reqs[n - 1];
        let a = effective_alignment(r, memory_alignment);
        prev + spec_padding_bytes(prev, a) + spec_full_size(r.size as int, a)
    }
}

/// Offset of element `i`: the end of the elements before it, rounded up to its alignment.
pub open spec fn region_offset(reqs: Seq<MemoryRequirements>, memory_alignment: u64, i: nat) -> int {
    let prev = layout_end(reqs, memory_alignment, i);
    prev + spec_padding_bytes(prev, effective_alignment(reqs[i as int], memory_alignment))
}

/// Size reserved for the first `n` elements: each element's size plus its alignment.
pub open spec fn layout_total(reqs: Seq<MemoryRequirements>, memory_alignment: u64, n: nat) -> int
    decreases n,
{
    if n == 0 {
        0
    } else {
        let r = reqs[n - 1];
        layout_total(reqs, memory_alignment, (n - 1) as nat) + r.size + effective_alignment(r, memory_alignment)
    }
}

/// Size of the allocation for the first `n` elements: the reserve of each element's size
/// plus its alignment, or the padded end of the last element where that lies further.
pub open spec fn layout_size(reqs: Seq<MemoryRequirements>, memory_alignment: u64, n: nat) -> int {
    let end = layout_end(reqs, memory_alignment, n);
    let total = layout_total(reqs, memory_alignment, n);
    if end >= total { end } else { total }
}

/// Sum of the sizes of the first `n` elements.
pub open spec fn requested_sum(reqs: Seq<MemoryRequirements>, n: nat) -> int
    decreases n,
{
    if n == 0 { 0 } else { requested_sum(reqs, (n - 1) as nat) + reqs[n - 1].size }
}

/// Memory types that suit all of the first `n` elements: the bitwise and of their masks.
pub open spec fn layout_memory_bits(reqs: Seq<MemoryRequirements>, n: nat) -> u32
    decreases n,
{
    if n == 0 { 0xffff_ffffu32 } else { layout_memory_bits(reqs, (n - 1) as nat) & reqs[n - 1].memory_type_bits }
}

/// Facts about one placement step: the padded offset and the padded size stay below the
/// new end.
pub proof fn lemma_layout_step(reqs: Seq<MemoryRequirements>, memory_alignment: u64, i: nat)
    requires
        i < reqs.len(),
        alignments_positive(reqs, memory_alignment),
    ensures
        layout_end(reqs, memory_alignment, i) >= 0,
        region_offset(reqs, memory_alignment, i) >= layout_end(reqs, memory_alignment, i),
        region_offset(reqs, memory_alignment, i) % effective_alignment(reqs[i as int], memory_alignment) == 0,
        region_offset(reqs, memory_alignment, i) + spec_full_size(reqs[i as int].size as int, effective_alignment(reqs[i as int], memory_alignment))
            == layout_end(reqs, memory_alignment, i + 1),
        reqs[i as int].size <= spec_full_size(reqs[i as int].size as int, effective_alignment(reqs[i as int], memory_alignment)),
        spec_full_size(reqs[i as int].size as int, effective_alignment(reqs[i as int], memory_alignment))
            <= layout_end(reqs, memory_alignment, i + 1),
    decreases i,
{
    let a = effective_alignment(reqs[i as int], memory_alignment);
    assert(a > 0);
    if i > 0 {
        lemma_layout_step(reqs, memory_alignment, (i - 1) as nat);
    }
    let prev = layout_end(reqs, memory_alignment, i);
    lemma_padding_bytes(prev, a);
    lemma_padding_bytes(reqs[i as int].size as int, a);
}

/// The end of the layout never moves back when elements are added.
pub proof fn lemma_layout_end_monotonic(reqs: Seq<MemoryRequirements>, memory_alignment: u64, i: nat, j: nat)
    requires
        i <= j <= reqs.len(),
        alignments_positive(reqs, memory_alignment),
    ensures
        layout_end(reqs, memory_alignment, i) <= layout_end(reqs, memory_alignment, j),
    decreases j - i,
{
    if i < j {
        lemma_layout_step(reqs, memory_alignment, (j - 1) as nat);
        lemma_layout_end_monotonic(reqs, memory_alignment, i, (j - 1) as nat);
    }
}

/// The reserved total never moves back when elements are added.
pub proof fn lemma_layout_total_monotonic(reqs: Seq<MemoryRequirements>, memory_alignment: u64, i: nat, j: nat)
    requires
        i <= j <= reqs.len(),
    ensures
        layout_total(reqs, memory_alignment, i) <= layout_total(reqs, memory_alignment, j),
    decreases j - i,
{
    if i < j {
        lemma_layout_total_monotonic(reqs, memory_alignment, i, (j - 1) as nat);
    }
}

/// Calculate where each element is placed in one allocation, the size of that allocation
/// and the memory types that suit every element.
pub fn calculate_subregions(memory_alignment: u64, requirements: &[MemoryRequirements]) -> (info: LayoutSizeInfo)
    requires
        alignments_positive(requirements@, memory_alignment),
        layout_end(requirements@, memory_alignment, requirements@.len()) <= u64::MAX,
        layout_total(requirements@, memory_alignment, requirements@.len()) <= u64::MAX,
    ensures
        info.subregions@.len() == requirements@.len(),
        forall|i: int| 0 <= i < requirements@.len() ==> {
            &&& (#[trigger] info.subregions@[i]).offset == region_offset(requirements@, memory_alignment, i as nat)
            &&& info.subregions@[i].allocated_size == requirements@[i].size
        },
        info.total_size == layout_size(requirements@, memory_alignment, requirements@.len()),
        info.memory_bits == layout_memory_bits(requirements@, requirements@.len()),
{
    let mut memory_type_bits: u32 = 0xffff_ffffu32;
    let mut last: u64 = 0;
    let mut total_size: u64 = 0;
    let mut subregions: Vec<LayoutSubregion> = Vec::new();
    let n = requirements.len();
    let mut i: usize = 0;

    while i < n
        invariant
            n == requirements@.len(),
            0 <= i <= n,
            alignments_positive(requirements@, memory_alignment),
            layout_end(requirements@, memory_alignment, n as nat) <= u64::MAX,
            layout_total(requirements@, memory_alignment, n as nat) <= u64::MAX,
            last == layout_end(requirements@, memory_alignment, i as nat),
            total_size == layout_total(requirements@, memory_alignment, i as nat),
            memory_type_bits == layout_memory_bits(requirements@, i as nat),
            subregions@.len() == i,
            forall|j: int| 0 <= j < i ==> {
                &&& (#[trigger] subregions@[j]).offset == region_offset(requirements@, memory_alignment, j as nat)
                &&& subregions@[j].allocated_size == requirements@[j].size
            },
        decreases n - i,
    {
        let requirement = requirements[i];
        let alignment = if memory_alignment >= requirement.alignment {
            memory_alignment
        } else {
            requirement.alignment
        };

        proof {
            assert(alignment as int == effective_alignment(requirements@[i as int], memory_alignment));
            lemma_layout_step(requirements@, memory_alignment, i as nat);
            lemma_layout_end_monotonic(requirements@, memory_alignment, (i + 1) as nat, n as nat);
            lemma_layout_total_monotonic(requirements@, memory_alignment, (i + 1) as nat, n as nat);
        }

        // How many bytes are needed after the previous element
        let begin_offset = padding_bytes(last, alignment);

        // How many bytes are needed after the current element
        let end_offset = padding_bytes(requirement.size, alignment);

        let aligned_size = requirement.size + end_offset;

        last = last + begin_offset;
        subregions.push(LayoutSubregion { offset: last, allocated_size: requirement.size });

        memory_type_bits = memory_type_bits & requirement.memory_type_bits;

        last = last + aligned_size;

        total_size = total_size + (requirement.size + alignment);

        i = i + 1;
    }

    // The allocation covers the padded end of the last element as well as the reserve
    let size = if last >= total_size { last } else { total_size };

    LayoutSizeInfo { subregions, total_size: size, memory_bits: memory_type_bits }
}

/// Each element starts at a multiple of its effective alignment, which is at least the
/// memory mapping alignment of the device and the element's own alignment.
pub proof fn lemma_regions_aligned(reqs: Seq<MemoryRequirements>, memory_alignment: u64, i: nat)
    requires
        i < reqs.len(),
        alignments_positive(reqs, memory_alignment),
    ensures
        region_offset(reqs, memory_alignment, i) % effective_alignment(reqs[i as int], memory_alignment) == 0,
        effective_alignment(reqs[i as int], memory_alignment) >= memory_alignment,
        effective_alignment(reqs[i as int], memory_alignment) >= reqs[i as int].alignment,
{
    lemma_layout_step(reqs, memory_alignment, i);
}

/// Elements are placed in the order in which they were configured and never overlap:
/// an element ends before any later one starts.
pub proof fn lemma_regions_disjoint(reqs: Seq<MemoryRequirements>, memory_alignment: u64, i: nat, j: nat)
    requires
        i < j < reqs.len(),
        alignments_positive(reqs, memory_alignment),
    ensures
        region_offset(reqs, memory_alignment, i) + reqs[i as int].size <= region_offset(reqs, memory_alignment, j),
{
    lemma_layout_step(reqs, memory_alignment, i);
    lemma_layout_step(reqs, memory_alignment, j);
    lemma_layout_end_monotonic(reqs, memory_alignment, i + 1, j);
}

/// The allocation is at least as large as the sum of all requested sizes.
pub proof fn lemma_total_covers_requests(reqs: Seq<MemoryRequirements>, memory_alignment: u64, n: nat)
    requires
        n <= reqs.len(),
    ensures
        layout_total(reqs, memory_alignment, n) >= requested_sum(reqs, n),
    decreases n,
{
    if n > 0 {
        lemma_total_covers_requests(reqs, memory_alignment, (n - 1) as nat);
    }
}

/// The memory type mask is the intersection of the elements' masks: every memory type it
/// allows suits every element, and every type that suits all elements stays allowed.
pub proof fn lemma_memory_bits_intersection(reqs: Seq<MemoryRequirements>, n: nat, mask: u32)
    requires
        n <= reqs.len(),
    ensures
        forall|i: int| 0 <= i < n ==> bits_contain(#[trigger] reqs[i].memory_type_bits, layout_memory_bits(reqs, n)),
        (forall|i: int| 0 <= i < n ==> bits_contain(#[trigger] reqs[i].memory_type_bits, mask))
            ==> bits_contain(layout_memory_bits(reqs, n), mask),
    decreases n,
{
    if n == 0 {
        assert(0xffff_ffffu32 & mask == mask) by (bit_vector);
    } else {
        lemma_memory_bits_intersection(reqs, (n - 1) as nat, mask);
        let prev = layout_memory_bits(reqs, (n - 1) as nat);
        let last = reqs[n - 1].memory_type_bits;
        assert((last & (prev & last)) == (prev & last)) by (bit_vector);
        assert forall|i: int| 0 <= i < n - 1 implies bits_contain(#[trigger] reqs[i].memory_type_bits, prev & last) by {
            let b = reqs[i].memory_type_bits;
            assert(b & prev == prev ==> b & (prev & last) == (prev & last)) by (bit_vector);
        }
        assert(prev & mask == mask && last & mask == mask ==> (prev & last) & mask == mask) by (bit_vector);
    }
}

/// The effective alignment of element `k` divides that of the element before it.
pub open spec fn alignment_divides_previous(reqs: Seq<MemoryRequirements>, memory_alignment: u64, k: int) -> bool {
    effective_alignment(reqs[k - 1], memory_alignment) % effective_alignment(reqs[k], memory_alignment) == 0
}

/// Each element's effective alignment divides the one of the element before it. With
/// alignments that are powers of two, as the driver reports them, this means that the
/// alignments never grow from one element to the next.
pub open spec fn alignments_nested(reqs: Seq<MemoryRequirements>, memory_alignment: u64) -> bool {
    forall|k: int| 0 < k < reqs.len() ==> #[trigger] alignment_divides_previous(reqs, memory_alignment, k)
}

/// A multiple of `a` is a multiple of every divisor `b` of `a`.
proof fn lemma_mod_divisor(x: int, a: int, b: int)
    requires
        0 < b,
        0 < a,
        x % a == 0,
        a % b == 0,
    ensures
        x % b == 0,
{
    vstd::arithmetic::div_mod::lemma_fundamental_div_mod(x, a);
    vstd::arithmetic::div_mod::lemma_fundamental_div_mod(a, b);
    let q = x / a;
    let p = a / b;
    assert(x == (p * q) * b) by (nonlinear_arith)
        requires x == a * q, a == b * p;
    vstd::arithmetic::div_mod::lemma_mod_multiples_basic(p * q, b);
}

/// Where alignments are nested, each prefix of the layout ends aligned to its last
/// element and within the size reserved for it.
proof fn lemma_nested_prefix(reqs: Seq<MemoryRequirements>, memory_alignment: u64, n: nat)
    requires
        n <= reqs.len(),
        alignments_positive(reqs, memory_alignment),
        alignments_nested(reqs, memory_alignment),
    ensures
        layout_end(reqs, memory_alignment, n) <= layout_total(reqs, memory_alignment, n),
        n > 0 ==> layout_end(reqs, memory_alignment, n) % effective_alignment(reqs[n - 1], memory_alignment) == 0,
    decreases n,
{
    if n > 0 {
        let k = (n - 1) as nat;
        lemma_nested_prefix(reqs, memory_alignment, k);
        lemma_layout_step(reqs, memory_alignment, k);
        let a = effective_alignment(reqs[k as int], memory_alignment);
        let prev = layout_end(reqs, memory_alignment, k);
        if k > 0 {
            assert(alignment_divides_previous(reqs, memory_alignment, k as int));
            lemma_mod_divisor(prev, effective_alignment(reqs[k - 1], memory_alignment), a);
        } else {
            assert(prev == 0);
            assert(0int % a == 0);
        }
        lemma_padding_bytes(prev, a);
        lemma_padding_bytes(reqs[k as int].size as int, a);
        let f = spec_full_size(reqs[k as int].size as int, a);
        vstd::arithmetic::div_mod::lemma_mod_adds(prev, f, a);
    }
}

/// Every element lies inside the allocation.
pub proof fn lemma_regions_fit(reqs: Seq<MemoryRequirements>, memory_alignment: u64, i: nat)
    requires
        i < reqs.len(),
        alignments_positive(reqs, memory_alignment),
    ensures
        region_offset(reqs, memory_alignment, i) + reqs[i as int].size <= layout_size(reqs, memory_alignment, reqs.len()),
{
    lemma_layout_step(reqs, memory_alignment, i);
    lemma_layout_end_monotonic(reqs, memory_alignment, i + 1, reqs.len());
}

/// Where each element's alignment divides the one of the element before it (powers of two
/// that never grow), the allocation is exactly the reserve: each element's size plus its
/// alignment.
pub proof fn lemma_nested_size_is_reserve(reqs: Seq<MemoryRequirements>, memory_alignment: u64)
    requires
        alignments_positive(reqs, memory_alignment),
        alignments_nested(reqs, memory_alignment),
    ensures
        layout_size(reqs, memory_alignment, reqs.len()) == layout_total(reqs, memory_alignment, reqs.len()),
{
    lemma_nested_prefix(reqs, memory_alignment, reqs.len());
}

/// Two-dimensional extent (`VkExtent2D`).
#[derive(Debug, Clone, Copy, PartialEq, Eq, Structural, Default)]
pub struct Extent2D {
    pub width: u32,
    pub height: u32,
}

/// Three-dimensional extent (`VkExtent3D`).
#[derive(Debug, Clone, Copy, PartialEq, Eq, Structural, Default)]
pub struct Extent3D {
    pub width: u32,
    pub height: u32,
    pub depth: u32,
}

/// Range of mip levels and array layers of an image (`VkImageSubresourceRange`).
#[derive(Debug, Clone, Copy, PartialEq, Eq, Structural)]
pub struct ImageSubresourceRange {
    pub aspect_mask: ImageAspect,
    pub base_mip_level: u32,
    pub level_count: u32,
    pub base_array_layer: u32,
    pub layer_count: u32,
}

/// Mip level and array layers of an image used in a copy (`VkImageSubresourceLayers`).
#[derive(Debug, Clone, Copy, PartialEq, Eq, Structural)]
pub struct ImageSubresourceLayers {
    pub aspect_mask: ImageAspect,
    pub mip_level: u32,
    pub base_array_layer: u32,
    pub layer_count: u32,
}

/// Subresource of a single mip level and a single layer with the given aspect.
pub open spec fn spec_single_subresource(aspect: ImageAspect) -> ImageSubresourceRange {
    ImageSubresourceRange { aspect_mask: aspect, base_mip_level: 0, level_count: 1, base_array_layer: 0, layer_count: 1 }
}

/// The single subresource of an aspect covers the first mip level and the first layer
/// only, of that aspect.
pub proof fn lemma_single_subresource(aspect: ImageAspect)
    ensures
        spec_single_subresource(aspect).aspect_mask == aspect,
        spec_single_subresource(aspect).base_mip_level == 0,
        spec_single_subresource(aspect).level_count == 1,
        spec_single_subresource(aspect).base_array_layer == 0,
        spec_single_subresource(aspect).layer_count == 1,
{
}

/// Subresource of a single mip level and a single layer with the given aspect.
pub fn single_subresource(aspect: ImageAspect) -> (r: ImageSubresourceRange)
    ensures
        r == spec_single_subresource(aspect),
        r.aspect_mask == aspect,
        r.base_mip_level == 0 && r.level_count == 1,
        r.base_array_layer == 0 && r.layer_count == 1,
{
    ImageSubresourceRange { aspect_mask: aspect, base_mip_level: 0, level_count: 1, base_array_layer: 0, layer_count: 1 }
}

/// Sharing mode value (`VkSharingMode`): concurrent access by several queue families or
/// exclusive access by one.
pub fn sharing_mode(simultaneous_access: bool) -> (r: i32)
    ensures
        r == (if simultaneous_access { 1i32 } else { 0i32 }),
        simultaneous_access <==> r == 1,
        !simultaneous_access <==> r == 0,
{
    if simultaneous_access { 1 } else { 0 }
}

/// Configuration of one kind of element in a memory layout.
///
/// A buffer holds generic data; an image holds up to three-dimensional arrays of data.
/// `count` asks for that many elements of the same configuration, one after another,
/// each aligned on its own: `[<cfg, count == 1>, <cfg, count == 1>]` is the same as
/// `[<cfg, count == 2>]`.
///
/// For an image the requested size is not known in advance: the size that the driver
/// reports for it is used as requested size.
#[derive(Debug)]
#[allow(inconsistent_fields)]
pub enum LayoutElementCfg<'a> {
    Buffer {
        /// Size in bytes
        size: u64,
        usage: BufferUsageFlags,
        queue_families: &'a [u32],
        /// Will two or more queues have access to the buffer at the same time
        simultaneous_access: bool,
        /// How many of this buffer to allocate one by one
        count: usize,
    },
    Image {
        /// What queue families will have access to the image
        queue_families: &'a [u32],
        /// Will two or more queues have access to the image at the same time
        simultaneous_access: bool,
        format: ImageFormat,
        extent: Extent3D,
        usage: ImageUsageFlags,
        layout: ImageLayout,
        aspect: ImageAspect,
        tiling: Tiling,
        /// How many of this image to allocate one by one
        count: usize,
    },
}

impl<'a> LayoutElementCfg<'a> {
    /// How many elements this configuration stands for.
    pub fn count(&self) -> (r: usize)
        ensures
            r == (match self {
                LayoutElementCfg::Buffer { count, .. } => *count,
                LayoutElementCfg::Image { count, .. } => *count,
            }),
    {
        match self {
            LayoutElementCfg::Buffer { count, .. } => *count,
            LayoutElementCfg::Image { count, .. } => *count,
        }
    }

    /// Element made from this configuration and the handle that was created for it,
    /// not yet placed: offset and allocated size are zero and an image has no view yet.
    pub fn element(&self, handle: Handle) -> (e: LayoutElement)
        ensures
            e == unplaced_element(*self, handle),
    {
        match self {
            LayoutElementCfg::Buffer { size, .. } =>
                LayoutElement::Buffer { vk_buffer: handle, offset: 0, allocated_size: 0, size: *size },
            LayoutElementCfg::Image { format, extent, aspect, .. } =>
                LayoutElement::Image {
                    vk_image: handle,
                    vk_image_view: NULL_HANDLE,
                    extent: *extent,
                    subresource: single_subresource(*aspect),
                    format: *format,
                    offset: 0,
                    allocated_size: 0,
                    is_swapchain_image: false,
                },
        }
    }
}

/// Number of elements that configuration `c` stands for.
pub open spec fn cfg_count(c: LayoutElementCfg) -> nat {
    match c {
        LayoutElementCfg::Buffer { count, .. } => count as nat,
        LayoutElementCfg::Image { count, .. } => count as nat,
    }
}

/// Element made from configuration `c` and the handle created for it, not yet placed.
pub open spec fn unplaced_element(c: LayoutElementCfg, handle: Handle) -> LayoutElement {
    match c {
        LayoutElementCfg::Buffer { size, .. } =>
            LayoutElement::Buffer { vk_buffer: handle, offset: 0, allocated_size: 0, size },
        LayoutElementCfg::Image { format, extent, aspect, .. } =>
            LayoutElement::Image {
                vk_image: handle,
                vk_image_view: NULL_HANDLE,
                extent,
                subresource: spec_single_subresource(aspect),
                format,
                offset: 0,
                allocated_size: 0,
                is_swapchain_image: false,
            },
    }
}

/// Configuration `c` standing for `count` elements.
pub open spec fn with_count<'a>(c: LayoutElementCfg<'a>, count: usize) -> LayoutElementCfg<'a> {
    match c {
        LayoutElementCfg::Buffer { size, usage, queue_families, simultaneous_access, .. } =>
            LayoutElementCfg::Buffer { size, usage, queue_families, simultaneous_access, count },
        LayoutElementCfg::Image { queue_families, simultaneous_access, format, extent, usage, layout, aspect, tiling, .. } =>
            LayoutElementCfg::Image { queue_families, simultaneous_access, format, extent, usage, layout, aspect, tiling, count },
    }
}

/// For each element of the first `n` configurations, in order, the index of the
/// configuration it is made of: configuration `j` once per element it stands for.
pub open spec fn element_order_of(cfgs: Seq<LayoutElementCfg>, n: nat) -> Seq<usize>
    decreases n,
{
    if n == 0 {
        Seq::empty()
    } else {
        element_order_of(cfgs, (n - 1) as nat) + Seq::new(cfg_count(cfgs[n - 1]), |_i: int| (n - 1) as usize)
    }
}

/// The unplaced elements of `cfgs`, in order, made with `handles`, one per element.
pub open spec fn elements_of(cfgs: Seq<LayoutElementCfg>, handles: Seq<Handle>) -> Seq<LayoutElement> {
    let order = element_order_of(cfgs, cfgs.len());
    Seq::new(handles.len(), |i: int| unplaced_element(cfgs[order[i] as int], handles[i]))
}

/// Every index in the order names one of the first `n` configurations.
proof fn lemma_element_order_bounds(cfgs: Seq<LayoutElementCfg>, n: nat)
    requires
        n <= cfgs.len(),
        cfgs.len() <= usize::MAX,
    ensures
        forall|i: int| 0 <= i < element_order_of(cfgs, n).len() ==> (#[trigger] element_order_of(cfgs, n)[i]) < n,
    decreases n,
{
    if n > 0 {
        lemma_element_order_bounds(cfgs, (n - 1) as nat);
        let prev = element_order_of(cfgs, (n - 1) as nat);
        let block = Seq::new(cfg_count(cfgs[n - 1]), |_i: int| (n - 1) as usize);
        assert forall|i: int| 0 <= i < element_order_of(cfgs, n).len() implies (#[trigger] element_order_of(cfgs, n)[i]) < n by {
            if i < prev.len() {
                assert(element_order_of(cfgs, n)[i] == prev[i]);
            } else {
                assert(element_order_of(cfgs, n)[i] == block[i - prev.len()]);
            }
        }
    }
}

/// For each element that `cfgs` stands for, in order, the index of its configuration:
/// every configuration yields as many elements as its count, one after the other.
pub fn element_order(cfgs: &[LayoutElementCfg]) -> (r: Vec<usize>)
    requires
        element_order_of(cfgs@, cfgs@.len()).len() <= usize::MAX,
    ensures
        r@ == element_order_of(cfgs@, cfgs@.len()),
        forall|i: int| 0 <= i < r@.len() ==> (#[trigger] r@[i]) < cfgs@.len(),
{
    let n = cfgs.len();
    let mut r: Vec<usize> = Vec::new();
    let mut j: usize = 0;
    proof { lemma_element_order_bounds(cfgs@, n as nat); }
    while j < n
        invariant
            n == cfgs@.len(),
            0 <= j <= n,
            r@ == element_order_of(cfgs@, j as nat),
            element_order_of(cfgs@, n as nat).len() <= usize::MAX,
        decreases n - j,
    {
        proof { lemma_element_order_len_monotonic(cfgs@, (j + 1) as nat, n as nat); }
        let count = cfgs[j].count();
        let ghost before = r@;
        let mut k: usize = 0;
        while k < count
            invariant
                0 <= k <= count,
                count == cfg_count(cfgs@[j as int]),
                r@ == before + Seq::new(k as nat, |_i: int| j),
            decreases count - k,
        {
            r.push(j);
            k = k + 1;
            assert(r@ =~= before + Seq::new(k as nat, |_i: int| j));
        }
        j = j + 1;
        assert(r@ =~= element_order_of(cfgs@, j as nat));
    }
    r
}

/// The order never gets shorter as configurations are added.
proof fn lemma_element_order_len_monotonic(cfgs: Seq<LayoutElementCfg>, i: nat, j: nat)
    requires
        i <= j <= cfgs.len(),
    ensures
        element_order_of(cfgs, i).len() <= element_order_of(cfgs, j).len(),
    decreases j - i,
{
    if i < j {
        lemma_element_order_len_monotonic(cfgs, i, (j - 1) as nat);
    }
}

/// The unplaced elements of `cfgs`, in order, each made with the handle created for it.
pub fn unplaced_elements(cfgs: &[LayoutElementCfg], handles: &[Handle]) -> (r: Vec<LayoutElement>)
    requires
        handles@.len() == element_order_of(cfgs@, cfgs@.len()).len(),
    ensures
        r@ == elements_of(cfgs@, handles@),
{
    let n = handles.len();
    let order = element_order(cfgs);
    let mut r: Vec<LayoutElement> = Vec::new();
    let mut i: usize = 0;
    while i < n
        invariant
            n == handles@.len(),
            order@ == element_order_of(cfgs@, cfgs@.len()),
            order@.len() == n,
            forall|k: int| 0 <= k < order@.len() ==> (#[trigger] order@[k]) < cfgs@.len(),
            0 <= i <= n,
            r@ == elements_of(cfgs@, handles@).subrange(0, i as int),
        decreases n - i,
    {
        let e = cfgs[order[i]].element(handles[i]);
        r.push(e);
        i = i + 1;
        assert(r@ =~= elements_of(cfgs@, handles@).subrange(0, i as int));
    }
    assert(r@ =~= elements_of(cfgs@, handles@));
    r
}

/// Configurations that differ in their counts alone make the same elements: one
/// configuration standing for `a` elements followed by the same one standing for `b`
/// elements lays out like that configuration standing for `a + b` elements.
pub proof fn lemma_counts_add_up(c: LayoutElementCfg, a: usize, b: usize, handles: Seq<Handle>)
    requires
        a + b <= usize::MAX,
        handles.len() == a + b,
    ensures
        elements_of(seq![with_count(c, a), with_count(c, b)], handles)
            == elements_of(seq![with_count(c, (a + b) as usize)], handles),
{
    let two = seq![with_count(c, a), with_count(c, b)];
    let one = seq![with_count(c, (a + b) as usize)];
    let o2 = element_order_of(two, 2);
    let o1 = element_order_of(one, 1);
    assert(cfg_count(with_count(c, a)) == a);
    assert(cfg_count(with_count(c, b)) == b);
    assert(cfg_count(with_count(c, (a + b) as usize)) == a + b);
    assert(element_order_of(two, 0) =~= Seq::<usize>::empty());
    assert(element_order_of(two, 1) =~= Seq::new(a as nat, |_i: int| 0usize));
    assert(element_order_of(one, 0) =~= Seq::<usize>::empty());
    assert forall|h: Handle, k: usize| #[trigger] unplaced_element(with_count(c, k), h) == unplaced_element(c, h) by {}
    assert forall|i: int| 0 <= i < handles.len() implies
        #[trigger] elements_of(two, handles)[i] == elements_of(one, handles)[i] by {
        assert(o1[i] == 0usize);
        assert(unplaced_element(two[o2[i] as int], handles[i]) == unplaced_element(c, handles[i])) by {
            if i < a {
                assert(o2[i] == 0usize);
            } else {
                assert(o2[i] == 1usize);
            }
        }
    }
}

/// One placed element of a memory layout.
#[derive(Debug, Clone, Copy)]
pub enum LayoutElement {
    Buffer {
        vk_buffer: Handle,
        offset: u64,
        allocated_size: u64,
        size: u64,
    },
    Image {
        vk_image: Handle,
        vk_image_view: Handle,
        extent: Extent3D,
        subresource: ImageSubresourceRange,
        format: ImageFormat,
        offset: u64,
        allocated_size: u64,
        is_swapchain_image: bool,
    },
}

/// The element moved to `offset` with `allocated_size` bytes, all else kept.
pub open spec fn placed(e: LayoutElement, offset: u64, allocated_size: u64) -> LayoutElement {
    match e {
        LayoutElement::Buffer { vk_buffer, size, .. } =>
            LayoutElement::Buffer { vk_buffer, offset, allocated_size, size },
        LayoutElement::Image { vk_image, vk_image_view, extent, subresource, format, is_swapchain_image, .. } =>
            LayoutElement::Image { vk_image, vk_image_view, extent, subresource, format, offset, allocated_size, is_swapchain_image },
    }
}

/// Requested size of an element: the size asked for a buffer, the allocated size of an image.
pub open spec fn element_size(e: LayoutElement) -> u64 {
    match e {
        LayoutElement::Buffer { size, .. } => size,
        LayoutElement::Image { allocated_size, .. } => allocated_size,
    }
}

pub open spec fn element_offset(e: LayoutElement) -> u64 {
    match e {
        LayoutElement::Buffer { offset, .. } => offset,
        LayoutElement::Image { offset, .. } => offset,
    }
}

pub open spec fn element_allocated_size(e: LayoutElement) -> u64 {
    match e {
        LayoutElement::Buffer { allocated_size, .. } => allocated_size,
        LayoutElement::Image { allocated_size, .. } => allocated_size,
    }
}

/// Sum of the requested sizes of the first `n` elements.
pub open spec fn elements_requested(elements: Seq<LayoutElement>, n: nat) -> int
    decreases n,
{
    if n == 0 { 0 } else { elements_requested(elements, (n - 1) as nat) + element_size(elements[n - 1]) }
}

/// Memory layout: placed elements, the size that they ask for, the size to allocate and
/// the memory types that suit them all.
#[derive(Debug)]
pub struct Layout {
    pub elements: Vec<LayoutElement>,
    pub requested_size: u64,
    pub alloc_size: u64,
    pub memory_bits: u32,
}

/// The elements after placement by the requirements that the driver reported for them.
pub open spec fn placed_elements(elements: Seq<LayoutElement>, reqs: Seq<MemoryRequirements>, memory_alignment: u64) -> Seq<LayoutElement> {
    Seq::new(elements.len(), |i: int| placed(elements[i], region_offset(reqs, memory_alignment, i as nat) as u64, reqs[i].size))
}

impl Layout {
    /// Place `elements`, whose requirements the driver reported as `requirements` in the
    /// same order, in one allocation aligned at least to `memory_alignment`.
    pub fn new(elements: Vec<LayoutElement>, requirements: &[MemoryRequirements], memory_alignment: u64) -> (layout: Layout)
        requires
            elements@.len() == requirements@.len(),
            alignments_positive(requirements@, memory_alignment),
            layout_end(requirements@, memory_alignment, requirements@.len()) <= u64::MAX,
            layout_total(requirements@, memory_alignment, requirements@.len()) <= u64::MAX,
            elements_requested(placed_elements(elements@, requirements@, memory_alignment), elements@.len()) <= u64::MAX,
        ensures
            layout.elements@ == placed_elements(elements@, requirements@, memory_alignment),
            layout.alloc_size == layout_size(requirements@, memory_alignment, requirements@.len()),
            layout.memory_bits == layout_memory_bits(requirements@, requirements@.len()),
            layout.requested_size == elements_requested(layout.elements@, layout.elements@.len()),
    {
        let info = calculate_subregions(memory_alignment, requirements);
        let ghost target = placed_elements(elements@, requirements@, memory_alignment);
        let n = elements.len();
        let mut placed_vec: Vec<LayoutElement> = Vec::new();
        let mut requested_size: u64 = 0;
        let mut i: usize = 0;

        while i < n
            invariant
                n == elements@.len(),
                n == requirements@.len(),
                info.subregions@.len() == n,
                forall|j: int| 0 <= j < n ==> {
                    &&& (#[trigger] info.subregions@[j]).offset == region_offset(requirements@, memory_alignment, j as nat)
                    &&& info.subregions@[j].allocated_size == requirements@[j].size
                },
                target == placed_elements(elements@, requirements@, memory_alignment),
                elements_requested(target, n as nat) <= u64::MAX,
                0 <= i <= n,
                placed_vec@ == target.subrange(0, i as int),
                requested_size == elements_requested(target, i as nat),
            decreases n - i,
        {
            let sub = info.subregions[i];
            let e = match elements[i] {
                LayoutElement::Buffer { vk_buffer, size, .. } =>
                    LayoutElement::Buffer { vk_buffer, offset: sub.offset, allocated_size: sub.allocated_size, size },
                LayoutElement::Image { vk_image, vk_image_view, extent, subresource, format, is_swapchain_image, .. } =>
                    LayoutElement::Image {
                        vk_image,
                        vk_image_view,
                        extent,
                        subresource,
                        format,
                        offset: sub.offset,
                        allocated_size: sub.allocated_size,
                        is_swapchain_image,
                    },
            };
            proof {
                assert(e == target[i as int]);
                lemma_elements_requested_monotonic(target, (i + 1) as nat, n as nat);
                assert(target.subrange(0, i + 1) == target.subrange(0, i as int).push(e));
            }
            let add = match e {
                LayoutElement::Buffer { size, .. } => size,
                LayoutElement::Image { allocated_size, .. } => allocated_size,
            };
            requested_size = requested_size + add;
            placed_vec.push(e);
            i = i + 1;
        }

        proof {
            assert(placed_vec@ == target);
        }

        Layout {
            elements: placed_vec,
            alloc_size: info.total_size,
            requested_size,
            memory_bits: info.memory_bits,
        }
    }

    /// Layout of an image whose memory is owned elsewhere (an image of a swapchain): one
    /// element at offset zero that takes the whole size the driver reported.
    pub fn preallocated(
        image: Handle,
        image_view: Handle,
        format: ImageFormat,
        extent: Extent2D,
        requirements: MemoryRequirements,
    ) -> (layout: Layout)
        ensures
            layout.elements@ == seq![LayoutElement::Image {
                vk_image: image,
                vk_image_view: image_view,
                extent: Extent3D { width: extent.width, height: extent.height, depth: 1 },
                subresource: spec_single_subresource(crate::flags::IMAGE_ASPECT_COLOR),
                format,
                offset: 0,
                allocated_size: requirements.size,
                is_swapchain_image: true,
            }],
            layout.requested_size == requirements.size,
            layout.alloc_size == requirements.size,
            layout.memory_bits == requirements.memory_type_bits,
    {
        let mut elements: Vec<LayoutElement> = Vec::new();
        elements.push(LayoutElement::Image {
            vk_image: image,
            vk_image_view: image_view,
            extent: Extent3D { width: extent.width, height: extent.height, depth: 1 },
            subresource: single_subresource(crate::flags::IMAGE_ASPECT_COLOR),
            format,
            offset: 0,
            allocated_size: requirements.size,
            is_swapchain_image: true,
        });
        Layout {
            elements,
            requested_size: requirements.size,
            alloc_size: requirements.size,
            memory_bits: requirements.memory_type_bits,
        }
    }

    /// Requested size of element `i`: the size asked for a buffer, the allocated size of
    /// an image.
    pub fn size(&self, i: usize) -> (r: u64)
        requires
            i < self.elements@.len(),
        ensures
            r == element_size(self.elements@[i as int]),
    {
        match &self.elements[i] {
            LayoutElement::Buffer { size, .. } => *size,
            LayoutElement::Image { allocated_size, .. } => *allocated_size,
        }
    }

    /// Offset of element `i` in bytes.
    pub fn offset(&self, i: usize) -> (r: u64)
        requires
            i < self.elements@.len(),
        ensures
            r == element_offset(self.elements@[i as int]),
    {
        match &self.elements[i] {
            LayoutElement::Buffer { offset, .. } => *offset,
            LayoutElement::Image { offset, .. } => *offset,
        }
    }

    /// Size of element `i` with respect to its alignment.
    pub fn allocated_size(&self, i: usize) -> (r: u64)
        requires
            i < self.elements@.len(),
        ensures
            r == element_allocated_size(self.elements@[i as int]),
    {
        match &self.elements[i] {
            LayoutElement::Buffer { allocated_size, .. } => *allocated_size,
            LayoutElement::Image { allocated_size, .. } => *allocated_size,
        }
    }

    /// Handle of buffer element `i`.
    pub fn buffer(&self, i: usize) -> (r: Handle)
        requires
            i < self.elements@.len(),
            self.elements@[i as int] is Buffer,
        ensures
            r == self.elements@[i as int]->vk_buffer,
    {
        match &self.elements[i] {
            LayoutElement::Buffer { vk_buffer, .. } => *vk_buffer,
            LayoutElement::Image { .. } => 0,
        }
    }

    /// Handle of image element `i`.
    pub fn image(&self, i: usize) -> (r: Handle)
        requires
            i < self.elements@.len(),
            self.elements@[i as int] is Image,
        ensures
            r == self.elements@[i as int]->vk_image,
    {
        match &self.elements[i] {
            LayoutElement::Image { vk_image, .. } => *vk_image,
            LayoutElement::Buffer { .. } => 0,
        }
    }

    /// Handle of the view of image element `i`.
    pub fn image_view(&self, i: usize) -> (r: Handle)
        requires
            i < self.elements@.len(),
            self.elements@[i as int] is Image,
        ensures
            r == self.elements@[i as int]->vk_image_view,
    {
        match &self.elements[i] {
            LayoutElement::Image { vk_image_view, .. } => *vk_image_view,
            LayoutElement::Buffer { .. } => 0,
        }
    }

    /// Extent of image element `i`.
    pub fn extent(&self, i: usize) -> (r: Extent3D)
        requires
            i < self.elements@.len(),
            self.elements@[i as int] is Image,
        ensures
            r == self.elements@[i as int]->extent,
    {
        match &self.elements[i] {
            LayoutElement::Image { extent, .. } => *extent,
            LayoutElement::Buffer { .. } => Extent3D { width: 0, height: 0, depth: 0 },
        }
    }

    /// Subresource range of image element `i`.
    pub fn subresource(&self, i: usize) -> (r: ImageSubresourceRange)
        requires
            i < self.elements@.len(),
            self.elements@[i as int] is Image,
        ensures
            r == self.elements@[i as int]->subresource,
    {
        match &self.elements[i] {
            LayoutElement::Image { subresource, .. } => *subresource,
            LayoutElement::Buffer { .. } => single_subresource(0),
        }
    }

    /// Format of image element `i`.
    pub fn format(&self, i: usize) -> (r: ImageFormat)
        requires
            i < self.elements@.len(),
            self.elements@[i as int] is Image,
        ensures
            r == self.elements@[i as int]->format,
    {
        match &self.elements[i] {
            LayoutElement::Image { format, .. } => *format,
            LayoutElement::Buffer { .. } => 0,
        }
    }

    /// Whether image element `i` belongs to a swapchain, which owns the image itself.
    pub fn is_swapchain_image(&self, i: usize) -> (r: bool)
        requires
            i < self.elements@.len(),
        ensures
            r == (self.elements@[i as int] matches LayoutElement::Image { is_swapchain_image: true, .. }),
    {
        match &self.elements[i] {
            LayoutElement::Image { is_swapchain_image, .. } => *is_swapchain_image,
            LayoutElement::Buffer { .. } => false,
        }
    }

    /// Subresource layers of image element `i`, taken from its subresource range.
    pub fn subresource_layer(&self, i: usize) -> (r: ImageSubresourceLayers)
        requires
            i < self.elements@.len(),
            self.elements@[i as int] is Image,
        ensures
            r == (ImageSubresourceLayers {
                aspect_mask: self.elements@[i as int]->subresource.aspect_mask,
                mip_level: self.elements@[i as int]->subresource.base_mip_level,
                base_array_layer: self.elements@[i as int]->subresource.base_array_layer,
                layer_count: self.elements@[i as int]->subresource.layer_count,
            }),
    {
        let subresource = self.subresource(i);
        ImageSubresourceLayers {
            aspect_mask: subresource.aspect_mask,
            mip_level: subresource.base_mip_level,
            base_array_layer: subresource.base_array_layer,
            layer_count: subresource.layer_count,
        }
    }

    /// Record the view that was created for image element `i`.
    pub fn set_image_view(&mut self, i: usize, view: Handle)
        requires
            i < old(self).elements@.len(),
        ensures
            final(self).requested_size == old(self).requested_size,
            final(self).alloc_size == old(self).alloc_size,
            final(self).memory_bits == old(self).memory_bits,
            final(self).elements@ == old(self).elements@.update(i as int, with_image_view(old(self).elements@[i as int], view)),
    {
        let e = self.elements[i];
        let updated = match e {
            LayoutElement::Image { vk_image, extent, subresource, format, offset, allocated_size, is_swapchain_image, .. } =>
                LayoutElement::Image { vk_image, vk_image_view: view, extent, subresource, format, offset, allocated_size, is_swapchain_image },
            LayoutElement::Buffer { vk_buffer, offset, allocated_size, size } =>
                LayoutElement::Buffer { vk_buffer, offset, allocated_size, size },
        };
        self.elements.set(i, updated);
    }
}

/// Element `e` with its image view replaced by `view`; a buffer element stays as it is.
pub open spec fn with_image_view(e: LayoutElement, view: Handle) -> LayoutElement {
    match e {
        LayoutElement::Image { vk_image, extent, subresource, format, offset, allocated_size, is_swapchain_image, .. } =>
            LayoutElement::Image { vk_image, vk_image_view: view, extent, subresource, format, offset, allocated_size, is_swapchain_image },
        LayoutElement::Buffer { vk_buffer, offset, allocated_size, size } =>
            LayoutElement::Buffer { vk_buffer, offset, allocated_size, size },
    }
}

/// The requested sum never decreases as elements are added.
pub proof fn lemma_elements_requested_monotonic(elements: Seq<LayoutElement>, i: nat, j: nat)
    requires
        i <= j,
    ensures
        elements_requested(elements, i) <= elements_requested(elements, j),
    decreases j - i,
{
    if i < j {
        lemma_elements_requested_monotonic(elements, i, (j - 1) as nat);
    }
}

/// Memory binding of one element at its offset (`vkBindBufferMemory`, `vkBindImageMemory`);
/// an image then gets a two-dimensional view of its format and subresource range.
#[derive(Debug, Clone, Copy, PartialEq, Eq, Structural)]
pub enum BindCommand {
    Buffer { buffer: Handle, offset: u64 },
    Image { image: Handle, offset: u64, format: ImageFormat, subresource: ImageSubresourceRange },
}

/// Binding of an element.
pub open spec fn spec_bind_command(e: LayoutElement) -> BindCommand {
    match e {
        LayoutElement::Buffer { vk_buffer, offset, .. } => BindCommand::Buffer { buffer: vk_buffer, offset },
        LayoutElement::Image { vk_image, offset, format, subresource, .. } =>
            BindCommand::Image { image: vk_image, offset, format, subresource },
    }
}

impl Layout {
    /// Bindings of the elements to the memory, element by element; a failed buffer binding
    /// is `Bind`, a failed image binding `ImageBind`, a failed view `ImageView`
    pub fn bind_commands(&self) -> (r: Vec<BindCommand>)
        ensures
            r@ == Seq::new(self.elements@.len(), |i: int| spec_bind_command(self.elements@[i])),
    {
        let mut r: Vec<BindCommand> = Vec::new();
        let n = self.elements.len();
        let mut i: usize = 0;
        while i < n
            invariant
                n == self.elements@.len(),
                0 <= i <= n,
                r@ == Seq::new(i as nat, |k: int| spec_bind_command(self.elements@[k])),
            decreases n - i,
        {
            let cmd = match self.elements[i] {
                LayoutElement::Buffer { vk_buffer, offset, .. } => BindCommand::Buffer { buffer: vk_buffer, offset },
                LayoutElement::Image { vk_image, offset, format, subresource, .. } =>
                    BindCommand::Image { image: vk_image, offset, format, subresource },
            };
            r.push(cmd);
            i = i + 1;
            assert(r@ =~= Seq::new(i as nat, |k: int| spec_bind_command(self.elements@[k])));
        }
        r
    }
}

/// No buffer asks for more bytes than the driver reports for it.
pub open spec fn buffers_within_requirements(elements: Seq<LayoutElement>, reqs: Seq<MemoryRequirements>) -> bool {
    forall|i: int| 0 <= i < elements.len() ==> match #[trigger] elements[i] {
        LayoutElement::Buffer { size, .. } => size <= reqs[i].size,
        LayoutElement::Image { .. } => true,
    }
}

/// Placed elements ask for no more than their requirements.
proof fn lemma_placed_requested_le(elements: Seq<LayoutElement>, reqs: Seq<MemoryRequirements>, memory_alignment: u64, n: nat)
    requires
        n <= elements.len(),
        elements.len() == reqs.len(),
        buffers_within_requirements(elements, reqs),
    ensures
        elements_requested(placed_elements(elements, reqs, memory_alignment), n) <= requested_sum(reqs, n),
    decreases n,
{
    if n > 0 {
        lemma_placed_requested_le(elements, reqs, memory_alignment, (n - 1) as nat);
        let e = elements[n - 1];
        match e {
            LayoutElement::Buffer { .. } => {},
            LayoutElement::Image { .. } => {},
        }
    }
}

/// The allocated size of a layout is at least its requested size, the sum of what its
/// elements ask for, as long as no buffer asks for more than the driver reports for it.
pub proof fn lemma_alloc_covers_requested(elements: Seq<LayoutElement>, reqs: Seq<MemoryRequirements>, memory_alignment: u64)
    requires
        elements.len() == reqs.len(),
        buffers_within_requirements(elements, reqs),
    ensures
        layout_size(reqs, memory_alignment, reqs.len())
            >= elements_requested(placed_elements(elements, reqs, memory_alignment), elements.len()),
{
    lemma_placed_requested_le(elements, reqs, memory_alignment, elements.len());
    lemma_total_covers_requests(reqs, memory_alignment, reqs.len());
}

/// The placement of `elements` by `requirements` fits: one requirement per element, every
/// alignment positive, and the end, the reserved total and the requested size all fit in
/// 64 bits.
pub open spec fn layout_fits(elements: Seq<LayoutElement>, reqs: Seq<MemoryRequirements>, memory_alignment: u64) -> bool {
    &&& elements.len() == reqs.len()
    &&& alignments_positive(reqs, memory_alignment)
    &&& layout_end(reqs, memory_alignment, reqs.len()) <= u64::MAX
    &&& layout_total(reqs, memory_alignment, reqs.len()) <= u64::MAX
    &&& elements_requested(placed_elements(elements, reqs, memory_alignment), elements.len()) <= u64::MAX
}

impl Layout {
    /// Layout of `elements` placed by `requirements`, as [`Layout::new`] makes it, or `None`
    /// when the placement does not fit
    pub fn try_new(elements: Vec<LayoutElement>, requirements: &[MemoryRequirements], memory_alignment: u64)
        -> (r: Option<Layout>)
        ensures
            r is Some <==> layout_fits(elements@, requirements@, memory_alignment),
            r matches Some(layout) ==> {
                &&& layout.elements@ == placed_elements(elements@, requirements@, memory_alignment)
                &&& layout.alloc_size == layout_size(requirements@, memory_alignment, requirements@.len())
                &&& layout.memory_bits == layout_memory_bits(requirements@, requirements@.len())
                &&& layout.requested_size == elements_requested(layout.elements@, layout.elements@.len())
            },
    {
        let n = requirements.len();
        if elements.len() != n {
            return None;
        }
        let mut k: usize = 0;
        while k < n
            invariant
                n == requirements@.len(),
                0 <= k <= n,
                forall|j: int| 0 <= j < k ==> effective_alignment(#[trigger] requirements@[j], memory_alignment) > 0,
            decreases n - k,
        {
            let r = requirements[k];
            let a = if memory_alignment >= r.alignment { memory_alignment } else { r.alignment };
            if a == 0 {
                assert(effective_alignment(requirements@[k as int], memory_alignment) == 0);
                return None;
            }
            k = k + 1;
        }
        assert(alignments_positive(requirements@, memory_alignment));

        let ghost placed_seq = placed_elements(elements@, requirements@, memory_alignment);
        let mut last: u64 = 0;
        let mut total: u64 = 0;
        let mut requested: u64 = 0;
        let mut i: usize = 0;
        while i < n
            invariant
                n == requirements@.len(),
                n == elements@.len(),
                alignments_positive(requirements@, memory_alignment),
                placed_seq == placed_elements(elements@, requirements@, memory_alignment),
                0 <= i <= n,
                last == layout_end(requirements@, memory_alignment, i as nat),
                total == layout_total(requirements@, memory_alignment, i as nat),
                requested == elements_requested(placed_seq, i as nat),
            decreases n - i,
        {
            let r = requirements[i];
            let a = if memory_alignment >= r.alignment { memory_alignment } else { r.alignment };
            proof {
                assert(a as int == effective_alignment(requirements@[i as int], memory_alignment));
                lemma_layout_step(requirements@, memory_alignment, i as nat);
                lemma_padding_bytes(r.size as int, a as int);
                lemma_layout_end_monotonic(requirements@, memory_alignment, (i + 1) as nat, n as nat);
                lemma_layout_total_monotonic(requirements@, memory_alignment, (i + 1) as nat, n as nat);
                lemma_elements_requested_monotonic(placed_seq, (i + 1) as nat, n as nat);
            }
            let pad = padding_bytes(last, a);
            let start = match last.checked_add(pad) {
                Some(v) => v,
                None => return None,
            };
            let size_pad = padding_bytes(r.size, a);
            let full = match r.size.checked_add(size_pad) {
                Some(v) => v,
                None => return None,
            };
            last = match start.checked_add(full) {
                Some(v) => v,
                None => return None,
            };
            let reserved = match r.size.checked_add(a) {
                Some(v) => v,
                None => return None,
            };
            total = match total.checked_add(reserved) {
                Some(v) => v,
                None => return None,
            };
            let add = match elements[i] {
                LayoutElement::Buffer { size, .. } => size,
                LayoutElement::Image { .. } => r.size,
            };
            assert(add == element_size(placed_seq[i as int]));
            requested = match requested.checked_add(add) {
                Some(v) => v,
                None => return None,
            };
            i = i + 1;
        }
        Some(Layout::new(elements, requirements, memory_alignment))
    }
}

} // verus!
