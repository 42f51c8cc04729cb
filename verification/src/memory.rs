//! Memory: regions of device memory, the layout of the buffers and images inside them,
//! and views of single elements.
//!
//! # Allocation
//!
//! Memory is allocated in a single chunk in the order given by the
//! [`LayoutElementCfg`](crate::layout::LayoutElementCfg) list, so no element is moved.
//! The allocated size is at least the requested size (the sum of all requested sizes)
//! because every element is aligned on its own.

use vstd::prelude::*;
use crate::flags::{
    bits_contain, memory_property_contains, Handle, MemoryProperty, BufferUsageFlags, ShaderStage, DescriptorType,
    BUFFER_USAGE_TRANSFER_SRC, BUFFER_USAGE_TRANSFER_DST, BUFFER_USAGE_STORAGE_BUFFER, BUFFER_USAGE_UNIFORM_BUFFER,
    BUFFER_USAGE_VERTEX_BUFFER, BUFFER_USAGE_INDEX_BUFFER, MEMORY_PROPERTY_HOST_COHERENT, MEMORY_PROPERTY_HOST_VISIBLE,
    MEMORY_PROPERTY_HOST_CACHED, MEMORY_PROPERTY_DEVICE_LOCAL, DESCRIPTOR_TYPE_UNIFORM_BUFFER, NULL_HANDLE,
};
use crate::hw::{MemoryDescription, HWDevice};
use crate::search::{callable_on_all, select_by};
use crate::layout::{
    Layout, Extent2D, Extent3D, ImageSubresourceRange, MemoryRequirements, element_offset, element_size,
    element_allocated_size, with_image_view, LayoutElement, LayoutElementCfg,
};

verus! {

/// Errors during memory allocation, initialization and access
#[derive(Debug, Clone, Copy, PartialEq, Eq, Structural)]
pub enum MemoryError {
    /// Failed to create a buffer
    Buffer,
    /// Failed to find suitable memory
    NoSuitableMemory,
    /// Failed to allocate memory
    DeviceMemory,
    /// Failed to map memory
    MapAccess,
    /// Failed to flush memory
    Flush,
    /// Failed to bind memory
    Bind,
    /// Failed to invalidate a mapped memory range
    Sync,
    /// Failed to create an image
    Image,
    /// Failed to create an image view
    ImageView,
    /// Failed to bind image memory
    ImageBind,
    /// Failed to create a framebuffer
    Framebuffer,
}

/// Text that describes `e`.
pub open spec fn memory_error_text(e: MemoryError) -> Seq<char> {
    match e {
        MemoryError::Buffer => "Failed to create buffer (vkCreateBuffer call failed)"@,
        MemoryError::NoSuitableMemory => "Failed to find suitable memory"@,
        MemoryError::DeviceMemory => "Failed to allocate memory for buffer (vkAllocateMemory call failed)"@,
        MemoryError::MapAccess => "Failed to map memory (vkMapMemory call failed)"@,
        MemoryError::Flush => "Failed to flush memory (vkFlushMappedMemoryRanges call failed)"@,
        MemoryError::Bind => "Failed to bind memory (vkBindBufferMemory call failed)"@,
        MemoryError::Sync => "Failed to invalidate mapped memory range (vkInvalidateMappedMemoryRanges call failed)"@,
        MemoryError::Image => "Failed to create image (vkCreateImage call failed)"@,
        MemoryError::ImageView => "Failed to create image view (vkCreateImageView call failed)"@,
        MemoryError::ImageBind => "Failed to bind image memory (vkBindImageMemory call failed)"@,
        MemoryError::Framebuffer => "Failed to create framebuffer (vkCreateFramebuffer call failed)"@,
    }
}

impl MemoryError {
    /// Human readable description of the error
    pub fn message(&self) -> (r: &'static str)
        ensures
            r@ == memory_error_text(*self),
    {
        match self {
            MemoryError::Buffer => "Failed to create buffer (vkCreateBuffer call failed)",
            MemoryError::NoSuitableMemory => "Failed to find suitable memory",
            MemoryError::DeviceMemory => "Failed to allocate memory for buffer (vkAllocateMemory call failed)",
            MemoryError::MapAccess => "Failed to map memory (vkMapMemory call failed)",
            MemoryError::Flush => "Failed to flush memory (vkFlushMappedMemoryRanges call failed)",
            MemoryError::Bind => "Failed to bind memory (vkBindBufferMemory call failed)",
            MemoryError::Sync => "Failed to invalidate mapped memory range (vkInvalidateMappedMemoryRanges call failed)",
            MemoryError::Image => "Failed to create image (vkCreateImage call failed)",
            MemoryError::ImageView => "Failed to create image view (vkCreateImageView call failed)",
            MemoryError::ImageBind => "Failed to bind image memory (vkBindImageMemory call failed)",
            MemoryError::Framebuffer => "Failed to create framebuffer (vkCreateFramebuffer call failed)",
        }
    }
}

/// Buffer can be source and destination of transfers
pub const FULL_TRANSFER: BufferUsageFlags = BUFFER_USAGE_TRANSFER_SRC | BUFFER_USAGE_TRANSFER_DST;
/// Storage buffer with transfers
pub const STORAGE: BufferUsageFlags = FULL_TRANSFER | BUFFER_USAGE_STORAGE_BUFFER;
/// Uniform buffer with transfers
pub const UNIFORM: BufferUsageFlags = FULL_TRANSFER | BUFFER_USAGE_UNIFORM_BUFFER;
/// Vertex buffer with transfers
pub const VERTEX: BufferUsageFlags = FULL_TRANSFER | BUFFER_USAGE_VERTEX_BUFFER;
/// Index buffer with transfers
pub const INDEX: BufferUsageFlags = FULL_TRANSFER | BUFFER_USAGE_INDEX_BUFFER;

/// Special index value that restarts primitive assembly for 32-bit indices
pub const INDEX_REASSEMBLY_UINT32: u32 = 0xffffffff;
/// Special index value that restarts primitive assembly for 16-bit indices
pub const INDEX_REASSEMBLY_UINT16: u16 = 0xffff;
/// Special index value that restarts primitive assembly for 8-bit indices
pub const INDEX_REASSEMBLY_UINT8: u8 = 0xff;

/// Properties asked by host visible allocations
pub const HOST_MEMORY: MemoryProperty = MEMORY_PROPERTY_HOST_VISIBLE;
/// Properties asked by host visible, coherent and cached allocations
pub const HOST_COHERENT_MEMORY: MemoryProperty =
    MEMORY_PROPERTY_HOST_VISIBLE | MEMORY_PROPERTY_HOST_COHERENT | MEMORY_PROPERTY_HOST_CACHED;
/// Properties asked by device local allocations
pub const DEVICE_MEMORY: MemoryProperty = MEMORY_PROPERTY_DEVICE_LOCAL;

/// Bit `index` of `mask` is set.
pub open spec fn mask_has_bit(mask: u32, index: u32) -> bool {
    (mask >> index) & 1u32 == 1u32
}

/// Default memory filter: the memory type is allowed by `bitmask` and has every
/// property in `property`.
pub open spec fn spec_memory_type_matches(m: MemoryDescription, bitmask: u32, property: MemoryProperty) -> bool {
    mask_has_bit(bitmask, m.spec_index()) && bits_contain(m.spec_flags(), property)
}

/// Default memory filter: memory type `m` is allowed by `bitmask` (the memory type bits
/// of every requested element) and has every property in `property`.
pub fn memory_type_matches(m: &MemoryDescription, bitmask: u32, property: MemoryProperty) -> (r: bool)
    ensures
        r == spec_memory_type_matches(*m, bitmask, property),
{
    let index = m.index();
    ((bitmask >> index) & 1) == 1 && m.is_compatible(property)
}

/// First memory type of `hw` that `filter` accepts together with `bitmask`.
pub fn select_memory<'a, F: Fn(&MemoryDescription, u32) -> bool>(
    hw: &'a HWDevice,
    bitmask: u32,
    filter: &F,
) -> (r: Option<&'a MemoryDescription>)
    requires
        forall|i: int| 0 <= i < hw.spec_memory().len() ==> #[trigger] filter.requires((&hw.spec_memory()[i], bitmask)),
    ensures
        match r {
            Some(m) => exists|i: int| {
                &&& 0 <= i < hw.spec_memory().len()
                &&& *m == hw.spec_memory()[i]
                &&& filter.ensures((&hw.spec_memory()[i], bitmask), true)
                &&& forall|j: int| 0 <= j < i ==> #[trigger] filter.ensures((&hw.spec_memory()[j], bitmask), false)
            },
            None => forall|j: int| 0 <= j < hw.spec_memory().len()
                ==> #[trigger] filter.ensures((&hw.spec_memory()[j], bitmask), false),
        },
{
    let memories = hw.memory();
    let n = memories.len();
    let mut i: usize = 0;
    while i < n
        invariant
            n == hw.spec_memory().len(),
            memories@ == hw.spec_memory(),
            0 <= i <= n,
            forall|k: int| 0 <= k < hw.spec_memory().len() ==> #[trigger] filter.requires((&hw.spec_memory()[k], bitmask)),
            forall|j: int| 0 <= j < i ==> #[trigger] filter.ensures((&hw.spec_memory()[j], bitmask), false),
        decreases n - i,
    {
        assert(filter.requires((&hw.spec_memory()[i as int], bitmask)));
        if filter(&memories[i], bitmask) {
            return Some(&memories[i]);
        }
        i = i + 1;
    }
    None
}

/// First memory type of `hw` allowed by `bitmask` that has every property in `property`.
pub fn select_memory_with_property<'a>(hw: &'a HWDevice, bitmask: u32, property: MemoryProperty)
    -> (r: Option<&'a MemoryDescription>)
    ensures
        match r {
            Some(m) => exists|i: int| {
                &&& 0 <= i < hw.spec_memory().len()
                &&& *m == hw.spec_memory()[i]
                &&& spec_memory_type_matches(hw.spec_memory()[i], bitmask, property)
                &&& forall|j: int| 0 <= j < i ==> !spec_memory_type_matches(#[trigger] hw.spec_memory()[j], bitmask, property)
            },
            None => forall|j: int| 0 <= j < hw.spec_memory().len()
                ==> !spec_memory_type_matches(#[trigger] hw.spec_memory()[j], bitmask, property),
        },
{
    let memories = hw.memory();
    let n = memories.len();
    let mut i: usize = 0;
    while i < n
        invariant
            n == hw.spec_memory().len(),
            memories@ == hw.spec_memory(),
            0 <= i <= n,
            forall|j: int| 0 <= j < i ==> !spec_memory_type_matches(#[trigger] hw.spec_memory()[j], bitmask, property),
        decreases n - i,
    {
        if memory_type_matches(&memories[i], bitmask, property) {
            return Some(&memories[i]);
        }
        i = i + 1;
    }
    None
}

/// Whether memory with properties `flags` must be flushed by hand after the host wrote
/// to it: it is visible to the host but not coherent.
pub open spec fn spec_needs_flush(flags: MemoryProperty) -> bool {
    !bits_contain(flags, MEMORY_PROPERTY_HOST_COHERENT) && bits_contain(flags, MEMORY_PROPERTY_HOST_VISIBLE)
}

/// Whether memory with properties `flags` must be flushed by hand after the host wrote
/// to it: without coherency host and device are synchronized manually.
pub fn needs_flush(flags: MemoryProperty) -> (r: bool)
    ensures
        r == spec_needs_flush(flags),
{
    !memory_property_contains(flags, MEMORY_PROPERTY_HOST_COHERENT)
        && memory_property_contains(flags, MEMORY_PROPERTY_HOST_VISIBLE)
}

/// Number of whole elements of `elem_size` bytes in `size` bytes of mapped memory.
pub fn mapped_len(size: u64, elem_size: usize) -> (r: usize)
    requires
        elem_size > 0,
        size <= usize::MAX,
    ensures
        r == size as int / elem_size as int,
{
    (size as usize) / elem_size
}

/// Index range `[first, last)` of the elements of `elem_size` bytes that cover a view at
/// `offset` with `size` bytes in a mapping of the whole memory.
pub fn subslice_bounds(offset: u64, size: u64, elem_size: u64) -> (r: (usize, usize))
    requires
        elem_size > 0,
        offset / elem_size + size / elem_size <= usize::MAX,
    ensures
        r.0 == offset / elem_size,
        r.1 == offset / elem_size + size / elem_size,
{
    let first = (offset / elem_size) as usize;
    let last = first + (size / elem_size) as usize;
    (first, last)
}

/// Allocated device memory: its handle, size and properties. A region with a null
/// handle owns no memory (the memory of a swapchain image).
#[derive(Debug)]
pub struct Region {
    i_memory: Handle,
    i_size: u64,
    i_flags: MemoryProperty,
}

impl Region {
    pub closed spec fn spec_memory(&self) -> Handle { self.i_memory }
    pub closed spec fn spec_size(&self) -> u64 { self.i_size }
    pub closed spec fn spec_flags(&self) -> MemoryProperty { self.i_flags }

    /// Region for memory `memory` of `size` bytes allocated from a memory type with
    /// properties `flags`.
    pub fn new(memory: Handle, size: u64, flags: MemoryProperty) -> (r: Region)
        ensures
            r.spec_memory() == memory,
            r.spec_size() == size,
            r.spec_flags() == flags,
    {
        Region { i_memory: memory, i_size: size, i_flags: flags }
    }

    /// Region that owns no memory
    pub fn empty(size: u64) -> (r: Region)
        ensures
            r.spec_memory() == NULL_HANDLE,
            r.spec_size() == size,
            r.spec_flags() == 0,
    {
        Region { i_memory: NULL_HANDLE, i_size: size, i_flags: 0 }
    }

    /// Memory handle
    pub fn memory(&self) -> (r: Handle)
        ensures
            r == self.spec_memory(),
    {
        self.i_memory
    }

    /// Whether the region owns no memory
    pub fn is_empty(&self) -> (r: bool)
        ensures
            r == (self.spec_memory() == NULL_HANDLE),
    {
        self.i_memory == NULL_HANDLE
    }

    /// Size in bytes
    pub fn size(&self) -> (r: u64)
        ensures
            r == self.spec_size(),
    {
        self.i_size
    }

    /// Memory properties
    pub fn flags(&self) -> (r: MemoryProperty)
        ensures
            r == self.spec_flags(),
    {
        self.i_flags
    }

    /// Whether host writes must be flushed to reach the device
    pub fn needs_flush(&self) -> (r: bool)
        ensures
            r == spec_needs_flush(self.spec_flags()),
    {
        needs_flush(self.i_flags)
    }
}

/// Aligned memory that holds the elements of a layout.
///
/// Each element is aligned at least for the device's memory mapping alignment; views
/// give access to single elements.
#[derive(Debug)]
pub struct Memory {
    i_layout: Layout,
    i_memory: Region,
}

impl Memory {
    /// The region holds the whole allocation of the layout.
    #[verifier::type_invariant]
    spec fn region_holds_layout(&self) -> bool {
        self.i_memory.spec_size() >= self.i_layout.alloc_size
    }

    pub closed spec fn spec_layout(&self) -> Layout { self.i_layout }
    pub closed spec fn spec_region(&self) -> &Region { &self.i_memory }

    /// Memory made of a layout and the region its elements were bound to, which holds the
    /// whole allocation of the layout
    pub fn new(layout: Layout, region: Region) -> (m: Memory)
        requires
            region.spec_size() >= layout.alloc_size,
        ensures
            m.spec_layout() == layout,
            *m.spec_region() == region,
    {
        Memory { i_layout: layout, i_memory: region }
    }

    /// Whole size of the memory in bytes
    pub fn size(&self) -> (r: u64)
        ensures
            r == self.spec_region().spec_size(),
            r >= self.spec_layout().alloc_size,
    {
        proof { use_type_invariant(self); }
        self.i_memory.size()
    }

    /// Layout of the elements
    pub fn layout(&self) -> (r: &Layout)
        ensures
            *r == self.spec_layout(),
    {
        &self.i_layout
    }

    /// Region of device memory
    pub fn region(&self) -> (r: &Region)
        ensures
            *r == *self.spec_region(),
    {
        &self.i_memory
    }

    /// Record the view that was created for image element `i`.
    pub fn set_image_view(&mut self, i: usize, view: Handle)
        requires
            i < old(self).spec_layout().elements@.len(),
        ensures
            final(self).spec_layout().elements@ == old(self).spec_layout().elements@.update(
                i as int,
                with_image_view(old(self).spec_layout().elements@[i as int], view),
            ),
            final(self).spec_layout().requested_size == old(self).spec_layout().requested_size,
            final(self).spec_layout().alloc_size == old(self).spec_layout().alloc_size,
            final(self).spec_layout().memory_bits == old(self).spec_layout().memory_bits,
            *final(self).spec_region() == *old(self).spec_region(),
    {
        proof { use_type_invariant(&*self); }
        let mut layout = Layout { elements: Vec::new(), requested_size: 0, alloc_size: 0, memory_bits: 0 };
        std::mem::swap(&mut layout, &mut self.i_layout);
        layout.set_image_view(i, view);
        self.i_layout = layout;
    }
}

/// Element `index` of the memory's layout.
pub open spec fn view_element(memory: Memory, index: usize) -> crate::layout::LayoutElement {
    memory.spec_layout().elements@[index as int]
}

/// `BufferView` gives access to one buffer element of a [`Memory`].
///
/// Typically only [`memory`](Self::memory) and [`index`](Self::index) are implemented;
/// the element must exist and be a buffer.
pub trait BufferView: Copy + Clone {
    spec fn spec_memory(&self) -> Memory;

    spec fn spec_index(&self) -> usize;

    fn memory(&self) -> (r: &Memory)
        ensures
            *r == self.spec_memory();

    fn index(&self) -> (r: usize)
        ensures
            r == self.spec_index();

    /// Offset of the buffer in bytes
    fn offset(&self) -> (r: u64)
        requires
            self.spec_index() < self.spec_memory().spec_layout().elements@.len(),
        ensures
            r == element_offset(view_element(self.spec_memory(), self.spec_index())),
    {
        self.memory().layout().offset(self.index())
    }

    /// Requested size of the buffer in bytes
    fn size(&self) -> (r: u64)
        requires
            self.spec_index() < self.spec_memory().spec_layout().elements@.len(),
        ensures
            r == element_size(view_element(self.spec_memory(), self.spec_index())),
    {
        self.memory().layout().size(self.index())
    }

    /// Size of the buffer with respect to the alignment in bytes
    fn allocated_size(&self) -> (r: u64)
        requires
            self.spec_index() < self.spec_memory().spec_layout().elements@.len(),
        ensures
            r == element_allocated_size(view_element(self.spec_memory(), self.spec_index())),
    {
        self.memory().layout().allocated_size(self.index())
    }

    /// Handle of the buffer
    fn buffer(&self) -> (r: Handle)
        requires
            self.spec_index() < self.spec_memory().spec_layout().elements@.len(),
            view_element(self.spec_memory(), self.spec_index()) is Buffer,
        ensures
            r == view_element(self.spec_memory(), self.spec_index())->vk_buffer,
    {
        self.memory().layout().buffer(self.index())
    }
}

/// `ImageView` gives access to one image element of a [`Memory`].
///
/// Typically only [`memory`](Self::memory) and [`index`](Self::index) are implemented;
/// the element must exist and be an image.
pub trait ImageView: Copy + Clone {
    spec fn spec_memory(&self) -> Memory;

    spec fn spec_index(&self) -> usize;

    fn memory(&self) -> (r: &Memory)
        ensures
            *r == self.spec_memory();

    fn index(&self) -> (r: usize)
        ensures
            r == self.spec_index();

    /// Offset of the image in bytes
    fn offset(&self) -> (r: u64)
        requires
            self.spec_index() < self.spec_memory().spec_layout().elements@.len(),
        ensures
            r == element_offset(view_element(self.spec_memory(), self.spec_index())),
    {
        self.memory().layout().offset(self.index())
    }

    /// Size of the image with respect to the alignment in bytes
    fn allocated_size(&self) -> (r: u64)
        requires
            self.spec_index() < self.spec_memory().spec_layout().elements@.len(),
        ensures
            r == element_allocated_size(view_element(self.spec_memory(), self.spec_index())),
    {
        self.memory().layout().allocated_size(self.index())
    }

    /// Image extent
    fn extent(&self) -> (r: Extent3D)
        requires
            self.spec_index() < self.spec_memory().spec_layout().elements@.len(),
            view_element(self.spec_memory(), self.spec_index()) is Image,
        ensures
            r == view_element(self.spec_memory(), self.spec_index())->extent,
    {
        self.memory().layout().extent(self.index())
    }

    /// Image aspect; for swapchain images the color aspect
    fn aspect(&self) -> (r: u32)
        requires
            self.spec_index() < self.spec_memory().spec_layout().elements@.len(),
            view_element(self.spec_memory(), self.spec_index()) is Image,
        ensures
            r == view_element(self.spec_memory(), self.spec_index())->subresource.aspect_mask,
    {
        self.memory().layout().subresource(self.index()).aspect_mask
    }

    /// Image format
    fn format(&self) -> (r: i32)
        requires
            self.spec_index() < self.spec_memory().spec_layout().elements@.len(),
            view_element(self.spec_memory(), self.spec_index()) is Image,
        ensures
            r == view_element(self.spec_memory(), self.spec_index())->format,
    {
        self.memory().layout().format(self.index())
    }

    /// Handle of the image
    fn image(&self) -> (r: Handle)
        requires
            self.spec_index() < self.spec_memory().spec_layout().elements@.len(),
            view_element(self.spec_memory(), self.spec_index()) is Image,
        ensures
            r == view_element(self.spec_memory(), self.spec_index())->vk_image,
    {
        self.memory().layout().image(self.index())
    }

    /// Handle of the image view
    fn image_view(&self) -> (r: Handle)
        requires
            self.spec_index() < self.spec_memory().spec_layout().elements@.len(),
            view_element(self.spec_memory(), self.spec_index()) is Image,
        ensures
            r == view_element(self.spec_memory(), self.spec_index())->vk_image_view,
    {
        self.memory().layout().image_view(self.index())
    }

    /// Subresource range of the image
    fn subresource(&self) -> (r: ImageSubresourceRange)
        requires
            self.spec_index() < self.spec_memory().spec_layout().elements@.len(),
            view_element(self.spec_memory(), self.spec_index()) is Image,
        ensures
            r == view_element(self.spec_memory(), self.spec_index())->subresource,
    {
        self.memory().layout().subresource(self.index())
    }
}

/// "Pointer-like" struct for a buffer element
#[derive(Debug, Clone, Copy)]
pub struct RefView<'a> {
    i_memory: &'a Memory,
    i_index: usize,
}

impl<'a> RefView<'a> {
    /// View of element `index` of `storage`
    pub fn new(storage: &'a Memory, index: usize) -> (r: RefView<'a>)
        ensures
            r.spec_memory() == *storage,
            r.spec_index() == index,
    {
        RefView { i_memory: storage, i_index: index }
    }
}

impl<'a> BufferView for RefView<'a> {
    closed spec fn spec_memory(&self) -> Memory { *self.i_memory }

    closed spec fn spec_index(&self) -> usize { self.i_index }

    fn memory(&self) -> (r: &Memory) {
        self.i_memory
    }

    fn index(&self) -> (r: usize) {
        self.i_index
    }
}

/// "Pointer-like" struct for an image element
#[derive(Debug, Clone, Copy)]
pub struct RefImageView<'a> {
    i_memory: &'a Memory,
    i_index: usize,
}

impl<'a> RefImageView<'a> {
    /// View of element `index` of `storage`
    pub fn new(storage: &'a Memory, index: usize) -> (r: RefImageView<'a>)
        ensures
            r.spec_memory() == *storage,
            r.spec_index() == index,
    {
        RefImageView { i_memory: storage, i_index: index }
    }
}

impl<'a> ImageView for RefImageView<'a> {
    closed spec fn spec_memory(&self) -> Memory { *self.i_memory }

    closed spec fn spec_index(&self) -> usize { self.i_index }

    fn memory(&self) -> (r: &Memory) {
        self.i_memory
    }

    fn index(&self) -> (r: usize) {
        self.i_index
    }
}

/// Configuration of a single buffer with its own memory
#[derive(Debug)]
pub struct MemoryCfg<'a> {
    pub size: u64,
    pub properties: MemoryProperty,
    pub shared_access: bool,
    pub transfer_src: bool,
    pub transfer_dst: bool,
    pub queue_families: &'a [u32],
}

/// Buffer with a memory allocation of its own
#[derive(Debug)]
pub struct BaseStorage {
    i_device_memory: Handle,
    i_buffer: Handle,
    i_size: u64,
    i_flags: MemoryProperty,
}

impl BaseStorage {
    pub closed spec fn spec_size(&self) -> u64 { self.i_size }
    pub closed spec fn spec_buffer(&self) -> Handle { self.i_buffer }
    pub closed spec fn spec_memory(&self) -> Handle { self.i_device_memory }
    pub closed spec fn spec_flags(&self) -> MemoryProperty { self.i_flags }

    /// Buffer `buffer` of `size` bytes bound to `device_memory` with properties `flags`
    pub fn new(device_memory: Handle, buffer: Handle, size: u64, flags: MemoryProperty) -> (s: BaseStorage)
        ensures
            s.spec_memory() == device_memory,
            s.spec_buffer() == buffer,
            s.spec_size() == size,
            s.spec_flags() == flags,
    {
        BaseStorage { i_device_memory: device_memory, i_buffer: buffer, i_size: size, i_flags: flags }
    }

    /// Size of the buffer in bytes
    pub fn size(&self) -> (r: u64)
        ensures
            r == self.spec_size(),
    {
        self.i_size
    }

    /// Buffer handle
    pub fn buffer(&self) -> (r: Handle)
        ensures
            r == self.spec_buffer(),
    {
        self.i_buffer
    }

    /// Memory handle
    pub fn device_memory(&self) -> (r: Handle)
        ensures
            r == self.spec_memory(),
    {
        self.i_device_memory
    }

    /// Whether reads and writes must synchronize the mapping by hand: the memory is not
    /// coherent
    pub fn needs_sync(&self) -> (r: bool)
        ensures
            r == !bits_contain(self.spec_flags(), MEMORY_PROPERTY_HOST_COHERENT),
    {
        !memory_property_contains(self.i_flags, MEMORY_PROPERTY_HOST_COHERENT)
    }
}

/// Usage of a uniform buffer: uniform, and source or destination of transfers as asked.
pub fn uniform_usage_flags(cfg: &MemoryCfg) -> (r: BufferUsageFlags)
    ensures
        r == (BUFFER_USAGE_UNIFORM_BUFFER
            | (if cfg.transfer_src { BUFFER_USAGE_TRANSFER_SRC } else { 0u32 })
            | (if cfg.transfer_dst { BUFFER_USAGE_TRANSFER_DST } else { 0u32 })),
{
    let mut flags = BUFFER_USAGE_UNIFORM_BUFFER;

    if cfg.transfer_src {
        flags = flags | BUFFER_USAGE_TRANSFER_SRC;
    }

    if cfg.transfer_dst {
        flags = flags | BUFFER_USAGE_TRANSFER_DST;
    }

    proof {
        let s = cfg.transfer_src;
        let d = cfg.transfer_dst;
        assert(flags == (BUFFER_USAGE_UNIFORM_BUFFER
            | (if s { BUFFER_USAGE_TRANSFER_SRC } else { 0u32 })
            | (if d { BUFFER_USAGE_TRANSFER_DST } else { 0u32 }))) by (bit_vector)
            requires
                flags == (if d { (if s { 0x10u32 | 0x1u32 } else { 0x10u32 }) | 0x2u32 } else { if s { 0x10u32 | 0x1u32 } else { 0x10u32 } }),
                BUFFER_USAGE_UNIFORM_BUFFER == 0x10u32,
                BUFFER_USAGE_TRANSFER_SRC == 0x1u32,
                BUFFER_USAGE_TRANSFER_DST == 0x2u32;
    }
    flags
}

/// Memory of `desc` can hold a buffer whose memory type bits are `memory_type_bits` and
/// has the properties asked by `cfg`.
pub fn is_compatible(memory_type_bits: u32, desc: &MemoryDescription, cfg: &MemoryCfg) -> (r: bool)
    ensures
        r == spec_memory_type_matches(*desc, memory_type_bits, cfg.properties),
{
    memory_type_matches(desc, memory_type_bits, cfg.properties)
}

/// Buffer which can be used in shaders as a uniform buffer, in all stages
#[derive(Debug)]
pub struct UniformBuffer(BaseStorage);

impl UniformBuffer {
    pub closed spec fn spec_storage(&self) -> &BaseStorage { &self.0 }

    /// Uniform buffer over `storage`
    pub fn from_storage(storage: BaseStorage) -> (r: UniformBuffer)
        ensures
            *r.spec_storage() == storage,
    {
        UniformBuffer(storage)
    }

    /// Storage of the buffer
    pub fn storage(&self) -> (r: &BaseStorage)
        ensures
            *r == *self.spec_storage(),
    {
        &self.0
    }

    /// Size of the buffer in bytes
    pub fn size(&self) -> (r: u64)
        ensures
            r == self.spec_storage().spec_size(),
    {
        self.0.size()
    }

    /// Buffer handle
    pub fn buffer(&self) -> (r: Handle)
        ensures
            r == self.spec_storage().spec_buffer(),
    {
        self.0.buffer()
    }

    /// Descriptor type of the buffer: uniform buffer
    pub fn resource_type(&self) -> (r: DescriptorType)
        ensures
            r == DESCRIPTOR_TYPE_UNIFORM_BUFFER,
    {
        DESCRIPTOR_TYPE_UNIFORM_BUFFER
    }

    /// Number of buffers in the resource: one
    pub fn count(&self) -> (r: u32)
        ensures
            r == 1,
    {
        1
    }

    /// Binding of the buffer for `stage`: its type, the stage and its count
    pub fn layout(&self, stage: ShaderStage) -> (r: (DescriptorType, ShaderStage, u32))
        ensures
            r == (DESCRIPTOR_TYPE_UNIFORM_BUFFER, stage, 1u32),
    {
        (self.resource_type(), stage, self.count())
    }
}

/// Errors while creating images
#[derive(Debug, Clone, Copy, PartialEq, Eq, Structural)]
pub enum ImageError {
    GetImages,
    Creating,
    ImageView,
    NoMemoryType,
    DeviceMemory,
    Bind,
}

/// Text that describes `e`.
pub open spec fn image_error_text(e: ImageError) -> Seq<char> {
    match e {
        ImageError::GetImages => "Failed to get images from swapchain"@,
        ImageError::Creating => "Failed to create image (vkCreateImage call failed)"@,
        ImageError::ImageView => "Failed to create image view (vkCreateImageView call failed)"@,
        ImageError::NoMemoryType => "Failed to find suitable memory type for image"@,
        ImageError::DeviceMemory => "Failed to allocate memory for image"@,
        ImageError::Bind => "Failed to bind image memory"@,
    }
}

impl ImageError {
    /// Human readable description of the error
    pub fn message(&self) -> (r: &'static str)
        ensures
            r@ == image_error_text(*self),
    {
        match self {
            ImageError::GetImages => "Failed to get images from swapchain",
            ImageError::Creating => "Failed to create image (vkCreateImage call failed)",
            ImageError::ImageView => "Failed to create image view (vkCreateImageView call failed)",
            ImageError::NoMemoryType => "Failed to find suitable memory type for image",
            ImageError::DeviceMemory => "Failed to allocate memory for image",
            ImageError::Bind => "Failed to bind image memory",
        }
    }
}

/// Errors while creating a framebuffer
#[derive(Debug, Clone, Copy, PartialEq, Eq, Structural)]
pub enum FramebufferError {
    Framebuffer,
}

/// Text that describes `e`.
pub open spec fn framebuffer_error_text(e: FramebufferError) -> Seq<char> {
    "vkCreateFramebuffer call failed"@
}

impl FramebufferError {
    /// Human readable description of the error
    pub fn message(&self) -> (r: &'static str)
        ensures
            r@ == framebuffer_error_text(*self),
    {
        "vkCreateFramebuffer call failed"
    }
}

/// Framebuffer configuration: the images used as attachments in order, the extent and
/// the render pass
#[derive(Debug, Clone, Copy)]
pub struct FramebufferCfg<'a, T: ImageView> {
    pub images: &'a [T],
    pub extent: Extent2D,
    pub render_pass: Handle,
}

/// Creation information of a framebuffer (`VkFramebufferCreateInfo`)
#[derive(Debug)]
pub struct FramebufferCreateInfo {
    pub render_pass: Handle,
    pub attachments: Vec<Handle>,
    pub width: u32,
    pub height: u32,
    pub layers: u32,
}

/// Collection of images used in a render pass
#[derive(Debug, Clone, Copy, PartialEq, Eq, Structural)]
pub struct Framebuffer {
    i_frame: Handle,
    i_extent: Extent2D,
}

impl Framebuffer {
    pub closed spec fn spec_framebuffer(&self) -> Handle { self.i_frame }
    pub closed spec fn spec_extent(&self) -> Extent2D { self.i_extent }

    /// Creation information for `cfg`: the image view of every image in order, the extent and
    /// a single layer
    pub fn create_info<T: ImageView>(cfg: &FramebufferCfg<T>) -> (r: FramebufferCreateInfo)
        requires
            forall|i: int| 0 <= i < cfg.images@.len() ==> {
                &&& (#[trigger] cfg.images@[i]).spec_index() < cfg.images@[i].spec_memory().spec_layout().elements@.len()
                &&& view_element(cfg.images@[i].spec_memory(), cfg.images@[i].spec_index()) is Image
            },
        ensures
            r.render_pass == cfg.render_pass,
            r.attachments@ == Seq::new(cfg.images@.len(), |i: int|
                view_element(cfg.images@[i].spec_memory(), cfg.images@[i].spec_index())->vk_image_view),
            r.width == cfg.extent.width,
            r.height == cfg.extent.height,
            r.layers == 1,
    {
        let images = cfg.images;
        let mut views: Vec<Handle> = Vec::new();
        let n = images.len();
        let mut i: usize = 0;
        while i < n
            invariant
                n == images@.len(),
                forall|k: int| 0 <= k < images@.len() ==> {
                    &&& (#[trigger] images@[k]).spec_index() < images@[k].spec_memory().spec_layout().elements@.len()
                    &&& view_element(images@[k].spec_memory(), images@[k].spec_index()) is Image
                },
                0 <= i <= n,
                views@ == Seq::new(i as nat, |k: int|
                    view_element(images@[k].spec_memory(), images@[k].spec_index())->vk_image_view),
            decreases n - i,
        {
            let view = &images[i];
            assert(view.spec_index() < view.spec_memory().spec_layout().elements@.len());
            views.push(view.image_view());
            i = i + 1;
            assert(views@ =~= Seq::new(i as nat, |k: int|
                view_element(images@[k].spec_memory(), images@[k].spec_index())->vk_image_view));
        }
        FramebufferCreateInfo {
            render_pass: cfg.render_pass,
            attachments: views,
            width: cfg.extent.width,
            height: cfg.extent.height,
            layers: 1,
        }
    }

    /// Framebuffer `frame` of `extent`
    pub fn new(frame: Handle, extent: Extent2D) -> (r: Framebuffer)
        ensures
            r.spec_framebuffer() == frame,
            r.spec_extent() == extent,
    {
        Framebuffer { i_frame: frame, i_extent: extent }
    }

    /// Framebuffer handle
    pub fn framebuffer(&self) -> (r: Handle)
        ensures
            r == self.spec_framebuffer(),
    {
        self.i_frame
    }

    /// Extent of the framebuffer
    pub fn extent(&self) -> (r: Extent2D)
        ensures
            r == self.spec_extent(),
    {
        self.i_extent
    }
}

/// Steps of the creation of a buffer with memory of its own, in order
#[derive(Debug, Clone, Copy, PartialEq, Eq, Structural)]
pub enum StorageStep {
    /// Create the buffer
    Buffer,
    /// Allocate the memory
    DeviceMemory,
    /// Map the memory
    MapMemory,
    /// Flush the whole mapped range, then unmap
    Flush,
    /// Bind the memory to the buffer
    Bind,
}

/// Objects that a failed creation destroys
#[derive(Debug, Clone, Copy, PartialEq, Eq, Structural)]
pub enum StorageObject {
    Buffer,
    DeviceMemory,
}

/// Steps of the creation of a buffer whose memory has properties `properties`: memory that
/// the host sees without coherency is flushed once before it is bound.
pub open spec fn spec_storage_steps(properties: MemoryProperty) -> Seq<StorageStep> {
    if spec_needs_flush(properties) {
        seq![StorageStep::Buffer, StorageStep::DeviceMemory, StorageStep::MapMemory, StorageStep::Flush, StorageStep::Bind]
    } else {
        seq![StorageStep::Buffer, StorageStep::DeviceMemory, StorageStep::Bind]
    }
}

/// A buffer is created first, its memory second, and bound last; memory that the host sees
/// without coherency is mapped and flushed in between, and other memory is not.
pub proof fn lemma_storage_steps(properties: MemoryProperty)
    ensures
        spec_storage_steps(properties)[0] == StorageStep::Buffer,
        spec_storage_steps(properties)[1] == StorageStep::DeviceMemory,
        spec_storage_steps(properties).last() == StorageStep::Bind,
        spec_storage_steps(properties).contains(StorageStep::Flush) <==> spec_needs_flush(properties),
        spec_storage_steps(properties).contains(StorageStep::MapMemory) <==> spec_needs_flush(properties),
{
    let t = spec_storage_steps(properties);
    if spec_needs_flush(properties) {
        assert(t[3] == StorageStep::Flush);
        assert(t[2] == StorageStep::MapMemory);
    } else {
        assert forall|k: int| 0 <= k < t.len() implies t[k] != StorageStep::Flush && t[k] != StorageStep::MapMemory by {}
    }
}

/// Error of a failed step.
pub open spec fn spec_storage_error(step: StorageStep) -> MemoryError {
    match step {
        StorageStep::Buffer => MemoryError::Buffer,
        StorageStep::DeviceMemory => MemoryError::DeviceMemory,
        StorageStep::MapMemory => MemoryError::MapAccess,
        StorageStep::Flush => MemoryError::Flush,
        StorageStep::Bind => MemoryError::Bind,
    }
}

/// Objects destroyed, in order, when a step fails: the memory and the buffer when mapping
/// or flushing fails, the buffer when the allocation fails; nothing when binding fails.
pub open spec fn spec_storage_teardown(step: StorageStep) -> Seq<StorageObject> {
    match step {
        StorageStep::Buffer | StorageStep::Bind => seq![],
        StorageStep::DeviceMemory => seq![StorageObject::Buffer],
        StorageStep::MapMemory | StorageStep::Flush => seq![StorageObject::DeviceMemory, StorageObject::Buffer],
    }
}

/// Steps of reading or writing mapped memory
#[derive(Debug, Clone, Copy, PartialEq, Eq, Structural)]
pub enum AccessStep {
    /// Make device writes visible to the host
    Invalidate,
    /// Map the memory
    MapMemory,
    /// Make host writes visible to the device
    Flush,
    /// Unmap the memory
    Unmap,
}

/// Error of a failed access step; a failed invalidation is reported as a failed flush.
pub open spec fn spec_access_error(step: AccessStep) -> MemoryError {
    match step {
        AccessStep::Invalidate | AccessStep::Flush => MemoryError::Flush,
        _ => MemoryError::MapAccess,
    }
}

impl BaseStorage {
    /// Steps of the creation of a buffer with properties `properties`
    pub fn steps(properties: MemoryProperty) -> (r: Vec<StorageStep>)
        ensures
            r@ == spec_storage_steps(properties),
            r@[0] == StorageStep::Buffer,
            r@[1] == StorageStep::DeviceMemory,
            r@.last() == StorageStep::Bind,
            r@.contains(StorageStep::Flush) <==> spec_needs_flush(properties),
            r@.contains(StorageStep::MapMemory) <==> spec_needs_flush(properties),
    {
        let mut r: Vec<StorageStep> = Vec::new();
        r.push(StorageStep::Buffer);
        r.push(StorageStep::DeviceMemory);
        if needs_flush(properties) {
            r.push(StorageStep::MapMemory);
            r.push(StorageStep::Flush);
        }
        r.push(StorageStep::Bind);
        assert(r@ =~= spec_storage_steps(properties));
        r
    }

    /// Error and teardown when `step` fails
    pub fn failure(step: StorageStep) -> (r: (MemoryError, Vec<StorageObject>))
        ensures
            r.0 == spec_storage_error(step),
            r.1@ == spec_storage_teardown(step),
    {
        let mut teardown: Vec<StorageObject> = Vec::new();
        let error = match step {
            StorageStep::Buffer => MemoryError::Buffer,
            StorageStep::DeviceMemory => {
                teardown.push(StorageObject::Buffer);
                MemoryError::DeviceMemory
            },
            StorageStep::MapMemory => {
                teardown.push(StorageObject::DeviceMemory);
                teardown.push(StorageObject::Buffer);
                MemoryError::MapAccess
            },
            StorageStep::Flush => {
                teardown.push(StorageObject::DeviceMemory);
                teardown.push(StorageObject::Buffer);
                MemoryError::Flush
            },
            StorageStep::Bind => MemoryError::Bind,
        };
        assert(teardown@ =~= spec_storage_teardown(step));
        (error, teardown)
    }

    /// Allocation size and memory type index of the memory of a buffer: the size the driver
    /// asks for, from the memory type `memory`
    pub fn allocation(requirements: &MemoryRequirements, memory: &MemoryDescription) -> (r: (u64, u32))
        ensures
            r == (requirements.size, memory.spec_index()),
    {
        (requirements.size, memory.index())
    }

    /// Steps of a write: map, flush when the memory is not coherent, unmap
    pub fn write_steps(&self) -> (r: Vec<AccessStep>)
        ensures
            r@ == if !bits_contain(self.spec_flags(), MEMORY_PROPERTY_HOST_COHERENT) {
                seq![AccessStep::MapMemory, AccessStep::Flush, AccessStep::Unmap]
            } else {
                seq![AccessStep::MapMemory, AccessStep::Unmap]
            },
    {
        let mut r: Vec<AccessStep> = Vec::new();
        r.push(AccessStep::MapMemory);
        if self.needs_sync() {
            r.push(AccessStep::Flush);
        }
        r.push(AccessStep::Unmap);
        assert(r@ =~= if !bits_contain(self.spec_flags(), MEMORY_PROPERTY_HOST_COHERENT) {
            seq![AccessStep::MapMemory, AccessStep::Flush, AccessStep::Unmap]
        } else {
            seq![AccessStep::MapMemory, AccessStep::Unmap]
        });
        r
    }

    /// Steps of a read: invalidate when the memory is not coherent, map, unmap
    pub fn read_steps(&self) -> (r: Vec<AccessStep>)
        ensures
            r@ == if !bits_contain(self.spec_flags(), MEMORY_PROPERTY_HOST_COHERENT) {
                seq![AccessStep::Invalidate, AccessStep::MapMemory, AccessStep::Unmap]
            } else {
                seq![AccessStep::MapMemory, AccessStep::Unmap]
            },
    {
        let mut r: Vec<AccessStep> = Vec::new();
        if self.needs_sync() {
            r.push(AccessStep::Invalidate);
        }
        r.push(AccessStep::MapMemory);
        r.push(AccessStep::Unmap);
        assert(r@ =~= if !bits_contain(self.spec_flags(), MEMORY_PROPERTY_HOST_COHERENT) {
            seq![AccessStep::Invalidate, AccessStep::MapMemory, AccessStep::Unmap]
        } else {
            seq![AccessStep::MapMemory, AccessStep::Unmap]
        });
        r
    }

    /// Error of a failed access step
    pub fn access_error(step: AccessStep) -> (r: MemoryError)
        ensures
            r == spec_access_error(step),
    {
        match step {
            AccessStep::Invalidate | AccessStep::Flush => MemoryError::Flush,
            _ => MemoryError::MapAccess,
        }
    }
}

/// Memory type `m` is one that a uniform buffer may take: `f` answered `accepted` for it and
/// it holds buffers with memory type bits `memory_type_bits` and the properties of `cfg`.
pub open spec fn uniform_candidate<F: Fn(&MemoryDescription) -> bool>(
    f: F,
    m: MemoryDescription,
    memory_type_bits: u32,
    properties: MemoryProperty,
    accepted: bool,
) -> bool {
    f.ensures((&m,), accepted) && accepted && spec_memory_type_matches(m, memory_type_bits, properties)
}

/// `f` may have rejected memory type `m`, or `m` cannot hold the buffer.
pub open spec fn uniform_rejected<F: Fn(&MemoryDescription) -> bool>(
    f: F,
    m: MemoryDescription,
    memory_type_bits: u32,
    properties: MemoryProperty,
) -> bool {
    !spec_memory_type_matches(m, memory_type_bits, properties) || f.ensures((&m,), false)
}

/// `r` is what a search of `memory` for the first uniform buffer candidate may give: the
/// first candidate, every memory type before it rejected; or nothing, every type rejected.
pub open spec fn found_uniform<F: Fn(&MemoryDescription) -> bool>(
    memory: Seq<MemoryDescription>,
    f: F,
    memory_type_bits: u32,
    properties: MemoryProperty,
    r: Option<MemoryDescription>,
) -> bool {
    match r {
        Some(m) => exists|i: int| {
            &&& 0 <= i < memory.len()
            &&& m == memory[i]
            &&& uniform_candidate(f, memory[i], memory_type_bits, properties, true)
            &&& forall|j: int| 0 <= j < i ==> uniform_rejected(f, #[trigger] memory[j], memory_type_bits, properties)
        },
        None => forall|j: int| 0 <= j < memory.len() ==> uniform_rejected(f, #[trigger] memory[j], memory_type_bits, properties),
    }
}

/// `r` is what a filter of `memory` for uniform buffer candidates may give: in order, the
/// candidates it kept, every memory type it dropped rejected.
pub open spec fn filtered_uniform<F: Fn(&MemoryDescription) -> bool>(
    memory: Seq<MemoryDescription>,
    f: F,
    memory_type_bits: u32,
    properties: MemoryProperty,
    r: Seq<MemoryDescription>,
) -> bool {
    exists|keep: Seq<bool>| {
        &&& keep.len() == memory.len()
        &&& forall|i: int| 0 <= i < keep.len() ==> (#[trigger] keep[i] ==>
            uniform_candidate(f, memory[i], memory_type_bits, properties, true))
        &&& forall|i: int| 0 <= i < keep.len() ==> (!#[trigger] keep[i] ==>
            uniform_rejected(f, memory[i], memory_type_bits, properties))
        &&& r == select_by(memory, keep)
    }
}

/// `f` answers each memory type one way only.
pub open spec fn answers_once<F: Fn(&MemoryDescription) -> bool>(memory: Seq<MemoryDescription>, f: F) -> bool {
    forall|i: int| 0 <= i < memory.len() ==>
        !(f.ensures((&memory[i],), true) && #[trigger] f.ensures((&memory[i],), false))
}

/// Nothing is selected when nothing is kept.
proof fn lemma_select_none<T>(items: Seq<T>, keep: Seq<bool>)
    requires
        keep.len() == items.len(),
        forall|j: int| 0 <= j < keep.len() ==> !#[trigger] keep[j],
    ensures
        select_by(items, keep).len() == 0,
    decreases items.len(),
{
    if items.len() > 0 {
        assert(!keep[keep.len() - 1]);
        lemma_select_none(items.drop_last(), keep.drop_last());
    }
}

/// The first selected item is the first kept one.
proof fn lemma_select_first<T>(items: Seq<T>, keep: Seq<bool>, i: int)
    requires
        keep.len() == items.len(),
        0 <= i < keep.len(),
        keep[i],
        forall|j: int| 0 <= j < i ==> !#[trigger] keep[j],
    ensures
        select_by(items, keep).len() > 0,
        select_by(items, keep)[0] == items[i],
    decreases items.len(),
{
    let n = items.len();
    let rest = select_by(items.drop_last(), keep.drop_last());
    if i == n - 1 {
        lemma_select_none(items.drop_last(), keep.drop_last());
        assert(keep.last());
        assert(select_by(items, keep) == rest.push(items.last()));
    } else {
        lemma_select_first(items.drop_last(), keep.drop_last(), i);
    }
}

/// With a filter that answers each memory type one way, the search gives the first memory
/// type that the filter gives, and nothing exactly when the filter gives nothing.
pub proof fn lemma_find_is_first_of_filter<F: Fn(&MemoryDescription) -> bool>(
    memory: Seq<MemoryDescription>,
    f: F,
    memory_type_bits: u32,
    properties: MemoryProperty,
    found: Option<MemoryDescription>,
    filtered: Seq<MemoryDescription>,
)
    requires
        answers_once(memory, f),
        found_uniform(memory, f, memory_type_bits, properties, found),
        filtered_uniform(memory, f, memory_type_bits, properties, filtered),
    ensures
        match found {
            Some(m) => filtered.len() > 0 && filtered[0] == m,
            None => filtered.len() == 0,
        },
{
    let keep = choose|keep: Seq<bool>| {
        &&& keep.len() == memory.len()
        &&& forall|i: int| 0 <= i < keep.len() ==> (#[trigger] keep[i] ==>
            uniform_candidate(f, memory[i], memory_type_bits, properties, true))
        &&& forall|i: int| 0 <= i < keep.len() ==> (!#[trigger] keep[i] ==>
            uniform_rejected(f, memory[i], memory_type_bits, properties))
        &&& filtered == select_by(memory, keep)
    };
    // A kept memory type was accepted, so it cannot have been rejected
    assert forall|j: int| 0 <= j < keep.len() && uniform_rejected(f, #[trigger] memory[j], memory_type_bits, properties)
        implies !keep[j] by {
        if keep[j] {
            assert(uniform_candidate(f, memory[j], memory_type_bits, properties, true));
            assert(!(f.ensures((&memory[j],), true) && f.ensures((&memory[j],), false)));
        }
    }
    match found {
        Some(m) => {
            let i = choose|i: int| {
                &&& 0 <= i < memory.len()
                &&& m == memory[i]
                &&& uniform_candidate(f, memory[i], memory_type_bits, properties, true)
                &&& forall|j: int| 0 <= j < i ==> uniform_rejected(f, #[trigger] memory[j], memory_type_bits, properties)
            };
            if !keep[i] {
                assert(uniform_rejected(f, memory[i], memory_type_bits, properties));
                assert(!(f.ensures((&memory[i],), true) && f.ensures((&memory[i],), false)));
            }
            assert forall|j: int| 0 <= j < i implies !#[trigger] keep[j] by {
                assert(uniform_rejected(f, memory[j], memory_type_bits, properties));
            }
            lemma_select_first(memory, keep, i);
        },
        None => {
            assert forall|j: int| 0 <= j < keep.len() implies !#[trigger] keep[j] by {
                assert(uniform_rejected(f, memory[j], memory_type_bits, properties));
            }
            lemma_select_none(memory, keep);
        },
    }
}

impl UniformBuffer {
    /// Uniform buffer of `cfg` over the buffer and memory created for it, `(device memory,
    /// buffer)`, or the error of their creation: the buffer holds `cfg.size` bytes with the
    /// properties of `cfg`
    pub fn allocate(cfg: &MemoryCfg, created: Result<(Handle, Handle), MemoryError>) -> (r: Result<UniformBuffer, MemoryError>)
        ensures
            match created {
                Ok((memory, buffer)) => r matches Ok(u) && {
                    &&& u.spec_storage().spec_memory() == memory
                    &&& u.spec_storage().spec_buffer() == buffer
                    &&& u.spec_storage().spec_size() == cfg.size
                    &&& u.spec_storage().spec_flags() == cfg.properties
                },
                Err(e) => r == Err::<UniformBuffer, MemoryError>(e),
            },
    {
        match created {
            Ok((memory, buffer)) => Ok(UniformBuffer(BaseStorage::new(memory, buffer, cfg.size, cfg.properties))),
            Err(e) => Err(e),
        }
    }

    /// First memory type of `hw` that `f` accepts and that can hold a uniform buffer of `cfg`,
    /// whose memory type bits are `memory_type_bits`
    pub fn find_memory<'a, T: Fn(&MemoryDescription) -> bool>(
        hw: &'a HWDevice,
        f: T,
        memory_type_bits: u32,
        cfg: &MemoryCfg,
    ) -> (r: Option<&'a MemoryDescription>)
        requires
            callable_on_all(hw.spec_memory(), f),
        ensures
            found_uniform(hw.spec_memory(), f, memory_type_bits, cfg.properties, match r {
                Some(m) => Some(*m),
                None => None,
            }),
    {
        let memories = hw.memory();
        let n = memories.len();
        let mut i: usize = 0;
        while i < n
            invariant
                n == hw.spec_memory().len(),
                memories@ == hw.spec_memory(),
                callable_on_all(hw.spec_memory(), f),
                0 <= i <= n,
                forall|j: int| 0 <= j < i ==>
                    !spec_memory_type_matches(#[trigger] hw.spec_memory()[j], memory_type_bits, cfg.properties)
                    || f.ensures((&hw.spec_memory()[j],), false),
            decreases n - i,
        {
            let m = &memories[i];
            assert(f.requires((&hw.spec_memory()[i as int],)));
            let accepted = f(m);
            if accepted && is_compatible(memory_type_bits, m, cfg) {
                return Some(m);
            }
            i = i + 1;
        }
        None
    }

    /// All memory types of `hw` that `f` accepts and that can hold a uniform buffer of `cfg`,
    /// whose memory type bits are `memory_type_bits`, in order
    pub fn filter_memory<T: Fn(&MemoryDescription) -> bool>(
        hw: &HWDevice,
        f: T,
        memory_type_bits: u32,
        cfg: &MemoryCfg,
    ) -> (r: Vec<MemoryDescription>)
        requires
            callable_on_all(hw.spec_memory(), f),
        ensures
            filtered_uniform(hw.spec_memory(), f, memory_type_bits, cfg.properties, r@),
    {
        let memories = hw.memory();
        let n = memories.len();
        let mut result: Vec<MemoryDescription> = Vec::new();
        let mut i: usize = 0;
        let ghost mut keep: Seq<bool> = Seq::empty();
        while i < n
            invariant
                n == hw.spec_memory().len(),
                memories@ == hw.spec_memory(),
                callable_on_all(hw.spec_memory(), f),
                0 <= i <= n,
                keep.len() == i,
                forall|k: int| 0 <= k < i ==> (#[trigger] keep[k] ==>
                    uniform_candidate(f, hw.spec_memory()[k], memory_type_bits, cfg.properties, true)),
                forall|k: int| 0 <= k < i ==> (!#[trigger] keep[k] ==>
                    !spec_memory_type_matches(hw.spec_memory()[k], memory_type_bits, cfg.properties)
                    || f.ensures((&hw.spec_memory()[k],), false)),
                result@ == select_by(hw.spec_memory().subrange(0, i as int), keep),
            decreases n - i,
        {
            let m = &memories[i];
            assert(f.requires((&hw.spec_memory()[i as int],)));
            let accepted = f(m);
            let take = accepted && is_compatible(memory_type_bits, m, cfg);
            proof {
                assert(hw.spec_memory().subrange(0, i + 1).drop_last() == hw.spec_memory().subrange(0, i as int));
                assert(keep.push(take).drop_last() == keep);
                keep = keep.push(take);
            }
            if take {
                result.push(*m);
            }
            i = i + 1;
        }
        proof {
            assert(hw.spec_memory().subrange(0, n as int) == hw.spec_memory());
        }
        result
    }

    /// Steps of a write into the buffer; see [`BaseStorage::write_steps`]
    pub fn write(&self) -> (r: Vec<AccessStep>)
        ensures
            r@ == if !bits_contain(self.spec_storage().spec_flags(), MEMORY_PROPERTY_HOST_COHERENT) {
                seq![AccessStep::MapMemory, AccessStep::Flush, AccessStep::Unmap]
            } else {
                seq![AccessStep::MapMemory, AccessStep::Unmap]
            },
    {
        self.0.write_steps()
    }

    /// Steps of a read of the buffer; see [`BaseStorage::read_steps`]
    pub fn read(&self) -> (r: Vec<AccessStep>)
        ensures
            r@ == if !bits_contain(self.spec_storage().spec_flags(), MEMORY_PROPERTY_HOST_COHERENT) {
                seq![AccessStep::Invalidate, AccessStep::MapMemory, AccessStep::Unmap]
            } else {
                seq![AccessStep::MapMemory, AccessStep::Unmap]
            },
    {
        self.0.read_steps()
    }
}

impl Region {
    /// Steps of the allocation of memory of type `desc`: allocate, then map and flush once
    /// when the host sees the memory without coherency
    pub fn allocation_steps(desc: &MemoryDescription) -> (r: Vec<StorageStep>)
        ensures
            r@ == if spec_needs_flush(desc.spec_flags()) {
                seq![StorageStep::DeviceMemory, StorageStep::MapMemory, StorageStep::Flush]
            } else {
                seq![StorageStep::DeviceMemory]
            },
    {
        let mut r: Vec<StorageStep> = Vec::new();
        r.push(StorageStep::DeviceMemory);
        if needs_flush(desc.flags()) {
            r.push(StorageStep::MapMemory);
            r.push(StorageStep::Flush);
        }
        assert(r@ =~= if spec_needs_flush(desc.spec_flags()) {
            seq![StorageStep::DeviceMemory, StorageStep::MapMemory, StorageStep::Flush]
        } else {
            seq![StorageStep::DeviceMemory]
        });
        r
    }

    /// Error of a failed allocation step, and whether the allocated memory must be freed
    pub fn allocation_failure(step: StorageStep) -> (r: (MemoryError, bool))
        requires
            step == StorageStep::DeviceMemory || step == StorageStep::MapMemory || step == StorageStep::Flush,
        ensures
            r == (spec_storage_error(step), step != StorageStep::DeviceMemory),
    {
        match step {
            StorageStep::DeviceMemory => (MemoryError::DeviceMemory, false),
            StorageStep::MapMemory => (MemoryError::MapAccess, true),
            _ => (MemoryError::Flush, true),
        }
    }

    /// Steps of an access to part of the region: map, flush when the host sees the memory
    /// without coherency, unmap
    pub fn access_steps(&self) -> (r: Vec<AccessStep>)
        ensures
            r@ == if spec_needs_flush(self.spec_flags()) {
                seq![AccessStep::MapMemory, AccessStep::Flush, AccessStep::Unmap]
            } else {
                seq![AccessStep::MapMemory, AccessStep::Unmap]
            },
    {
        let mut r: Vec<AccessStep> = Vec::new();
        r.push(AccessStep::MapMemory);
        if self.needs_flush() {
            r.push(AccessStep::Flush);
        }
        r.push(AccessStep::Unmap);
        assert(r@ =~= if spec_needs_flush(self.spec_flags()) {
            seq![AccessStep::MapMemory, AccessStep::Flush, AccessStep::Unmap]
        } else {
            seq![AccessStep::MapMemory, AccessStep::Unmap]
        });
        r
    }
}

/// Step, after the elements of a layout were created, at which its allocation can fail
#[derive(Debug, Clone, Copy, PartialEq, Eq, Structural)]
pub enum AllocationStep {
    /// Finding a memory type that suits every element
    MemoryType,
    /// Allocating the device memory, which failed with the given error
    DeviceMemory(MemoryError),
    /// Binding element `i` to the memory, after every element before it was bound and
    /// every image before it got its view
    Bind(usize),
    /// Creating the view of image element `i`, after it was bound
    View(usize),
}

/// Object made while allocating the memory of a layout
#[derive(Debug, Clone, Copy, PartialEq, Eq, Structural)]
pub enum AllocationObject {
    /// Buffer or image of element `i`
    Element(usize),
    /// View of image element `i`
    View(usize),
    /// The device memory
    DeviceMemory,
}

/// Elements `0 .. n`, newest first.
pub open spec fn elements_newest_first(n: nat) -> Seq<AllocationObject> {
    Seq::new(n, |k: int| AllocationObject::Element((n - 1 - k) as usize))
}

/// Views of the image elements among `0 .. i`, newest first.
pub open spec fn views_newest_first(elements: Seq<LayoutElement>, i: nat) -> Seq<AllocationObject>
    decreases i,
{
    if i == 0 {
        Seq::empty()
    } else {
        let head = if elements[i - 1] is Image {
            seq![AllocationObject::View((i - 1) as usize)]
        } else {
            Seq::<AllocationObject>::empty()
        };
        head + views_newest_first(elements, (i - 1) as nat)
    }
}

/// Error reported when creating the element of configuration `cfg` fails.
pub open spec fn spec_element_error(cfg: LayoutElementCfg) -> MemoryError {
    match cfg {
        LayoutElementCfg::Buffer { .. } => MemoryError::Buffer,
        LayoutElementCfg::Image { .. } => MemoryError::Image,
    }
}

/// Error reported when `step` fails for `elements`.
pub open spec fn spec_allocation_error(step: AllocationStep, elements: Seq<LayoutElement>) -> MemoryError {
    match step {
        AllocationStep::MemoryType => MemoryError::NoSuitableMemory,
        AllocationStep::DeviceMemory(e) => e,
        AllocationStep::Bind(i) => if elements[i as int] is Image { MemoryError::ImageBind } else { MemoryError::Bind },
        AllocationStep::View(_) => MemoryError::ImageView,
    }
}

/// Objects destroyed, in order, when `step` fails for `elements`: before the memory exists,
/// every element, newest first; once it exists, the views made so far, newest first, every
/// element, newest first, and the memory last.
pub open spec fn spec_allocation_teardown(step: AllocationStep, elements: Seq<LayoutElement>) -> Seq<AllocationObject> {
    match step {
        AllocationStep::MemoryType | AllocationStep::DeviceMemory(_) => elements_newest_first(elements.len()),
        AllocationStep::Bind(i) | AllocationStep::View(i) =>
            views_newest_first(elements, i as nat) + elements_newest_first(elements.len()).push(AllocationObject::DeviceMemory),
    }
}

/// Elements `0 .. n`, newest first, as a vector.
fn push_elements_newest_first(r: &mut Vec<AllocationObject>, n: usize)
    ensures
        final(r)@ == old(r)@ + elements_newest_first(n as nat),
{
    let ghost start = r@;
    let mut k: usize = n;
    while k > 0
        invariant
            k <= n,
            r@ == start + Seq::new((n - k) as nat, |m: int| AllocationObject::Element((n - 1 - m) as usize)),
        decreases k,
    {
        k = k - 1;
        r.push(AllocationObject::Element(k));
        assert(r@ =~= start + Seq::new((n - k) as nat, |m: int| AllocationObject::Element((n - 1 - m) as usize)));
    }
    assert(r@ =~= start + elements_newest_first(n as nat));
}

/// Error of a failed element creation, and the elements to destroy, newest first: the
/// `created` ones made before it
pub fn element_failure(cfg: &LayoutElementCfg, created: usize) -> (r: (MemoryError, Vec<AllocationObject>))
    ensures
        r.0 == spec_element_error(*cfg),
        r.1@ == elements_newest_first(created as nat),
{
    let error = match cfg {
        LayoutElementCfg::Buffer { .. } => MemoryError::Buffer,
        LayoutElementCfg::Image { .. } => MemoryError::Image,
    };
    let mut teardown: Vec<AllocationObject> = Vec::new();
    push_elements_newest_first(&mut teardown, created);
    assert(teardown@ =~= elements_newest_first(created as nat));
    (error, teardown)
}

/// Error of a failed allocation step of `layout`, and the objects to destroy in order
pub fn allocation_failure(step: AllocationStep, layout: &Layout) -> (r: (MemoryError, Vec<AllocationObject>))
    requires
        step matches AllocationStep::Bind(i) ==> i < layout.elements@.len(),
        step matches AllocationStep::View(i) ==> i < layout.elements@.len(),
    ensures
        r.0 == spec_allocation_error(step, layout.elements@),
        r.1@ == spec_allocation_teardown(step, layout.elements@),
{
    let elements = &layout.elements;
    let n = elements.len();
    let mut teardown: Vec<AllocationObject> = Vec::new();
    match step {
        AllocationStep::MemoryType | AllocationStep::DeviceMemory(_) => {
            let error = match step {
                AllocationStep::DeviceMemory(e) => e,
                _ => MemoryError::NoSuitableMemory,
            };
            push_elements_newest_first(&mut teardown, n);
            assert(teardown@ =~= elements_newest_first(n as nat));
            (error, teardown)
        },
        AllocationStep::Bind(i) | AllocationStep::View(i) => {
            let error = match step {
                AllocationStep::Bind(_) => match elements[i] {
                    LayoutElement::Image { .. } => MemoryError::ImageBind,
                    LayoutElement::Buffer { .. } => MemoryError::Bind,
                },
                _ => MemoryError::ImageView,
            };
            let mut k: usize = i;
            while k > 0
                invariant
                    k <= i,
                    i < elements@.len(),
                    teardown@ + views_newest_first(elements@, k as nat) == views_newest_first(elements@, i as nat),
                decreases k,
            {
                let ghost before = teardown@;
                let is_image = match elements[k - 1] {
                    LayoutElement::Image { .. } => true,
                    LayoutElement::Buffer { .. } => false,
                };
                if is_image {
                    teardown.push(AllocationObject::View(k - 1));
                }
                proof {
                    let head = if elements@[k - 1] is Image {
                        seq![AllocationObject::View((k - 1) as usize)]
                    } else {
                        Seq::<AllocationObject>::empty()
                    };
                    assert(teardown@ == before + head);
                    assert(views_newest_first(elements@, k as nat) == head + views_newest_first(elements@, (k - 1) as nat));
                    assert(before + (head + views_newest_first(elements@, (k - 1) as nat))
                        =~= (before + head) + views_newest_first(elements@, (k - 1) as nat));
                }
                k = k - 1;
            }
            assert(teardown@ =~= views_newest_first(elements@, i as nat));
            push_elements_newest_first(&mut teardown, n);
            teardown.push(AllocationObject::DeviceMemory);
            assert(teardown@ =~= views_newest_first(elements@, i as nat)
                + elements_newest_first(n as nat).push(AllocationObject::DeviceMemory));
            (error, teardown)
        },
    }
}

/// `o` is the view of an element before element `i`.
pub open spec fn view_below(o: AllocationObject, i: nat) -> bool {
    match o {
        AllocationObject::View(m) => m < i,
        _ => false,
    }
}

/// Membership in the views made before element `i`: exactly the image elements before it.
proof fn lemma_views_newest_first(elements: Seq<LayoutElement>, i: nat, j: usize)
    requires
        i <= elements.len(),
        elements.len() <= usize::MAX,
    ensures
        views_newest_first(elements, i).contains(AllocationObject::View(j)) <==> (j < i && elements[j as int] is Image),
        forall|o: AllocationObject| #[trigger] views_newest_first(elements, i).contains(o) ==> o is View,
        views_newest_first(elements, i).no_duplicates(),
        forall|k: int| 0 <= k < views_newest_first(elements, i).len() ==>
            view_below(#[trigger] views_newest_first(elements, i)[k], i),
    decreases i,
{
    if i > 0 {
        lemma_views_newest_first(elements, (i - 1) as nat, j);
        let rest = views_newest_first(elements, (i - 1) as nat);
        let v = views_newest_first(elements, i);
        if elements[i - 1] is Image {
            let head = seq![AllocationObject::View((i - 1) as usize)];
            assert(v == head + rest);
            assert(v[0] == AllocationObject::View((i - 1) as usize));
            assert forall|k: int| 1 <= k < v.len() implies v[k] == rest[k - 1] by {}
            if j < i && elements[j as int] is Image {
                if j == i - 1 {
                    assert(v[0] == AllocationObject::View(j));
                } else {
                    let k = choose|k: int| 0 <= k < rest.len() && rest[k] == AllocationObject::View(j);
                    assert(v[k + 1] == rest[k]);
                }
            }
            if v.contains(AllocationObject::View(j)) {
                let k = choose|k: int| 0 <= k < v.len() && v[k] == AllocationObject::View(j);
                if k > 0 {
                    assert(rest[k - 1] == AllocationObject::View(j));
                    assert(rest.contains(AllocationObject::View(j)));
                }
            }
            assert forall|o: AllocationObject| #[trigger] v.contains(o) implies o is View by {
                let k = choose|k: int| 0 <= k < v.len() && v[k] == o;
                if k > 0 {
                    assert(rest[k - 1] == o);
                    assert(rest.contains(o));
                }
            }
            assert forall|k: int| 0 <= k < v.len() implies
                view_below(#[trigger] v[k], i) by {
                if k > 0 {
                    assert(v[k] == rest[k - 1]);
                }
            }
            assert forall|a: int, b: int| 0 <= a < v.len() && 0 <= b < v.len() && a != b implies v[a] != v[b] by {
                if a > 0 && b > 0 {
                    assert(v[a] == rest[a - 1]);
                    assert(v[b] == rest[b - 1]);
                } else if a == 0 {
                    assert(v[b] == rest[b - 1]);
                    assert(view_below(rest[b - 1], (i - 1) as nat));
                } else {
                    assert(v[a] == rest[a - 1]);
                    assert(view_below(rest[a - 1], (i - 1) as nat));
                }
            }
        } else {
            assert(v =~= rest);
        }
    }
}

/// A failed allocation leaks nothing: once the memory exists, what is destroyed is every
/// element, the view of every image element before the failing one, and the memory, each
/// once; before that, every element, each once.
pub proof fn lemma_allocation_teardown_complete(step: AllocationStep, elements: Seq<LayoutElement>, o: AllocationObject)
    requires
        elements.len() <= usize::MAX,
        step matches AllocationStep::Bind(i) ==> i < elements.len(),
        step matches AllocationStep::View(i) ==> i < elements.len(),
    ensures
        spec_allocation_teardown(step, elements).no_duplicates(),
        spec_allocation_teardown(step, elements).contains(o) <==> match o {
            AllocationObject::Element(j) => j < elements.len(),
            AllocationObject::View(j) => match step {
                AllocationStep::Bind(i) | AllocationStep::View(i) => j < i && elements[j as int] is Image,
                _ => false,
            },
            AllocationObject::DeviceMemory => step is Bind || step is View,
        },
{
    let n = elements.len();
    let es = elements_newest_first(n);
    assert forall|k: int| 0 <= k < es.len() implies (#[trigger] es[k]) == AllocationObject::Element((n - 1 - k) as usize) by {}
    assert(es.no_duplicates()) by {
        assert forall|a: int, b: int| 0 <= a < es.len() && 0 <= b < es.len() && a != b implies es[a] != es[b] by {}
    }
    if let AllocationObject::Element(j) = o {
        if j < n {
            assert(es[n - 1 - j] == o);
        }
    }
    match step {
        AllocationStep::MemoryType | AllocationStep::DeviceMemory(_) => {},
        AllocationStep::Bind(i) | AllocationStep::View(i) => {
            let vs = views_newest_first(elements, i as nat);
            let j = match o { AllocationObject::View(j) => j, _ => 0usize };
            lemma_views_newest_first(elements, i as nat, j);
            let esm = es.push(AllocationObject::DeviceMemory);
            let t = vs + esm;
            assert(t == spec_allocation_teardown(step, elements));
            assert forall|k: int| 0 <= k < esm.len() implies (#[trigger] t[vs.len() + k]) == esm[k] by {}
            assert forall|k: int| 0 <= k < vs.len() implies (#[trigger] t[k]) == vs[k] by {}
            if t.contains(o) {
                let k = choose|k: int| 0 <= k < t.len() && t[k] == o;
                if k < vs.len() {
                    assert(vs.contains(o));
                } else {
                    assert(esm[k - vs.len()] == o);
                    if k - vs.len() < es.len() {
                        assert(es[k - vs.len()] == o);
                        assert(es.contains(o));
                    }
                }
            }
            match o {
                AllocationObject::Element(jj) => {
                    if jj < n {
                        assert(t[vs.len() + (n - 1 - jj)] == o);
                    }
                },
                AllocationObject::View(jj) => {
                    if jj < i && elements[jj as int] is Image {
                        let k = choose|k: int| 0 <= k < vs.len() && vs[k] == o;
                        assert(t[k] == o);
                    }
                },
                AllocationObject::DeviceMemory => {
                    assert(t[vs.len() + n as int] == o);
                },
            }
            assert forall|a: int, b: int| 0 <= a < t.len() && 0 <= b < t.len() && a != b implies t[a] != t[b] by {
                if a < vs.len() && b < vs.len() {
                } else if a < vs.len() {
                    assert(vs[a] is View);
                    assert(vs.contains(vs[a]));
                    assert(t[b] == esm[b - vs.len()]);
                } else if b < vs.len() {
                    assert(vs.contains(vs[b]));
                    assert(t[a] == esm[a - vs.len()]);
                } else {
                    assert(t[a] == esm[a - vs.len()]);
                    assert(t[b] == esm[b - vs.len()]);
                }
            }
        },
    }
}

} // verus!
