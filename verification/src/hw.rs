//! Information about available hardware.
//!
//! Unlike the device module, `hw` represents the hardware level: queue families, memory
//! types and limits of each physical device, as the driver reported them.

use vstd::prelude::*;
use crate::flags::{
    bits_contain, queue_flags_contains, memory_property_contains, api_version_major, api_version_minor,
    api_version_patch, spec_version_major, spec_version_minor, spec_version_patch, Handle, HWType,
    MemoryProperty, QueueFlags, QUEUE_GRAPHICS, QUEUE_COMPUTE, QUEUE_TRANSFER, QUEUE_SPARSE_BINDING,
    MEMORY_PROPERTY_DEVICE_LOCAL, MEMORY_PROPERTY_HOST_VISIBLE, MEMORY_PROPERTY_HOST_COHERENT,
    MEMORY_PROPERTY_HOST_CACHED, MEMORY_PROPERTY_LAZILY_ALLOCATED, HW_TYPE_DISCRETE_GPU, HW_TYPE_INTEGRATED_GPU,
};
use crate::offset::{full_size, spec_full_size};
use crate::search::{callable_on_all, find_index, filter_copy, select_by, is_first_accepted, rejects_before};

verus! {

/// Errors while querying hardware
#[derive(Debug, Clone, Copy, PartialEq, Eq, Structural)]
pub enum HWError {
    Enumerate,
    SurfaceSupport,
}

/// Information about a single queue family.
#[derive(Debug, Clone, Copy)]
pub struct QueueFamilyDescription {
    i_index: u32,
    i_count: u32,
    i_property: QueueFlags,
    i_surface_support: bool,
}

impl QueueFamilyDescription {
    pub closed spec fn spec_index(&self) -> u32 { self.i_index }
    pub closed spec fn spec_count(&self) -> u32 { self.i_count }
    pub closed spec fn spec_flags(&self) -> QueueFlags { self.i_property }
    pub closed spec fn spec_surface_support(&self) -> bool { self.i_surface_support }

    /// Description of family `index` with `count` queues and capabilities `property`;
    /// `surface_support` is whether the family can present to the surface that was given
    /// when the hardware was polled (false when none was given).
    pub fn new(index: u32, count: u32, property: QueueFlags, surface_support: bool) -> (q: QueueFamilyDescription)
        ensures
            q.spec_index() == index,
            q.spec_count() == count,
            q.spec_flags() == property,
            q.spec_surface_support() == surface_support,
    {
        QueueFamilyDescription { i_index: index, i_count: count, i_property: property, i_surface_support: surface_support }
    }

    /// How many queues are in the family
    pub fn count(&self) -> (r: u32)
        ensures
            r == self.spec_count(),
    {
        self.i_count
    }

    /// Queue family index
    pub fn index(&self) -> (r: u32)
        ensures
            r == self.spec_index(),
    {
        self.i_index
    }

    /// Is VK_QUEUE_GRAPHICS_BIT set for the family
    pub fn is_graphics(&self) -> (r: bool)
        ensures
            r == bits_contain(self.spec_flags(), QUEUE_GRAPHICS),
    {
        queue_flags_contains(self.i_property, QUEUE_GRAPHICS)
    }

    /// Is VK_QUEUE_COMPUTE_BIT set for the family
    pub fn is_compute(&self) -> (r: bool)
        ensures
            r == bits_contain(self.spec_flags(), QUEUE_COMPUTE),
    {
        queue_flags_contains(self.i_property, QUEUE_COMPUTE)
    }

    /// Is VK_QUEUE_TRANSFER_BIT set for the family
    pub fn is_transfer(&self) -> (r: bool)
        ensures
            r == bits_contain(self.spec_flags(), QUEUE_TRANSFER),
    {
        queue_flags_contains(self.i_property, QUEUE_TRANSFER)
    }

    /// Is VK_QUEUE_SPARSE_BINDING_BIT set for the family
    pub fn is_sparce_binding(&self) -> (r: bool)
        ensures
            r == bits_contain(self.spec_flags(), QUEUE_SPARSE_BINDING),
    {
        queue_flags_contains(self.i_property, QUEUE_SPARSE_BINDING)
    }

    /// Whether the family supports the surface given when the hardware was polled;
    /// `false` when none was given.
    pub fn is_surface_supported(&self) -> (r: bool)
        ensures
            r == self.spec_surface_support(),
    {
        self.i_surface_support
    }
}

/// The family has at least one of the capabilities the library works with.
pub open spec fn spec_is_usable_family(q: QueueFamilyDescription) -> bool {
    bits_contain(q.spec_flags(), QUEUE_COMPUTE) || bits_contain(q.spec_flags(), QUEUE_GRAPHICS)
        || bits_contain(q.spec_flags(), QUEUE_TRANSFER) || bits_contain(q.spec_flags(), QUEUE_SPARSE_BINDING)
}

/// Whether a surface support query answered "supported": an error counts as unsupported.
pub fn support_from_query(query: &Result<bool, HWError>) -> (r: bool)
    ensures
        r == (*query == Ok::<bool, HWError>(true)),
{
    match query {
        Ok(true) => true,
        _ => false,
    }
}

/// One memory type of a physical device (`VkMemoryType`).
#[derive(Debug, Clone, Copy)]
pub struct MemoryType {
    pub property_flags: MemoryProperty,
    pub heap_index: u32,
}

/// Memory types and heaps of a physical device (`VkPhysicalDeviceMemoryProperties`):
/// `memory_types` holds the first `memoryTypeCount` entries and `memory_heaps` the size
/// of every heap in bytes.
#[derive(Debug, Clone)]
pub struct PhysicalDeviceMemoryProperties {
    pub memory_types: Vec<MemoryType>,
    pub memory_heaps: Vec<u64>,
}

/// Memory capabilities of one memory type.
#[derive(Debug, Clone, Copy)]
pub struct MemoryDescription {
    i_mem_index: u32,
    i_heap_size: u64,
    i_heap_index: u32,
    i_property: MemoryProperty,
}

/// Vulkan has at most 32 memory types, so a memory type index is below 32.
pub const MAX_MEMORY_TYPES: u32 = 32;

impl MemoryDescription {
    pub closed spec fn spec_index(&self) -> u32 { self.i_mem_index }
    pub closed spec fn spec_heap_size(&self) -> u64 { self.i_heap_size }
    pub closed spec fn spec_heap_index(&self) -> u32 { self.i_heap_index }
    pub closed spec fn spec_flags(&self) -> MemoryProperty { self.i_property }

    /// The memory type index fits a 32-bit memory type mask.
    #[verifier::type_invariant]
    closed spec fn inv(self) -> bool {
        self.i_mem_index < MAX_MEMORY_TYPES
    }

    /// Description of memory type `mem_index` of `properties`, with the size of its heap.
    pub fn new(properties: &PhysicalDeviceMemoryProperties, mem_index: usize) -> (m: MemoryDescription)
        requires
            mem_index < properties.memory_types@.len(),
            mem_index < MAX_MEMORY_TYPES,
            properties.memory_types@[mem_index as int].heap_index < properties.memory_heaps@.len(),
        ensures
            m.spec_index() == mem_index,
            m.spec_heap_index() == properties.memory_types@[mem_index as int].heap_index,
            m.spec_heap_size() == properties.memory_heaps@[properties.memory_types@[mem_index as int].heap_index as int],
            m.spec_flags() == properties.memory_types@[mem_index as int].property_flags,
    {
        let mem_type = properties.memory_types[mem_index];
        let heap_size = properties.memory_heaps[mem_type.heap_index as usize];
        MemoryDescription {
            i_mem_index: mem_index as u32,
            i_heap_size: heap_size,
            i_heap_index: mem_type.heap_index,
            i_property: mem_type.property_flags,
        }
    }

    /// Memory type index
    pub fn index(&self) -> (r: u32)
        ensures
            r == self.spec_index(),
            r < MAX_MEMORY_TYPES,
    {
        proof { use_type_invariant(self); }
        self.i_mem_index
    }

    /// Heap size in bytes
    pub fn heap_size(&self) -> (r: u64)
        ensures
            r == self.spec_heap_size(),
    {
        self.i_heap_size
    }

    /// Heap index
    pub fn heap_index(&self) -> (r: u32)
        ensures
            r == self.spec_heap_index(),
    {
        self.i_heap_index
    }

    /// Whether the memory satisfies every property in `flags`
    pub fn is_compatible(&self, flags: MemoryProperty) -> (r: bool)
        ensures
            r == bits_contain(self.spec_flags(), flags),
    {
        memory_property_contains(self.i_property, flags)
    }

    /// Is VK_MEMORY_PROPERTY_DEVICE_LOCAL_BIT set
    pub fn is_local(&self) -> (r: bool)
        ensures
            r == bits_contain(self.spec_flags(), MEMORY_PROPERTY_DEVICE_LOCAL),
    {
        memory_property_contains(self.i_property, MEMORY_PROPERTY_DEVICE_LOCAL)
    }

    /// Is VK_MEMORY_PROPERTY_HOST_VISIBLE_BIT set
    pub fn is_host_visible(&self) -> (r: bool)
        ensures
            r == bits_contain(self.spec_flags(), MEMORY_PROPERTY_HOST_VISIBLE),
    {
        memory_property_contains(self.i_property, MEMORY_PROPERTY_HOST_VISIBLE)
    }

    /// Is VK_MEMORY_PROPERTY_HOST_COHERENT_BIT set
    pub fn is_host_coherent(&self) -> (r: bool)
        ensures
            r == bits_contain(self.spec_flags(), MEMORY_PROPERTY_HOST_COHERENT),
    {
        memory_property_contains(self.i_property, MEMORY_PROPERTY_HOST_COHERENT)
    }

    /// Is VK_MEMORY_PROPERTY_HOST_CACHED_BIT set
    pub fn is_host_cached(&self) -> (r: bool)
        ensures
            r == bits_contain(self.spec_flags(), MEMORY_PROPERTY_HOST_CACHED),
    {
        memory_property_contains(self.i_property, MEMORY_PROPERTY_HOST_CACHED)
    }

    /// Is VK_MEMORY_PROPERTY_LAZILY_ALLOCATED_BIT set
    pub fn is_lazily_allocated(&self) -> (r: bool)
        ensures
            r == bits_contain(self.spec_flags(), MEMORY_PROPERTY_LAZILY_ALLOCATED),
    {
        memory_property_contains(self.i_property, MEMORY_PROPERTY_LAZILY_ALLOCATED)
    }

    /// Memory property flags
    pub fn flags(&self) -> (r: MemoryProperty)
        ensures
            r == self.spec_flags(),
    {
        self.i_property
    }
}

/// Limits of a physical device that the library uses (part of `VkPhysicalDeviceLimits`).
#[derive(Debug, Clone, Copy)]
pub struct DeviceLimits {
    pub min_uniform_buffer_offset_alignment: u64,
    pub min_storage_buffer_offset_alignment: u64,
    pub non_coherent_atom_size: u64,
}

/// Properties of a physical device (part of `VkPhysicalDeviceProperties`).
#[derive(Debug, Clone, Copy)]
pub struct DeviceProperties {
    pub api_version: u32,
    pub vendor_id: u32,
    pub device_id: u32,
    pub device_type: HWType,
    pub limits: DeviceLimits,
}

/// One physical device with its queue families and memory types.
#[derive(Debug, Clone)]
pub struct HWDevice {
    i_device: Handle,
    i_properties: DeviceProperties,
    i_queues: Vec<QueueFamilyDescription>,
    i_heap_info: Vec<MemoryDescription>,
}

/// Memory descriptions of the first `n` memory types.
pub open spec fn spec_memory_descriptions_match(descs: Seq<MemoryDescription>, properties: PhysicalDeviceMemoryProperties) -> bool {
    &&& descs.len() == properties.memory_types@.len()
    &&& forall|i: int| 0 <= i < descs.len() ==> {
        &&& (#[trigger] descs[i]).spec_index() == i
        &&& descs[i].spec_flags() == properties.memory_types@[i].property_flags
        &&& descs[i].spec_heap_index() == properties.memory_types@[i].heap_index
        &&& descs[i].spec_heap_size() == properties.memory_heaps@[properties.memory_types@[i].heap_index as int]
    }
}

impl HWDevice {
    pub closed spec fn spec_device(&self) -> Handle { self.i_device }
    pub closed spec fn spec_properties(&self) -> DeviceProperties { self.i_properties }
    pub closed spec fn spec_queues(&self) -> Seq<QueueFamilyDescription> { self.i_queues@ }
    pub closed spec fn spec_memory(&self) -> Seq<MemoryDescription> { self.i_heap_info@ }

    /// Description of physical device `device` from what the driver reported: its
    /// properties, all of its queue families in index order and its memory properties.
    ///
    /// Only families with at least one of the compute, graphics, transfer or sparse
    /// binding capabilities are kept; every memory type is described.
    pub fn new(
        device: Handle,
        properties: DeviceProperties,
        queue_families: &[QueueFamilyDescription],
        memory: &PhysicalDeviceMemoryProperties,
    ) -> (hw: HWDevice)
        requires
            memory.memory_types@.len() <= MAX_MEMORY_TYPES,
            forall|i: int| 0 <= i < memory.memory_types@.len()
                ==> (#[trigger] memory.memory_types@[i]).heap_index < memory.memory_heaps@.len(),
        ensures
            hw.spec_device() == device,
            hw.spec_properties() == properties,
            hw.spec_queues() == queue_families@.filter(|q: QueueFamilyDescription| spec_is_usable_family(q)),
            spec_memory_descriptions_match(hw.spec_memory(), *memory),
    {
        let mut memory_desc: Vec<MemoryDescription> = Vec::new();
        let count = memory.memory_types.len();
        let mut i: usize = 0;
        while i < count
            invariant
                count == memory.memory_types@.len(),
                count <= MAX_MEMORY_TYPES,
                forall|k: int| 0 <= k < memory.memory_types@.len()
                    ==> (#[trigger] memory.memory_types@[k]).heap_index < memory.memory_heaps@.len(),
                0 <= i <= count,
                memory_desc@.len() == i,
                forall|k: int| 0 <= k < i ==> {
                    &&& (#[trigger] memory_desc@[k]).spec_index() == k
                    &&& memory_desc@[k].spec_flags() == memory.memory_types@[k].property_flags
                    &&& memory_desc@[k].spec_heap_index() == memory.memory_types@[k].heap_index
                    &&& memory_desc@[k].spec_heap_size() == memory.memory_heaps@[memory.memory_types@[k].heap_index as int]
                },
            decreases count - i,
        {
            assert(memory.memory_types@[i as int].heap_index < memory.memory_heaps@.len());
            memory_desc.push(MemoryDescription::new(memory, i));
            i = i + 1;
        }

        let mut queue_desc: Vec<QueueFamilyDescription> = Vec::new();
        let qn = queue_families.len();
        let mut j: usize = 0;
        while j < qn
            invariant
                qn == queue_families@.len(),
                0 <= j <= qn,
                queue_desc@ == queue_families@.subrange(0, j as int).filter(|q: QueueFamilyDescription| spec_is_usable_family(q)),
            decreases qn - j,
        {
            let q = queue_families[j];
            proof {
                let pre = queue_families@.subrange(0, j as int);
                assert(queue_families@.subrange(0, j + 1) == pre.push(q));
                reveal(Seq::filter);
                assert(pre.push(q).drop_last() == pre);
            }
            if q.is_compute() || q.is_graphics() || q.is_transfer() || q.is_sparce_binding() {
                queue_desc.push(q);
            }
            j = j + 1;
        }
        proof {
            assert(queue_families@.subrange(0, qn as int) == queue_families@);
        }

        HWDevice { i_device: device, i_properties: properties, i_queues: queue_desc, i_heap_info: memory_desc }
    }

    /// Handle of the physical device
    pub fn device(&self) -> (r: Handle)
        ensures
            r == self.spec_device(),
    {
        self.i_device
    }

    /// Device type
    pub fn device_type(&self) -> (r: HWType)
        ensures
            r == self.spec_properties().device_type,
    {
        self.i_properties.device_type
    }

    /// Hardware id
    pub fn hw_id(&self) -> (r: u32)
        ensures
            r == self.spec_properties().device_id,
    {
        self.i_properties.device_id
    }

    /// Packed API version
    pub fn version(&self) -> (r: u32)
        ensures
            r == self.spec_properties().api_version,
    {
        self.i_properties.api_version
    }

    /// API major version number
    pub fn version_major(&self) -> (r: u32)
        ensures
            r == spec_version_major(self.spec_properties().api_version),
    {
        api_version_major(self.version())
    }

    /// API minor version number
    pub fn version_minor(&self) -> (r: u32)
        ensures
            r == spec_version_minor(self.spec_properties().api_version),
    {
        api_version_minor(self.version())
    }

    /// API patch version number
    pub fn version_patch(&self) -> (r: u32)
        ensures
            r == spec_version_patch(self.spec_properties().api_version),
    {
        api_version_patch(self.version())
    }

    /// Vendor id
    pub fn vendor_id(&self) -> (r: u32)
        ensures
            r == self.spec_properties().vendor_id,
    {
        self.i_properties.vendor_id
    }

    /// Whether the GPU type is discrete
    pub fn is_discrete_gpu(&self) -> (r: bool)
        ensures
            r == (self.spec_properties().device_type == HW_TYPE_DISCRETE_GPU),
    {
        self.device_type() == HW_TYPE_DISCRETE_GPU
    }

    /// Whether the GPU type is integrated
    pub fn is_integrated_gpu(&self) -> (r: bool)
        ensures
            r == (self.spec_properties().device_type == HW_TYPE_INTEGRATED_GPU),
    {
        self.device_type() == HW_TYPE_INTEGRATED_GPU
    }

    /// Whether the GPU is discrete or integrated
    pub fn is_dedicated_gpu(&self) -> (r: bool)
        ensures
            r == (self.spec_properties().device_type == HW_TYPE_DISCRETE_GPU
                || self.spec_properties().device_type == HW_TYPE_INTEGRATED_GPU),
    {
        self.is_discrete_gpu() || self.is_integrated_gpu()
    }

    /// Minimal offset alignment for uniform buffer binding
    pub fn ubo_offset(&self) -> (r: u64)
        ensures
            r == self.spec_properties().limits.min_uniform_buffer_offset_alignment,
    {
        self.i_properties.limits.min_uniform_buffer_offset_alignment
    }

    /// Buffer size with respect to the dynamic uniform buffer alignment: the requested
    /// size rounded up to a multiple of [`ubo_offset`](Self::ubo_offset); zero stays zero.
    pub fn ubo_size(&self, requested_size: u64) -> (r: u64)
        requires
            self.spec_properties().limits.min_uniform_buffer_offset_alignment > 0,
            spec_full_size(requested_size as int, self.spec_properties().limits.min_uniform_buffer_offset_alignment as int) <= u64::MAX,
        ensures
            r == spec_full_size(requested_size as int, self.spec_properties().limits.min_uniform_buffer_offset_alignment as int),
    {
        full_size(requested_size, self.ubo_offset())
    }

    /// Minimal offset alignment for storage buffer binding
    pub fn storage_offset(&self) -> (r: u64)
        ensures
            r == self.spec_properties().limits.min_storage_buffer_offset_alignment,
    {
        self.i_properties.limits.min_storage_buffer_offset_alignment
    }

    /// Memory mapping alignment
    pub fn memory_alignment(&self) -> (r: u64)
        ensures
            r == self.spec_properties().limits.non_coherent_atom_size,
    {
        self.i_properties.limits.non_coherent_atom_size
    }

    /// Available queue families
    pub fn queues(&self) -> (r: &[QueueFamilyDescription])
        ensures
            r@ == self.spec_queues(),
    {
        self.i_queues.as_slice()
    }

    /// Available memory types
    pub fn memory(&self) -> (r: &[MemoryDescription])
        ensures
            r@ == self.spec_memory(),
    {
        self.i_heap_info.as_slice()
    }

    /// All queue families that `f` accepts, in order
    pub fn filter_queue<T: Fn(&QueueFamilyDescription) -> bool>(&self, f: T) -> (r: Vec<QueueFamilyDescription>)
        requires
            callable_on_all(self.spec_queues(), f),
        ensures
            exists|keep: Seq<bool>| {
                &&& keep.len() == self.spec_queues().len()
                &&& forall|i: int| 0 <= i < keep.len() ==> #[trigger] f.ensures((&self.spec_queues()[i],), keep[i])
                &&& r@ == select_by(self.spec_queues(), keep)
            },
    {
        filter_copy(self.i_queues.as_slice(), &f)
    }

    /// First queue family that `f` accepts, or `None`
    pub fn find_first_queue<T: Fn(&QueueFamilyDescription) -> bool>(&self, f: T) -> (r: Option<&QueueFamilyDescription>)
        requires
            callable_on_all(self.spec_queues(), f),
        ensures
            match r {
                Some(q) => exists|i: int| is_first_accepted(self.spec_queues(), f, i) && *q == self.spec_queues()[i],
                None => rejects_before(self.spec_queues(), f, self.spec_queues().len() as int),
            },
    {
        match find_index(self.i_queues.as_slice(), &f) {
            Some(i) => Some(&self.i_queues[i]),
            None => None,
        }
    }

    /// All memory types that `f` accepts, in order
    pub fn filter_memory<T: Fn(&MemoryDescription) -> bool>(&self, f: T) -> (r: Vec<MemoryDescription>)
        requires
            callable_on_all(self.spec_memory(), f),
        ensures
            exists|keep: Seq<bool>| {
                &&& keep.len() == self.spec_memory().len()
                &&& forall|i: int| 0 <= i < keep.len() ==> #[trigger] f.ensures((&self.spec_memory()[i],), keep[i])
                &&& r@ == select_by(self.spec_memory(), keep)
            },
    {
        filter_copy(self.i_heap_info.as_slice(), &f)
    }

    /// First memory type that `f` accepts, or `None`
    pub fn find_first_memory<T: Fn(&MemoryDescription) -> bool>(&self, f: T) -> (r: Option<&MemoryDescription>)
        requires
            callable_on_all(self.spec_memory(), f),
        ensures
            match r {
                Some(m) => exists|i: int| is_first_accepted(self.spec_memory(), f, i) && *m == self.spec_memory()[i],
                None => rejects_before(self.spec_memory(), f, self.spec_memory().len() as int),
            },
    {
        match find_index(self.i_heap_info.as_slice(), &f) {
            Some(i) => Some(&self.i_heap_info[i]),
            None => None,
        }
    }
}

/// Helper which provides a nicer placeholder for filters: accepts everything
pub fn any<T>(_x: &T) -> (r: bool)
    ensures
        r,
{
    true
}

/// Hardware filter that accepts every device
pub fn any_hw(_dev: &HWDevice) -> (r: bool)
    ensures
        r,
{
    true
}

/// Queue family filter that accepts every family
pub fn any_queue(_queue: &QueueFamilyDescription) -> (r: bool)
    ensures
        r,
{
    true
}

/// Memory filter that accepts every memory type
pub fn any_memory(_memory: &MemoryDescription) -> (r: bool)
    ensures
        r,
{
    true
}

/// All queue families of `d` and all its memory types may be offered to the predicates.
pub open spec fn predicates_callable<U: Fn(&QueueFamilyDescription) -> bool, S: Fn(&MemoryDescription) -> bool>(
    d: HWDevice,
    queue: U,
    mem: S,
) -> bool {
    callable_on_all(d.spec_queues(), queue) && callable_on_all(d.spec_memory(), mem)
}

/// A search may pass over device `d`: the device predicate may reject it, or the queue
/// predicate may reject all of its families, or the memory predicate all of its types.
pub open spec fn may_pass_over<T: Fn(&HWDevice) -> bool, U: Fn(&QueueFamilyDescription) -> bool, S: Fn(&MemoryDescription) -> bool>(
    d: HWDevice,
    dev: T,
    queue: U,
    mem: S,
) -> bool {
    ||| dev.ensures((&d,), false)
    ||| rejects_before(d.spec_queues(), queue, d.spec_queues().len() as int)
    ||| rejects_before(d.spec_memory(), mem, d.spec_memory().len() as int)
}

/// Device `i` of `devices` was selected with its queue family `qi` and memory type `mi`:
/// the predicates accept them, `qi` and `mi` are the first accepted ones of the device,
/// and the search may pass over every device before `i`.
pub open spec fn is_first_selection<T: Fn(&HWDevice) -> bool, U: Fn(&QueueFamilyDescription) -> bool, S: Fn(&MemoryDescription) -> bool>(
    devices: Seq<HWDevice>,
    dev: T,
    queue: U,
    mem: S,
    i: int,
    qi: int,
    mi: int,
) -> bool {
    &&& 0 <= i < devices.len()
    &&& dev.ensures((&devices[i],), true)
    &&& is_first_accepted(devices[i].spec_queues(), queue, qi)
    &&& is_first_accepted(devices[i].spec_memory(), mem, mi)
    &&& forall|j: int| 0 <= j < i ==> may_pass_over(#[trigger] devices[j], dev, queue, mem)
}

/// Search over `devices` in order for the first device that `dev` accepts and that has a
/// queue family accepted by `queue` and a memory type accepted by `mem`; returns the
/// indices of the device and of its first such family and type.
pub fn select_indices<T: Fn(&HWDevice) -> bool, U: Fn(&QueueFamilyDescription) -> bool, S: Fn(&MemoryDescription) -> bool>(
    devices: &[HWDevice],
    dev: &T,
    queue: &U,
    mem: &S,
) -> (r: Option<(usize, usize, usize)>)
    requires
        callable_on_all(devices@, *dev),
        forall|i: int| 0 <= i < devices@.len() ==> predicates_callable(#[trigger] devices@[i], *queue, *mem),
    ensures
        match r {
            Some((i, qi, mi)) => is_first_selection(devices@, *dev, *queue, *mem, i as int, qi as int, mi as int),
            None => forall|j: int| 0 <= j < devices@.len() ==> may_pass_over(#[trigger] devices@[j], *dev, *queue, *mem),
        },
{
    let n = devices.len();
    let mut i: usize = 0;
    while i < n
        invariant
            n == devices@.len(),
            0 <= i <= n,
            callable_on_all(devices@, *dev),
            forall|k: int| 0 <= k < devices@.len() ==> predicates_callable(#[trigger] devices@[k], *queue, *mem),
            forall|j: int| 0 <= j < i ==> may_pass_over(#[trigger] devices@[j], *dev, *queue, *mem),
        decreases n - i,
    {
        let d = &devices[i];
        assert(dev.requires((&devices@[i as int],)));
        assert(predicates_callable(devices@[i as int], *queue, *mem));
        if dev(d) {
            let q = find_index(d.queues(), queue);
            let m = find_index(d.memory(), mem);
            match (q, m) {
                (Some(qi), Some(mi)) => {
                    return Some((i, qi, mi));
                },
                _ => {},
            }
        }
        i = i + 1;
    }
    None
}

/// Hardware devices that the driver reported.
pub struct Description(Vec<HWDevice>);

impl Description {
    pub closed spec fn spec_devices(&self) -> Seq<HWDevice> { self.0@ }

    /// Description made of the devices that were enumerated, in the driver's order.
    pub fn new(devices: Vec<HWDevice>) -> (d: Description)
        ensures
            d.spec_devices() == devices@,
    {
        Description(devices)
    }

    /// All available hardware devices
    pub fn list(&self) -> (r: &[HWDevice])
        ensures
            r@ == self.spec_devices(),
    {
        self.0.as_slice()
    }

    /// Indices of the devices that `selector` accepts, in order
    pub fn filter_hw<T: Fn(&HWDevice) -> bool>(&self, selector: T) -> (r: Vec<usize>)
        requires
            callable_on_all(self.spec_devices(), selector),
        ensures
            forall|k: int| 0 <= k < r@.len() ==> {
                &&& r@[k] < self.spec_devices().len()
                &&& selector.ensures((&self.spec_devices()[r@[k] as int],), true)
            },
            forall|k: int, l: int| 0 <= k < l < r@.len() ==> r@[k] < r@[l],
            forall|j: int| 0 <= j < self.spec_devices().len() && !r@.contains(j as usize)
                ==> selector.ensures((&self.spec_devices()[j],), false),
    {
        let n = self.0.len();
        let mut result: Vec<usize> = Vec::new();
        let mut i: usize = 0;
        while i < n
            invariant
                n == self.spec_devices().len(),
                0 <= i <= n,
                callable_on_all(self.spec_devices(), selector),
                forall|k: int| 0 <= k < result@.len() ==> {
                    &&& result@[k] < i
                    &&& selector.ensures((&self.spec_devices()[result@[k] as int],), true)
                },
                forall|k: int, l: int| 0 <= k < l < result@.len() ==> result@[k] < result@[l],
                forall|j: int| 0 <= j < i && !result@.contains(j as usize)
                    ==> selector.ensures((&self.spec_devices()[j],), false),
            decreases n - i,
        {
            assert(selector.requires((&self.spec_devices()[i as int],)));
            let accepted = selector(&self.0[i]);
            let ghost before = result@;
            if accepted {
                result.push(i);
            }
            proof {
                assert forall|j: int| 0 <= j < i + 1 && !result@.contains(j as usize)
                    implies selector.ensures((&self.spec_devices()[j],), false) by {
                    if j < i {
                        if before.contains(j as usize) {
                            let k = choose|k: int| 0 <= k < before.len() && before[k] == j as usize;
                            assert(result@[k] == j as usize);
                        }
                    } else if accepted {
                        assert(result@[result@.len() - 1] == i);
                    }
                }
            }
            i = i + 1;
        }
        result
    }

    /// First device that `dev` accepts and that has a queue family accepted by `queue`
    /// and a memory type accepted by `mem`, with its first such family and type.
    pub fn find_first<T, U, S>(&self, dev: T, queue: U, mem: S)
        -> (r: Option<(&HWDevice, &QueueFamilyDescription, &MemoryDescription)>)
        where
            T: Fn(&HWDevice) -> bool,
            U: Fn(&QueueFamilyDescription) -> bool,
            S: Fn(&MemoryDescription) -> bool,
        requires
            callable_on_all(self.spec_devices(), dev),
            forall|i: int| 0 <= i < self.spec_devices().len() ==> predicates_callable(#[trigger] self.spec_devices()[i], queue, mem),
        ensures
            match r {
                Some((h, q, m)) => exists|i: int, qi: int, mi: int| {
                    &&& is_first_selection(self.spec_devices(), dev, queue, mem, i, qi, mi)
                    &&& *h == self.spec_devices()[i]
                    &&& *q == self.spec_devices()[i].spec_queues()[qi]
                    &&& *m == self.spec_devices()[i].spec_memory()[mi]
                },
                None => forall|j: int| 0 <= j < self.spec_devices().len()
                    ==> may_pass_over(#[trigger] self.spec_devices()[j], dev, queue, mem),
            },
    {
        match select_indices(self.0.as_slice(), &dev, &queue, &mem) {
            Some((i, qi, mi)) => {
                let h = &self.0[i];
                Some((h, &h.i_queues[qi], &h.i_heap_info[mi]))
            },
            None => None,
        }
    }
}

/// Aggregate information about selected hardware
#[derive(Debug, Clone, Copy)]
pub struct HWIndex {
    /// Device index in the collection of hardware devices
    pub device: usize,
    /// Queue family index in the device's list of families
    pub queue: usize,
    /// Memory description index in the device's list of memory types
    pub memory: usize,
}

impl HWIndex {
    pub fn new(dev: usize, queue: usize, mem: usize) -> (r: HWIndex)
        ensures
            r.device == dev,
            r.queue == queue,
            r.memory == mem,
    {
        HWIndex { device: dev, queue, memory: mem }
    }
}

/// Family that can both compute and transfer
pub fn is_compute_family(desc: &QueueFamilyDescription) -> (r: bool)
    ensures
        r == (bits_contain(desc.spec_flags(), QUEUE_COMPUTE) && bits_contain(desc.spec_flags(), QUEUE_TRANSFER)),
{
    desc.is_compute() && desc.is_transfer()
}

/// First suitable indices defined by predicates: the first device accepted by `hw_p`
/// that has a family accepted by `q_p` and a memory type accepted by `m_p`.
pub fn select_hw<P, U, S>(descs: &[HWDevice], hw_p: P, q_p: U, m_p: S) -> (r: Option<HWIndex>)
    where
        P: Fn(&HWDevice) -> bool,
        U: Fn(&QueueFamilyDescription) -> bool,
        S: Fn(&MemoryDescription) -> bool,
    requires
        callable_on_all(descs@, hw_p),
        forall|i: int| 0 <= i < descs@.len() ==> predicates_callable(#[trigger] descs@[i], q_p, m_p),
    ensures
        match r {
            Some(idx) => is_first_selection(descs@, hw_p, q_p, m_p, idx.device as int, idx.queue as int, idx.memory as int),
            None => forall|j: int| 0 <= j < descs@.len() ==> may_pass_over(#[trigger] descs@[j], hw_p, q_p, m_p),
        },
{
    match select_indices(descs, &hw_p, &q_p, &m_p) {
        Some((i, qi, mi)) => Some(HWIndex::new(i, qi, mi)),
        None => None,
    }
}

} // verus!
