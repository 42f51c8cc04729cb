//! Bit flags, enumerations and special values of the Vulkan API, held as plain integers.
//!
//! The numbers are those that the Vulkan specification assigns; the application crate
//! turns them back into `ash` values with `from_raw`.

use vstd::prelude::*;
use ash::vk;

verus! {

/// Memory property bitmask (`VkMemoryPropertyFlags`).
pub type MemoryProperty = u32;
/// Queue family capability bitmask (`VkQueueFlags`).
pub type QueueFlags = u32;
/// Buffer usage bitmask (`VkBufferUsageFlags`).
pub type BufferUsageFlags = u32;
/// Image usage bitmask (`VkImageUsageFlags`).
pub type ImageUsageFlags = u32;
/// Image aspect bitmask (`VkImageAspectFlags`).
pub type ImageAspect = u32;
/// Composite alpha bitmask (`VkCompositeAlphaFlagsKHR`).
pub type CompositeAlphaFlags = u32;
/// Surface transform bitmask (`VkSurfaceTransformFlagsKHR`).
pub type PreTransformation = u32;
/// Shader stage bitmask (`VkShaderStageFlags`).
pub type ShaderStage = u32;
/// Pipeline stage bitmask (`VkPipelineStageFlags`).
pub type PipelineStage = u32;
/// Memory access bitmask (`VkAccessFlags`).
pub type AccessFlags = u32;
/// Face culling bitmask (`VkCullModeFlags`).
pub type CullMode = u32;
/// Image format (`VkFormat`).
pub type ImageFormat = i32;
/// Image layout (`VkImageLayout`).
pub type ImageLayout = i32;
/// Color space (`VkColorSpaceKHR`).
pub type ColorSpace = i32;
/// Presentation mode (`VkPresentModeKHR`).
pub type PresentMode = i32;
/// Physical device type (`VkPhysicalDeviceType`).
pub type HWType = i32;
/// Descriptor type (`VkDescriptorType`).
pub type DescriptorType = i32;
/// Primitive topology (`VkPrimitiveTopology`).
pub type Topology = i32;
/// Blend factor (`VkBlendFactor`).
pub type BlendFactor = i32;
/// Attachment load operation (`VkAttachmentLoadOp`).
pub type AttachmentLoadOp = i32;
/// Attachment store operation (`VkAttachmentStoreOp`).
pub type AttachmentStoreOp = i32;
/// Dynamic pipeline state (`VkDynamicState`).
pub type DynamicState = i32;
/// Image tiling (`VkImageTiling`).
pub type Tiling = i32;
/// Index type of an index buffer (`VkIndexType`).
pub type IndexBufferType = i32;
/// Raw value of a non-dispatchable Vulkan handle (`VkBuffer`, `VkImage`, ...); zero is null.
pub type Handle = u64;

pub const NULL_HANDLE: Handle = 0;

pub const MEMORY_PROPERTY_DEVICE_LOCAL: MemoryProperty = 0x1;
pub const MEMORY_PROPERTY_HOST_VISIBLE: MemoryProperty = 0x2;
pub const MEMORY_PROPERTY_HOST_COHERENT: MemoryProperty = 0x4;
pub const MEMORY_PROPERTY_HOST_CACHED: MemoryProperty = 0x8;
pub const MEMORY_PROPERTY_LAZILY_ALLOCATED: MemoryProperty = 0x10;

pub const QUEUE_GRAPHICS: QueueFlags = 0x1;
pub const QUEUE_COMPUTE: QueueFlags = 0x2;
pub const QUEUE_TRANSFER: QueueFlags = 0x4;
pub const QUEUE_SPARSE_BINDING: QueueFlags = 0x8;

pub const BUFFER_USAGE_TRANSFER_SRC: BufferUsageFlags = 0x1;
pub const BUFFER_USAGE_TRANSFER_DST: BufferUsageFlags = 0x2;
pub const BUFFER_USAGE_UNIFORM_BUFFER: BufferUsageFlags = 0x10;
pub const BUFFER_USAGE_STORAGE_BUFFER: BufferUsageFlags = 0x20;
pub const BUFFER_USAGE_INDEX_BUFFER: BufferUsageFlags = 0x40;
pub const BUFFER_USAGE_VERTEX_BUFFER: BufferUsageFlags = 0x80;

pub const HW_TYPE_OTHER: HWType = 0;
pub const HW_TYPE_INTEGRATED_GPU: HWType = 1;
pub const HW_TYPE_DISCRETE_GPU: HWType = 2;
pub const HW_TYPE_VIRTUAL_GPU: HWType = 3;
pub const HW_TYPE_CPU: HWType = 4;

pub const IMAGE_ASPECT_COLOR: ImageAspect = 0x1;

pub const IMAGE_LAYOUT_UNDEFINED: ImageLayout = 0;
pub const IMAGE_LAYOUT_GENERAL: ImageLayout = 1;
pub const IMAGE_LAYOUT_COLOR_ATTACHMENT_OPTIMAL: ImageLayout = 2;
pub const IMAGE_LAYOUT_DEPTH_STENCIL_ATTACHMENT_OPTIMAL: ImageLayout = 3;
pub const IMAGE_LAYOUT_TRANSFER_DST_OPTIMAL: ImageLayout = 7;
pub const IMAGE_LAYOUT_PRESENT_SRC: ImageLayout = 1000001002;

pub const FORMAT_UNDEFINED: ImageFormat = 0;

pub const ATTACHMENT_LOAD_OP_LOAD: AttachmentLoadOp = 0;
pub const ATTACHMENT_LOAD_OP_CLEAR: AttachmentLoadOp = 1;
pub const ATTACHMENT_LOAD_OP_DONT_CARE: AttachmentLoadOp = 2;
pub const ATTACHMENT_STORE_OP_STORE: AttachmentStoreOp = 0;
pub const ATTACHMENT_STORE_OP_DONT_CARE: AttachmentStoreOp = 1;

pub const PIPELINE_STAGE_COLOR_ATTACHMENT_OUTPUT: PipelineStage = 0x400;
pub const PIPELINE_STAGE_BOTTOM_OF_PIPE: PipelineStage = 0x2000;

pub const ACCESS_COLOR_ATTACHMENT_READ: AccessFlags = 0x80;
pub const ACCESS_COLOR_ATTACHMENT_WRITE: AccessFlags = 0x100;
pub const ACCESS_MEMORY_READ: AccessFlags = 0x8000;

pub const SHADER_STAGE_VERTEX: ShaderStage = 0x1;
pub const SHADER_STAGE_GEOMETRY: ShaderStage = 0x8;
pub const SHADER_STAGE_FRAGMENT: ShaderStage = 0x10;
pub const SHADER_STAGE_COMPUTE: ShaderStage = 0x20;
pub const SHADER_STAGE_ALL_GRAPHICS: ShaderStage = 0x1f;

pub const DYNAMIC_STATE_VIEWPORT: DynamicState = 0;
pub const DYNAMIC_STATE_SCISSOR: DynamicState = 1;
pub const DYNAMIC_STATE_LINE_WIDTH: DynamicState = 2;

pub const TOPOLOGY_TRIANGLE_LIST: Topology = 3;
pub const CULL_MODE_BACK: CullMode = 0x2;
pub const BLEND_FACTOR_ZERO: BlendFactor = 0;
pub const BLEND_FACTOR_ONE: BlendFactor = 1;

pub const DESCRIPTOR_TYPE_UNIFORM_BUFFER: DescriptorType = 6;

/// Value that marks a queue family as not taking part in an ownership transfer.
pub const QUEUE_FAMILY_IGNORED: u32 = 0xffff_ffff;
/// Value that names the commands outside a render pass in a subpass dependency.
pub const SUBPASS_EXTERNAL: u32 = 0xffff_ffff;
/// Value that marks an attachment slot of a subpass as unused.
pub const NO_ATTACHMENT: u32 = 0xffff_ffff;
/// Size that stands for "up to the end of the buffer".
pub const WHOLE_SIZE: u64 = 0xffff_ffff_ffff_ffff;

/// `flags` has every bit of `required` set.
pub open spec fn bits_contain(flags: u32, required: u32) -> bool {
    flags & required == required
}

/// `ash::vk::MemoryPropertyFlags::contains`: every bit of `required` is set in `flags`.
#[verifier::external_body]
pub(crate) fn memory_property_contains(flags: MemoryProperty, required: MemoryProperty) -> (r: bool)
    ensures
        r == bits_contain(flags, required),
{
    vk::MemoryPropertyFlags::from_raw(flags).contains(vk::MemoryPropertyFlags::from_raw(required))
}

/// `ash::vk::QueueFlags::contains`: every bit of `required` is set in `flags`.
#[verifier::external_body]
pub(crate) fn queue_flags_contains(flags: QueueFlags, required: QueueFlags) -> (r: bool)
    ensures
        r == bits_contain(flags, required),
{
    vk::QueueFlags::from_raw(flags).contains(vk::QueueFlags::from_raw(required))
}

/// `ash::vk::CompositeAlphaFlagsKHR::contains`: every bit of `required` is set in `flags`.
#[verifier::external_body]
pub(crate) fn composite_alpha_contains(flags: CompositeAlphaFlags, required: CompositeAlphaFlags) -> (r: bool)
    ensures
        r == bits_contain(flags, required),
{
    vk::CompositeAlphaFlagsKHR::from_raw(flags).contains(vk::CompositeAlphaFlagsKHR::from_raw(required))
}

/// `ash::vk::ImageUsageFlags::contains`: every bit of `required` is set in `flags`.
#[verifier::external_body]
pub(crate) fn image_usage_contains(flags: ImageUsageFlags, required: ImageUsageFlags) -> (r: bool)
    ensures
        r == bits_contain(flags, required),
{
    vk::ImageUsageFlags::from_raw(flags).contains(vk::ImageUsageFlags::from_raw(required))
}

/// Major number of a packed API version.
pub open spec fn spec_version_major(version: u32) -> u32 {
    (version >> 22u32) & 0x7fu32
}

/// Minor number of a packed API version.
pub open spec fn spec_version_minor(version: u32) -> u32 {
    (version >> 12u32) & 0x3ffu32
}

/// Patch number of a packed API version.
pub open spec fn spec_version_patch(version: u32) -> u32 {
    version & 0xfffu32
}

/// Packed API version made of a variant, major, minor and patch number.
pub open spec fn spec_make_version(variant: u32, major: u32, minor: u32, patch: u32) -> u32 {
    (variant << 29u32) | (major << 22u32) | (minor << 12u32) | patch
}

/// `ash::vk::api_version_major`: bits 22 to 28 of the packed version.
#[verifier::external_body]
pub(crate) fn api_version_major(version: u32) -> (r: u32)
    ensures
        r == spec_version_major(version),
{
    vk::api_version_major(version)
}

/// `ash::vk::api_version_minor`: bits 12 to 21 of the packed version.
#[verifier::external_body]
pub(crate) fn api_version_minor(version: u32) -> (r: u32)
    ensures
        r == spec_version_minor(version),
{
    vk::api_version_minor(version)
}

/// `ash::vk::api_version_patch`: bits 0 to 11 of the packed version.
#[verifier::external_body]
pub(crate) fn api_version_patch(version: u32) -> (r: u32)
    ensures
        r == spec_version_patch(version),
{
    vk::api_version_patch(version)
}

/// `ash::vk::make_api_version`: the four numbers packed by shifts of 29, 22 and 12 bits.
#[verifier::external_body]
pub(crate) fn make_api_version(variant: u32, major: u32, minor: u32, patch: u32) -> (r: u32)
    ensures
        r == spec_make_version(variant, major, minor, patch),
{
    vk::make_api_version(variant, major, minor, patch)
}

/// Numbers that fit their fields come back unchanged from a packed version.
pub proof fn lemma_version_roundtrip(major: u32, minor: u32, patch: u32)
    requires
        major < 128,
        minor < 1024,
        patch < 4096,
    ensures
        spec_version_major(spec_make_version(0, major, minor, patch)) == major,
        spec_version_minor(spec_make_version(0, major, minor, patch)) == minor,
        spec_version_patch(spec_make_version(0, major, minor, patch)) == patch,
{
    assert(((((0u32 << 29u32) | (major << 22u32) | (minor << 12u32) | patch) >> 22u32) & 0x7fu32) == major)
        by (bit_vector) requires major < 128u32, minor < 1024u32, patch < 4096u32;
    assert(((((0u32 << 29u32) | (major << 22u32) | (minor << 12u32) | patch) >> 12u32) & 0x3ffu32) == minor)
        by (bit_vector) requires major < 128u32, minor < 1024u32, patch < 4096u32;
    assert((((0u32 << 29u32) | (major << 22u32) | (minor << 12u32) | patch) & 0xfffu32) == patch)
        by (bit_vector) requires major < 128u32, minor < 1024u32, patch < 4096u32;
}

} // verus!
