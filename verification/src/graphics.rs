//! Render pass configuration, vertex input and shader resource bindings.
//!
//! A render pass is defined by three components: subpasses ([`SubpassInfo`]),
//! synchronization between subpasses ([`SubpassSync`]) and attachments
//! ([`AttachmentInfo`]), which define what all images are used for.

use vstd::prelude::*;
use crate::flags::{
    Handle, ImageFormat, ImageLayout, AttachmentLoadOp, AttachmentStoreOp, PipelineStage, AccessFlags, ShaderStage,
    DescriptorType, Topology, CullMode, FORMAT_UNDEFINED, NULL_HANDLE, SHADER_STAGE_VERTEX, SHADER_STAGE_FRAGMENT,
    SHADER_STAGE_GEOMETRY, SHADER_STAGE_ALL_GRAPHICS, ATTACHMENT_LOAD_OP_DONT_CARE, ATTACHMENT_LOAD_OP_CLEAR, ATTACHMENT_STORE_OP_DONT_CARE,
    ATTACHMENT_STORE_OP_STORE, IMAGE_LAYOUT_PRESENT_SRC, IMAGE_LAYOUT_UNDEFINED, IMAGE_LAYOUT_COLOR_ATTACHMENT_OPTIMAL,
    IMAGE_LAYOUT_DEPTH_STENCIL_ATTACHMENT_OPTIMAL, NO_ATTACHMENT, SUBPASS_EXTERNAL, WHOLE_SIZE,
    PIPELINE_STAGE_BOTTOM_OF_PIPE, PIPELINE_STAGE_COLOR_ATTACHMENT_OUTPUT, ACCESS_MEMORY_READ,
    ACCESS_COLOR_ATTACHMENT_WRITE, ACCESS_COLOR_ATTACHMENT_READ,
};
use crate::memory::{BufferView, ImageView, view_element};
use crate::layout::Extent2D;
use crate::pipeline::{ShaderStageInfo, PushConstantRange, Rect2D, VertexBindingDescription, BufferInfo, ImageInfo, vk_bool};

verus! {

/// Errors while creating a render pass
#[derive(Debug, Clone, Copy, PartialEq, Eq, Structural)]
pub enum RenderPassError {
    /// `vkCreateRenderPass` failed
    Creation,
}

/// Text that describes `e`.
pub open spec fn render_pass_error_text(e: RenderPassError) -> Seq<char> {
    "vkCreateRenderPass call failed"@
}

impl RenderPassError {
    /// Human readable description of the error
    pub fn message(&self) -> (r: &'static str)
        ensures
            r@ == render_pass_error_text(*self),
    {
        "vkCreateRenderPass call failed"
    }
}

/// Description of an attachment
#[derive(Debug, Clone, Copy, PartialEq, Eq, Structural)]
pub struct AttachmentInfo {
    pub format: ImageFormat,
    pub load_op: AttachmentLoadOp,
    pub store_op: AttachmentStoreOp,
    pub stencil_load_op: AttachmentLoadOp,
    pub stencil_store_op: AttachmentStoreOp,
    pub initial_layout: ImageLayout,
    pub final_layout: ImageLayout,
}

impl Default for AttachmentInfo {
    /// Undefined format, contents not cared for, images in the layout for presentation
    fn default() -> (r: Self)
        ensures
            r == (AttachmentInfo {
                format: FORMAT_UNDEFINED,
                load_op: ATTACHMENT_LOAD_OP_DONT_CARE,
                store_op: ATTACHMENT_STORE_OP_DONT_CARE,
                stencil_load_op: ATTACHMENT_LOAD_OP_DONT_CARE,
                stencil_store_op: ATTACHMENT_STORE_OP_DONT_CARE,
                initial_layout: IMAGE_LAYOUT_PRESENT_SRC,
                final_layout: IMAGE_LAYOUT_PRESENT_SRC,
            }),
    {
        AttachmentInfo {
            format: FORMAT_UNDEFINED,
            load_op: ATTACHMENT_LOAD_OP_DONT_CARE,
            store_op: ATTACHMENT_STORE_OP_DONT_CARE,
            stencil_load_op: ATTACHMENT_LOAD_OP_DONT_CARE,
            stencil_store_op: ATTACHMENT_STORE_OP_DONT_CARE,
            initial_layout: IMAGE_LAYOUT_PRESENT_SRC,
            final_layout: IMAGE_LAYOUT_PRESENT_SRC,
        }
    }
}

/// A memory barrier between a previous and a next subpass
#[derive(Debug, Clone, Copy, PartialEq, Eq, Structural)]
pub struct SubpassSync {
    /// Index of the previous subpass or [`SUBPASS_EXTERNAL`]
    pub src_subpass: u32,
    /// Index of the next subpass or [`SUBPASS_EXTERNAL`]
    pub dst_subpass: u32,
    /// Pipeline stage during which a given attachment was used before
    pub src_stage: PipelineStage,
    /// Pipeline stage during which a given attachment will be used later
    pub dst_stage: PipelineStage,
    /// Types of memory operations that occurred in the source subpass or before the render pass
    pub src_access: AccessFlags,
    /// Types of memory operations that occur in the destination subpass or after the render pass
    pub dst_access: AccessFlags,
}

/// Subpass configuration
///
/// `resolve_attachments` must be empty or as long as `color_attachments`
#[derive(Debug, Clone, Copy)]
pub struct SubpassInfo<'a> {
    pub input_attachments: &'a [u32],
    pub color_attachments: &'a [u32],
    pub resolve_attachments: &'a [u32],
    pub depth_stencil_attachment: u32,
    pub preserve_attachments: &'a [u32],
}

impl<'a> SubpassInfo<'a> {
    /// Subpass with no attachments at all
    pub fn empty() -> (r: SubpassInfo<'a>)
        ensures
            r.input_attachments@.len() == 0,
            r.color_attachments@.len() == 0,
            r.resolve_attachments@.len() == 0,
            r.depth_stencil_attachment == NO_ATTACHMENT,
            r.preserve_attachments@.len() == 0,
    {
        SubpassInfo {
            input_attachments: &[],
            color_attachments: &[],
            resolve_attachments: &[],
            depth_stencil_attachment: NO_ATTACHMENT,
            preserve_attachments: &[],
        }
    }
}

/// Reference from a subpass to an attachment, with the layout the attachment is used in
#[derive(Debug, Clone, Copy, PartialEq, Eq, Structural)]
pub struct AttachmentReference {
    pub attachment: u32,
    pub layout: ImageLayout,
}

/// References of one subpass: input, color and resolve attachments are used as color
/// attachments, the depth attachment as depth and stencil attachment.
#[derive(Debug)]
pub struct SubpassReferences {
    pub input: Vec<AttachmentReference>,
    pub color: Vec<AttachmentReference>,
    pub resolve: Vec<AttachmentReference>,
    pub depth: AttachmentReference,
}

/// Each attachment index with `layout`.
pub open spec fn references_of(indices: Seq<u32>, layout: ImageLayout) -> Seq<AttachmentReference> {
    Seq::new(indices.len(), |i: int| AttachmentReference { attachment: indices[i], layout })
}

/// Reference every attachment of `indices` with `layout`, in order.
pub fn references(indices: &[u32], layout: ImageLayout) -> (r: Vec<AttachmentReference>)
    ensures
        r@ == references_of(indices@, layout),
{
    let mut r: Vec<AttachmentReference> = Vec::new();
    let n = indices.len();
    let mut i: usize = 0;
    while i < n
        invariant
            n == indices@.len(),
            0 <= i <= n,
            r@ == references_of(indices@.subrange(0, i as int), layout),
        decreases n - i,
    {
        r.push(AttachmentReference { attachment: indices[i], layout });
        proof {
            assert(references_of(indices@.subrange(0, i + 1), layout)
                == references_of(indices@.subrange(0, i as int), layout).push(AttachmentReference { attachment: indices@[i as int], layout }));
        }
        i = i + 1;
    }
    proof {
        assert(indices@.subrange(0, n as int) == indices@);
    }
    r
}

impl<'a> SubpassInfo<'a> {
    /// Attachment references of this subpass for a render pass
    pub fn references(&self) -> (r: SubpassReferences)
        ensures
            r.input@ == references_of(self.input_attachments@, IMAGE_LAYOUT_COLOR_ATTACHMENT_OPTIMAL),
            r.color@ == references_of(self.color_attachments@, IMAGE_LAYOUT_COLOR_ATTACHMENT_OPTIMAL),
            r.resolve@ == references_of(self.resolve_attachments@, IMAGE_LAYOUT_COLOR_ATTACHMENT_OPTIMAL),
            r.depth == (AttachmentReference {
                attachment: self.depth_stencil_attachment,
                layout: IMAGE_LAYOUT_DEPTH_STENCIL_ATTACHMENT_OPTIMAL,
            }),
    {
        SubpassReferences {
            input: references(self.input_attachments, IMAGE_LAYOUT_COLOR_ATTACHMENT_OPTIMAL),
            color: references(self.color_attachments, IMAGE_LAYOUT_COLOR_ATTACHMENT_OPTIMAL),
            resolve: references(self.resolve_attachments, IMAGE_LAYOUT_COLOR_ATTACHMENT_OPTIMAL),
            depth: AttachmentReference {
                attachment: self.depth_stencil_attachment,
                layout: IMAGE_LAYOUT_DEPTH_STENCIL_ATTACHMENT_OPTIMAL,
            },
        }
    }
}

/// Render pass configuration
#[derive(Debug, Clone, Copy)]
pub struct RenderPassCfg<'a, 'b> {
    pub attachments: &'a [AttachmentInfo],
    pub sync_info: &'a [SubpassSync],
    pub subpasses: &'a [SubpassInfo<'b>],
}

/// The only attachment of a render pass with a single subpass.
pub open spec fn single_subpass_attachment_spec(img_format: ImageFormat) -> AttachmentInfo {
    AttachmentInfo {
        format: img_format,
        load_op: ATTACHMENT_LOAD_OP_CLEAR,
        store_op: ATTACHMENT_STORE_OP_STORE,
        stencil_load_op: ATTACHMENT_LOAD_OP_DONT_CARE,
        stencil_store_op: ATTACHMENT_STORE_OP_DONT_CARE,
        initial_layout: IMAGE_LAYOUT_UNDEFINED,
        final_layout: IMAGE_LAYOUT_PRESENT_SRC,
    }
}

/// The two barriers of a render pass with a single subpass.
pub open spec fn single_subpass_sync_spec() -> Seq<SubpassSync> {
    seq![
        SubpassSync {
            src_subpass: SUBPASS_EXTERNAL,
            dst_subpass: 0,
            src_stage: PIPELINE_STAGE_BOTTOM_OF_PIPE,
            dst_stage: PIPELINE_STAGE_COLOR_ATTACHMENT_OUTPUT,
            src_access: ACCESS_MEMORY_READ,
            dst_access: ACCESS_COLOR_ATTACHMENT_WRITE | ACCESS_COLOR_ATTACHMENT_READ,
        },
        SubpassSync {
            src_subpass: 0,
            dst_subpass: SUBPASS_EXTERNAL,
            src_stage: PIPELINE_STAGE_COLOR_ATTACHMENT_OUTPUT,
            dst_stage: PIPELINE_STAGE_BOTTOM_OF_PIPE,
            src_access: ACCESS_COLOR_ATTACHMENT_WRITE | ACCESS_COLOR_ATTACHMENT_READ,
            dst_access: ACCESS_MEMORY_READ,
        },
    ]
}

/// The only attachment of a render pass with a single subpass: cleared on load, stored,
/// from an undefined layout to the layout for presentation.
pub fn single_subpass_attachment(img_format: ImageFormat) -> (r: AttachmentInfo)
    ensures
        r == single_subpass_attachment_spec(img_format),
        r.format == img_format,
        r.load_op == ATTACHMENT_LOAD_OP_CLEAR,
        r.store_op == ATTACHMENT_STORE_OP_STORE,
        r.stencil_load_op == ATTACHMENT_LOAD_OP_DONT_CARE,
        r.stencil_store_op == ATTACHMENT_STORE_OP_DONT_CARE,
        r.initial_layout == IMAGE_LAYOUT_UNDEFINED,
        r.final_layout == IMAGE_LAYOUT_PRESENT_SRC,
{
    AttachmentInfo {
        format: img_format,
        load_op: ATTACHMENT_LOAD_OP_CLEAR,
        store_op: ATTACHMENT_STORE_OP_STORE,
        stencil_load_op: ATTACHMENT_LOAD_OP_DONT_CARE,
        stencil_store_op: ATTACHMENT_STORE_OP_DONT_CARE,
        initial_layout: IMAGE_LAYOUT_UNDEFINED,
        final_layout: IMAGE_LAYOUT_PRESENT_SRC,
    }
}

/// The attachment of a single-subpass render pass keeps what was drawn for presentation:
/// it has the image's format, is cleared when loaded and stored at the end (its stencil
/// is not cared for), and goes from an undefined layout to the layout for presentation.
pub proof fn lemma_single_subpass_attachment_kept(img_format: ImageFormat)
    ensures
        single_subpass_attachment_spec(img_format).format == img_format,
        single_subpass_attachment_spec(img_format).load_op == ATTACHMENT_LOAD_OP_CLEAR,
        single_subpass_attachment_spec(img_format).store_op == ATTACHMENT_STORE_OP_STORE,
        single_subpass_attachment_spec(img_format).store_op == 0,
        single_subpass_attachment_spec(img_format).stencil_load_op == ATTACHMENT_LOAD_OP_DONT_CARE,
        single_subpass_attachment_spec(img_format).stencil_store_op == ATTACHMENT_STORE_OP_DONT_CARE,
        single_subpass_attachment_spec(img_format).initial_layout == IMAGE_LAYOUT_UNDEFINED,
        single_subpass_attachment_spec(img_format).final_layout == IMAGE_LAYOUT_PRESENT_SRC,
{
}

/// The barriers of a single-subpass render pass mirror each other: the first leads from
/// outside into subpass zero and the second back out, the stage and accesses the first
/// waits for being those the second waits on.
pub proof fn lemma_single_subpass_sync_mirrored()
    ensures
        single_subpass_sync_spec().len() == 2,
        single_subpass_sync_spec()[0].src_subpass == SUBPASS_EXTERNAL,
        single_subpass_sync_spec()[0].dst_subpass == 0,
        single_subpass_sync_spec()[1].src_subpass == 0,
        single_subpass_sync_spec()[1].dst_subpass == SUBPASS_EXTERNAL,
        single_subpass_sync_spec()[0].dst_stage == PIPELINE_STAGE_COLOR_ATTACHMENT_OUTPUT,
        single_subpass_sync_spec()[0].dst_stage == single_subpass_sync_spec()[1].src_stage,
        single_subpass_sync_spec()[0].src_stage == single_subpass_sync_spec()[1].dst_stage,
        single_subpass_sync_spec()[0].dst_access == single_subpass_sync_spec()[1].src_access,
        single_subpass_sync_spec()[0].src_access == single_subpass_sync_spec()[1].dst_access,
{
}

/// The two barriers of a render pass with a single subpass: from outside into the
/// subpass and from the subpass back out, around its color attachment output.
pub fn single_subpass_sync() -> (r: Vec<SubpassSync>)
    ensures
        r@ == single_subpass_sync_spec(),
        r@.len() == 2,
        r@[0].src_subpass == SUBPASS_EXTERNAL,
        r@[0].dst_subpass == 0,
        r@[1].src_subpass == 0,
        r@[1].dst_subpass == SUBPASS_EXTERNAL,
        r@[0].dst_stage == PIPELINE_STAGE_COLOR_ATTACHMENT_OUTPUT,
        r@[1].src_stage == PIPELINE_STAGE_COLOR_ATTACHMENT_OUTPUT,
        r@[0].src_stage == r@[1].dst_stage,
        r@[0].dst_access == r@[1].src_access,
        r@[0].src_access == r@[1].dst_access,
{
    let mut r: Vec<SubpassSync> = Vec::new();
    r.push(SubpassSync {
        src_subpass: SUBPASS_EXTERNAL,
        dst_subpass: 0,
        src_stage: PIPELINE_STAGE_BOTTOM_OF_PIPE,
        dst_stage: PIPELINE_STAGE_COLOR_ATTACHMENT_OUTPUT,
        src_access: ACCESS_MEMORY_READ,
        dst_access: ACCESS_COLOR_ATTACHMENT_WRITE | ACCESS_COLOR_ATTACHMENT_READ,
    });
    r.push(SubpassSync {
        src_subpass: 0,
        dst_subpass: SUBPASS_EXTERNAL,
        src_stage: PIPELINE_STAGE_COLOR_ATTACHMENT_OUTPUT,
        dst_stage: PIPELINE_STAGE_BOTTOM_OF_PIPE,
        src_access: ACCESS_COLOR_ATTACHMENT_WRITE | ACCESS_COLOR_ATTACHMENT_READ,
        dst_access: ACCESS_MEMORY_READ,
    });
    assert(r@ =~= single_subpass_sync_spec());
    r
}

/// The color attachments of the single subpass: attachment zero.
pub const SINGLE_SUBPASS_COLOR_ATTACHMENTS: [u32; 1] = [0];

/// Configuration of a pipeline's vertex stage input
#[derive(Debug, Clone, Copy, PartialEq, Eq, Structural)]
pub struct VertexInputCfg {
    /// Index of an attribute, as defined by the location layout specifier in the shader
    pub location: u32,
    /// Number of the slot from which data is read
    pub binding: u32,
    /// Data type and number of components per attribute
    pub format: ImageFormat,
    /// Beginning of the data of the attribute
    pub offset: u32,
}

impl Default for VertexInputCfg {
    fn default() -> (r: Self)
        ensures
            r == (VertexInputCfg { location: 0, binding: 0, format: FORMAT_UNDEFINED, offset: 0 }),
    {
        VertexInputCfg { location: 0, binding: 0, format: FORMAT_UNDEFINED, offset: 0 }
    }
}

/// A buffer view bound to a shader, with offset and range (`VkDescriptorBufferInfo`)
#[derive(Debug, Clone, Copy)]
pub struct BufferBinding<T: BufferView> {
    pub view: T,
    pub offset: u64,
    pub range: u64,
}

impl<T: BufferView> BufferBinding<T> {
    /// Binding with default parameters: from the start of the buffer to its end
    pub fn new(view: T) -> (r: BufferBinding<T>)
        ensures
            r.view == view,
            r.offset == 0,
            r.range == WHOLE_SIZE,
    {
        BufferBinding { view, offset: 0, range: WHOLE_SIZE }
    }

    /// Binding with explicit offset and range, suitable for dynamic buffers
    pub fn with_params(view: T, offset: u64, range: u64) -> (r: BufferBinding<T>)
        ensures
            r.view == view,
            r.offset == offset,
            r.range == range,
    {
        BufferBinding { view, offset, range }
    }

    /// Buffer handle, offset and range of the binding
    pub fn info(&self) -> (r: (Handle, u64, u64))
        requires
            self.view.spec_index() < self.view.spec_memory().spec_layout().elements@.len(),
            view_element(self.view.spec_memory(), self.view.spec_index()) is Buffer,
        ensures
            r == (view_element(self.view.spec_memory(), self.view.spec_index())->vk_buffer, self.offset, self.range),
    {
        (self.view.buffer(), self.offset, self.range)
    }
}

/// Information for binding textures: sampler, image view and the layout the image is in
#[derive(Debug, Clone, Copy)]
pub struct SamplerBinding<U: ImageView> {
    pub sampler: Handle,
    pub view: U,
    pub layout: ImageLayout,
}

impl<U: ImageView> SamplerBinding<U> {
    pub fn new(sampler: Handle, view: U, layout: ImageLayout) -> (r: SamplerBinding<U>)
        ensures
            r.sampler == sampler,
            r.view == view,
            r.layout == layout,
    {
        SamplerBinding { sampler, view, layout }
    }

    /// Sampler handle, image view handle and layout of the binding
    pub fn info(&self) -> (r: (Handle, Handle, ImageLayout))
        requires
            self.view.spec_index() < self.view.spec_memory().spec_layout().elements@.len(),
            view_element(self.view.spec_memory(), self.view.spec_index()) is Image,
        ensures
            r == (self.sampler, view_element(self.view.spec_memory(), self.view.spec_index())->vk_image_view, self.layout),
    {
        (self.sampler, self.view.image_view(), self.layout)
    }
}

/// Resources written to one binding: buffers or samplers
#[derive(Debug, Clone, Copy)]
pub enum ShaderBinding<'a, T: BufferView, U: ImageView> {
    Buffers(&'a [BufferBinding<T>]),
    Samplers(&'a [SamplerBinding<U>]),
}

impl<'a, T: BufferView, U: ImageView> ShaderBinding<'a, T, U> {
    /// Number of resources, truncated to 32 bits
    pub fn len(&self) -> (r: u32)
        ensures
            r == (match self {
                ShaderBinding::Buffers(val) => val@.len() as u32,
                ShaderBinding::Samplers(val) => val@.len() as u32,
            }),
    {
        match self {
            ShaderBinding::Buffers(val) => val.len() as u32,
            ShaderBinding::Samplers(val) => val.len() as u32,
        }
    }
}

/// Errors while allocating descriptors
#[derive(Debug, Clone, Copy, PartialEq, Eq, Structural)]
pub enum PipelineDescriptorError {
    DescriptorPool,
    DescriptorSet,
    DescriptorAllocation,
}

/// Text that describes `e`.
pub open spec fn pipeline_descriptor_error_text(e: PipelineDescriptorError) -> Seq<char> {
    match e {
        PipelineDescriptorError::DescriptorPool => "Failed to create descriptor pool (vkCreateDescriptorPool call failed)"@,
        PipelineDescriptorError::DescriptorSet => "Failed to create descriptor set layout (vkCreateDescriptorSetLayout call failed)"@,
        PipelineDescriptorError::DescriptorAllocation => "Failed to allocate descriptor set (vkDescriptorSetAllocateInfo call failed)"@,
    }
}

impl PipelineDescriptorError {
    /// Human readable description of the error
    pub fn message(&self) -> (r: &'static str)
        ensures
            r@ == pipeline_descriptor_error_text(*self),
    {
        match self {
            PipelineDescriptorError::DescriptorPool => "Failed to create descriptor pool (vkCreateDescriptorPool call failed)",
            PipelineDescriptorError::DescriptorSet => "Failed to create descriptor set layout (vkCreateDescriptorSetLayout call failed)",
            PipelineDescriptorError::DescriptorAllocation => "Failed to allocate descriptor set (vkDescriptorSetAllocateInfo call failed)",
        }
    }
}

/// What descriptor to write: `layout(set = set, binding = binding) ... data[N]`
#[derive(Debug, Clone, Copy)]
pub struct UpdateInfo<'a, T: BufferView, U: ImageView> {
    /// Which set to update
    pub set: usize,
    /// Which binding in the set to update
    pub binding: u32,
    /// Starting array element in the binding, below `N`
    pub starting_array_element: u32,
    /// Buffers or images to write; they must match the binding's descriptor type
    pub resources: ShaderBinding<'a, T, U>,
}

/// What binding to allocate
#[derive(Debug, Clone, Copy, PartialEq, Eq, Structural)]
pub struct BindingCfg {
    pub resource_type: DescriptorType,
    pub stage: ShaderStage,
    pub count: u32,
}

/// Number of descriptors of one type in a descriptor pool (`VkDescriptorPoolSize`)
#[derive(Debug, Clone, Copy, PartialEq, Eq, Structural)]
pub struct DescriptorPoolSize {
    pub ty: DescriptorType,
    pub descriptor_count: u32,
}

/// One binding of a descriptor set layout (`VkDescriptorSetLayoutBinding`)
#[derive(Debug, Clone, Copy, PartialEq, Eq, Structural)]
pub struct DescriptorSetLayoutBinding {
    pub binding: u32,
    pub descriptor_type: DescriptorType,
    pub descriptor_count: u32,
    pub stage_flags: ShaderStage,
}

/// Bindings of a set layout: binding `i` is made of the `i`-th configuration.
pub fn set_layout_bindings(resources: &[BindingCfg]) -> (r: Vec<DescriptorSetLayoutBinding>)
    requires
        resources@.len() <= u32::MAX,
    ensures
        r@.len() == resources@.len(),
        forall|i: int| 0 <= i < r@.len() ==> #[trigger] r@[i] == (DescriptorSetLayoutBinding {
            binding: i as u32,
            descriptor_type: resources@[i].resource_type,
            descriptor_count: resources@[i].count,
            stage_flags: resources@[i].stage,
        }),
{
    let mut r: Vec<DescriptorSetLayoutBinding> = Vec::new();
    let n = resources.len();
    let mut i: usize = 0;
    while i < n
        invariant
            n == resources@.len(),
            n <= u32::MAX,
            0 <= i <= n,
            r@.len() == i,
            forall|k: int| 0 <= k < i ==> #[trigger] r@[k] == (DescriptorSetLayoutBinding {
                binding: k as u32,
                descriptor_type: resources@[k].resource_type,
                descriptor_count: resources@[k].count,
                stage_flags: resources@[k].stage,
            }),
        decreases n - i,
    {
        let b = resources[i];
        r.push(DescriptorSetLayoutBinding {
            binding: i as u32,
            descriptor_type: b.resource_type,
            descriptor_count: b.count,
            stage_flags: b.stage,
        });
        i = i + 1;
    }
    r
}

/// Pool sizes of a set of bindings: one entry per binding, with its type and count.
pub open spec fn pool_sizes_of(bindings: Seq<BindingCfg>) -> Seq<DescriptorPoolSize> {
    Seq::new(bindings.len(), |i: int| DescriptorPoolSize { ty: bindings[i].resource_type, descriptor_count: bindings[i].count })
}

/// Pool sizes of all sets, set after set.
pub open spec fn pool_sizes_all(sets: Seq<&[BindingCfg]>) -> Seq<DescriptorPoolSize>
    decreases sets.len(),
{
    if sets.len() == 0 { Seq::empty() } else { pool_sizes_all(sets.drop_last()) + pool_sizes_of(sets.last()@) }
}

/// Descriptor types of each set, binding by binding.
pub open spec fn types_of(bindings: Seq<BindingCfg>) -> Seq<DescriptorType> {
    Seq::new(bindings.len(), |i: int| bindings[i].resource_type)
}

/// Plan of a descriptor allocation: the pool sizes of every binding of every set, and the
/// descriptor type of each binding by set.
pub fn descriptor_plan(cfg: &[&[BindingCfg]]) -> (r: (Vec<DescriptorPoolSize>, Vec<Vec<DescriptorType>>))
    ensures
        r.0@ == pool_sizes_all(cfg@),
        r.1@.len() == cfg@.len(),
        forall|s: int| 0 <= s < cfg@.len() ==> (#[trigger] r.1@[s])@ == types_of(cfg@[s]@),
{
    let mut desc_size: Vec<DescriptorPoolSize> = Vec::new();
    let mut desc_types: Vec<Vec<DescriptorType>> = Vec::new();
    let n = cfg.len();
    let mut s: usize = 0;
    while s < n
        invariant
            n == cfg@.len(),
            0 <= s <= n,
            desc_size@ == pool_sizes_all(cfg@.subrange(0, s as int)),
            desc_types@.len() == s,
            forall|k: int| 0 <= k < s ==> (#[trigger] desc_types@[k])@ == types_of(cfg@[k]@),
        decreases n - s,
    {
        let set: &[BindingCfg] = cfg[s];
        let mut set_types: Vec<DescriptorType> = Vec::new();
        let m = set.len();
        let mut b: usize = 0;
        let ghost start = desc_size@;
        while b < m
            invariant
                m == set@.len(),
                0 <= b <= m,
                desc_size@ == start + pool_sizes_of(set@.subrange(0, b as int)),
                set_types@ == types_of(set@.subrange(0, b as int)),
            decreases m - b,
        {
            let binding = set[b];
            desc_size.push(DescriptorPoolSize { ty: binding.resource_type, descriptor_count: binding.count });
            set_types.push(binding.resource_type);
            proof {
                assert(pool_sizes_of(set@.subrange(0, b + 1)) == pool_sizes_of(set@.subrange(0, b as int)).push(
                    DescriptorPoolSize { ty: binding.resource_type, descriptor_count: binding.count }));
                assert(types_of(set@.subrange(0, b + 1)) == types_of(set@.subrange(0, b as int)).push(binding.resource_type));
            }
            b = b + 1;
        }
        proof {
            assert(set@.subrange(0, m as int) == set@);
            let pre = cfg@.subrange(0, s as int);
            assert(cfg@.subrange(0, s + 1).drop_last() == pre);
            assert(cfg@.subrange(0, s + 1).last() == set);
        }
        desc_types.push(set_types);
        s = s + 1;
    }
    proof {
        assert(cfg@.subrange(0, n as int) == cfg@);
    }
    (desc_size, desc_types)
}

/// Errors while creating a sampler
#[derive(Debug, Clone, Copy, PartialEq, Eq, Structural)]
pub enum SamplerError {
    Creation,
}

/// Text that describes `e`.
pub open spec fn sampler_error_text(e: SamplerError) -> Seq<char> {
    "vkCreateSampler call failed"@
}

impl SamplerError {
    /// Human readable description of the error
    pub fn message(&self) -> (r: &'static str)
        ensures
            r@ == sampler_error_text(*self),
    {
        "vkCreateSampler call failed"
    }
}

/// How a vertex buffer is bound to the layout of the vertex shader: the buffer view and
/// the offset of its data
///
/// A single vertex buffer may be bound to different layouts with different offsets.
#[derive(Debug, Clone, Copy)]
pub struct VertexView<T: BufferView> {
    i_view: T,
    i_offset: u32,
}

impl<T: BufferView> VertexView<T> {
    pub closed spec fn spec_view(&self) -> T { self.i_view }
    pub closed spec fn spec_offset(&self) -> u32 { self.i_offset }

    /// View bound from its start
    pub fn new(view: T) -> (r: VertexView<T>)
        ensures
            r.spec_view() == view,
            r.spec_offset() == 0,
    {
        VertexView { i_view: view, i_offset: 0 }
    }

    /// View bound at the offset of a vertex input configuration
    pub fn from_cfg(view: T, cfg: VertexInputCfg) -> (r: VertexView<T>)
        ensures
            r.spec_view() == view,
            r.spec_offset() == cfg.offset,
    {
        VertexView { i_view: view, i_offset: cfg.offset }
    }

    /// View bound at `offset`
    pub fn with_offset(view: T, offset: u32) -> (r: VertexView<T>)
        ensures
            r.spec_view() == view,
            r.spec_offset() == offset,
    {
        VertexView { i_view: view, i_offset: offset }
    }

    pub fn offset(&self) -> (r: u32)
        ensures
            r == self.spec_offset(),
    {
        self.i_offset
    }

    /// Handle of the bound buffer
    pub fn buffer(&self) -> (r: Handle)
        requires
            self.spec_view().spec_index() < self.spec_view().spec_memory().spec_layout().elements@.len(),
            view_element(self.spec_view().spec_memory(), self.spec_view().spec_index()) is Buffer,
        ensures
            r == view_element(self.spec_view().spec_memory(), self.spec_view().spec_index())->vk_buffer,
    {
        self.i_view.buffer()
    }
}

/// Errors while creating a graphics pipeline
#[derive(Debug, Clone, Copy, PartialEq, Eq, Structural)]
pub enum PipelineError {
    DescriptorPool,
    DescriptorSet,
    DescriptorAllocation,
    /// Failed to create the pipeline layout
    Layout,
    /// Failed to create the pipeline
    Pipeline,
}

/// Text that describes `e`.
pub open spec fn pipeline_error_text(e: PipelineError) -> Seq<char> {
    match e {
        PipelineError::DescriptorPool => "Failed to create descriptor pool (vkCreateDescriptorPool call failed)"@,
        PipelineError::DescriptorSet => "Failed to create descriptor set layout (vkCreateDescriptorSetLayout call failed)"@,
        PipelineError::DescriptorAllocation => "Failed to allocate descriptor set (vkDescriptorSetAllocateInfo call failed)"@,
        PipelineError::Layout => "vkCreatePipelineLayout call failed"@,
        PipelineError::Pipeline => "vkCreateGraphicsPipelines call failed"@,
    }
}

impl PipelineError {
    /// Human readable description of the error
    pub fn message(&self) -> (r: &'static str)
        ensures
            r@ == pipeline_error_text(*self),
    {
        match self {
            PipelineError::DescriptorPool => "Failed to create descriptor pool (vkCreateDescriptorPool call failed)",
            PipelineError::DescriptorSet => "Failed to create descriptor set layout (vkCreateDescriptorSetLayout call failed)",
            PipelineError::DescriptorAllocation => "Failed to allocate descriptor set (vkDescriptorSetAllocateInfo call failed)",
            PipelineError::Layout => "vkCreatePipelineLayout call failed",
            PipelineError::Pipeline => "vkCreateGraphicsPipelines call failed",
        }
    }
}

/// Pipeline configuration
///
/// Every one of the `vert_input.len()` vertex bindings reads vertices of `vertex_size`
/// bytes; vertices must be in counterclockwise order. With `enable_depth_test` the depth
/// test is performed, and the render pass needs a depth buffer. `enable_primitive_restart`
/// makes the special index value restart primitive assembly in indexed drawing.
#[derive(Debug, Clone, Copy)]
pub struct PipelineCfg<'a> {
    pub vertex_shader: Handle,
    /// Size of every vertex
    pub vertex_size: u32,
    pub vert_input: &'a [VertexInputCfg],
    pub frag_shader: Handle,
    pub geom_shader: Option<Handle>,
    pub topology: Topology,
    pub extent: Extent2D,
    pub push_constant_size: u32,
    pub render_pass: Handle,
    /// Subpass index inside the render pass
    pub subpass_index: u32,
    pub enable_depth_test: bool,
    pub enable_primitive_restart: bool,
    pub cull_mode: CullMode,
    /// Descriptor set layouts of the pipeline descriptor
    pub descriptor_layouts: &'a [Handle],
}

/// Shader stages of a pipeline configuration: vertex, fragment, and geometry when given.
pub open spec fn spec_cfg_stages(cfg: PipelineCfg) -> Seq<ShaderStageInfo> {
    let base = seq![
        ShaderStageInfo { stage: SHADER_STAGE_VERTEX, module: cfg.vertex_shader },
        ShaderStageInfo { stage: SHADER_STAGE_FRAGMENT, module: cfg.frag_shader },
    ];
    match cfg.geom_shader {
        Some(geom) => base.push(ShaderStageInfo { stage: SHADER_STAGE_GEOMETRY, module: geom }),
        None => base,
    }
}

/// Creation plan of a graphics pipeline
#[derive(Debug)]
pub struct PipelinePlan {
    pub stages: Vec<ShaderStageInfo>,
    /// Binding `i` reads vertices of the configured size
    pub vertex_bindings: Vec<VertexBindingDescription>,
    pub topology: Topology,
    pub primitive_restart_enable: u32,
    pub scissor: Rect2D,
    pub cull_mode: CullMode,
    /// Push constant range for all graphics stages, when the push constants are not empty
    pub push_constant: Option<PushConstantRange>,
    /// Whether the depth test state (test and writes on, less or equal) is given
    pub depth_test: bool,
    pub render_pass: Handle,
    /// Subpass of the render pass the pipeline is used in
    pub subpass: u32,
}

/// Graphics pipeline with its layout
#[derive(Debug)]
pub struct Pipeline {
    i_layout: Handle,
    i_pipeline: Handle,
}

impl Pipeline {
    pub closed spec fn spec_layout(&self) -> Handle { self.i_layout }
    pub closed spec fn spec_pipeline(&self) -> Handle { self.i_pipeline }

    /// Creation plan of the pipeline of `pipe_cfg`
    pub fn plan(pipe_cfg: &PipelineCfg) -> (r: PipelinePlan)
        ensures
            r.stages@ == spec_cfg_stages(*pipe_cfg),
            r.vertex_bindings@ == Seq::new(pipe_cfg.vert_input@.len(), |i: int|
                VertexBindingDescription { binding: i as u32, stride: pipe_cfg.vertex_size }),
            r.topology == pipe_cfg.topology,
            r.primitive_restart_enable == vk_bool(pipe_cfg.enable_primitive_restart),
            r.primitive_restart_enable == 1 <==> pipe_cfg.enable_primitive_restart,
            r.primitive_restart_enable == 0 <==> !pipe_cfg.enable_primitive_restart,
            r.scissor == (Rect2D { x: 0, y: 0, extent: pipe_cfg.extent }),
            r.cull_mode == pipe_cfg.cull_mode,
            r.push_constant == if pipe_cfg.push_constant_size != 0 {
                Some(PushConstantRange { stage_flags: SHADER_STAGE_ALL_GRAPHICS, offset: 0, size: pipe_cfg.push_constant_size })
            } else {
                None
            },
            r.depth_test == pipe_cfg.enable_depth_test,
            r.render_pass == pipe_cfg.render_pass,
            r.subpass == pipe_cfg.subpass_index,
    {
        let mut stages: Vec<ShaderStageInfo> = Vec::new();
        stages.push(ShaderStageInfo { stage: SHADER_STAGE_VERTEX, module: pipe_cfg.vertex_shader });
        stages.push(ShaderStageInfo { stage: SHADER_STAGE_FRAGMENT, module: pipe_cfg.frag_shader });
        if let Some(geom) = pipe_cfg.geom_shader {
            stages.push(ShaderStageInfo { stage: SHADER_STAGE_GEOMETRY, module: geom });
        }
        assert(stages@ =~= spec_cfg_stages(*pipe_cfg));

        let n = pipe_cfg.vert_input.len();
        let mut bindings: Vec<VertexBindingDescription> = Vec::new();
        let mut i: usize = 0;
        while i < n
            invariant
                0 <= i <= n,
                bindings@ == Seq::new(i as nat, |k: int|
                    VertexBindingDescription { binding: k as u32, stride: pipe_cfg.vertex_size }),
            decreases n - i,
        {
            bindings.push(VertexBindingDescription { binding: i as u32, stride: pipe_cfg.vertex_size });
            i = i + 1;
            assert(bindings@ =~= Seq::new(i as nat, |k: int|
                VertexBindingDescription { binding: k as u32, stride: pipe_cfg.vertex_size }));
        }

        let push_constant = if pipe_cfg.push_constant_size != 0 {
            Some(PushConstantRange { stage_flags: SHADER_STAGE_ALL_GRAPHICS, offset: 0, size: pipe_cfg.push_constant_size })
        } else {
            None
        };
        PipelinePlan {
            stages,
            vertex_bindings: bindings,
            topology: pipe_cfg.topology,
            primitive_restart_enable: if pipe_cfg.enable_primitive_restart { 1 } else { 0 },
            scissor: Rect2D { x: 0, y: 0, extent: pipe_cfg.extent },
            cull_mode: pipe_cfg.cull_mode,
            push_constant,
            depth_test: pipe_cfg.enable_depth_test,
            render_pass: pipe_cfg.render_pass,
            subpass: pipe_cfg.subpass_index,
        }
    }

    /// Outcome of the pipeline creation after the layout `layout` was created: the pipeline
    /// when `pipeline` was created, else the error and the layout to destroy
    pub fn new(layout: Handle, pipeline: Option<Handle>) -> (r: Result<Pipeline, (PipelineError, Handle)>)
        ensures
            match pipeline {
                Some(p) => r matches Ok(pipe) && pipe.spec_layout() == layout && pipe.spec_pipeline() == p,
                None => r == Err::<Pipeline, (PipelineError, Handle)>((PipelineError::Pipeline, layout)),
            },
    {
        match pipeline {
            Some(p) => Ok(Pipeline { i_layout: layout, i_pipeline: p }),
            None => Err((PipelineError::Pipeline, layout)),
        }
    }

    /// Pipeline handle
    pub fn pipeline(&self) -> (r: Handle)
        ensures
            r == self.spec_pipeline(),
    {
        self.i_pipeline
    }

    /// Pipeline layout handle
    pub fn layout(&self) -> (r: Handle)
        ensures
            r == self.spec_layout(),
    {
        self.i_layout
    }
}

/// Buffer descriptor of a buffer binding.
pub open spec fn spec_buffer_binding_info<T: BufferView>(b: BufferBinding<T>) -> BufferInfo {
    BufferInfo { buffer: view_element(b.view.spec_memory(), b.view.spec_index())->vk_buffer, offset: b.offset, range: b.range }
}

/// Image descriptor of a sampler binding.
pub open spec fn spec_sampler_binding_info<U: ImageView>(b: SamplerBinding<U>) -> ImageInfo {
    ImageInfo {
        sampler: b.sampler,
        image_view: view_element(b.view.spec_memory(), b.view.spec_index())->vk_image_view,
        image_layout: b.layout,
    }
}

/// Every resource of the binding is an element of the kind it names.
pub open spec fn resources_valid<T: BufferView, U: ImageView>(resources: ShaderBinding<T, U>) -> bool {
    match resources {
        ShaderBinding::Buffers(b) => forall|i: int| 0 <= i < b@.len() ==> {
            &&& (#[trigger] b@[i]).view.spec_index() < b@[i].view.spec_memory().spec_layout().elements@.len()
            &&& view_element(b@[i].view.spec_memory(), b@[i].view.spec_index()) is Buffer
        },
        ShaderBinding::Samplers(s) => forall|i: int| 0 <= i < s@.len() ==> {
            &&& (#[trigger] s@[i]).view.spec_index() < s@[i].view.spec_memory().spec_layout().elements@.len()
            &&& view_element(s@[i].view.spec_memory(), s@[i].view.spec_index()) is Image
        },
    }
}

/// Buffer descriptors written by a binding: those of its buffers, none for samplers.
pub open spec fn spec_buffer_infos<T: BufferView, U: ImageView>(resources: ShaderBinding<T, U>) -> Seq<BufferInfo> {
    match resources {
        ShaderBinding::Buffers(b) => Seq::new(b@.len(), |i: int| spec_buffer_binding_info(b@[i])),
        ShaderBinding::Samplers(_) => Seq::empty(),
    }
}

/// Image descriptors written by a binding: those of its samplers, none for buffers.
pub open spec fn spec_image_infos<T: BufferView, U: ImageView>(resources: ShaderBinding<T, U>) -> Seq<ImageInfo> {
    match resources {
        ShaderBinding::Buffers(_) => Seq::empty(),
        ShaderBinding::Samplers(s) => Seq::new(s@.len(), |i: int| spec_sampler_binding_info(s@[i])),
    }
}

/// One descriptor write of [`PipelineDescriptor::update`] (`VkWriteDescriptorSet`)
#[derive(Debug)]
pub struct DescriptorUpdate {
    pub dst_set: Handle,
    pub dst_binding: u32,
    pub dst_array_element: u32,
    pub descriptor_count: u32,
    pub descriptor_type: DescriptorType,
    pub buffer_info: Vec<BufferInfo>,
    pub image_info: Vec<ImageInfo>,
}

/// Descriptor sets allocated for a fixed set of bindings: the type of each binding of each
/// set, the pool, the sets and their layouts
#[derive(Debug)]
pub struct PipelineDescriptor {
    i_desc_types: Vec<Vec<DescriptorType>>,
    i_desc_pool: Handle,
    i_desc_sets: Vec<Handle>,
    i_desc_layouts: Vec<Handle>,
}

/// Views of the binding types of each set.
pub open spec fn types_view(types: Seq<Vec<DescriptorType>>) -> Seq<Seq<DescriptorType>> {
    Seq::new(types.len(), |i: int| types[i]@)
}

/// The update names an existing set and binding, and its resources are valid.
pub open spec fn update_fits<T: BufferView, U: ImageView>(
    sets: Seq<Handle>,
    types: Seq<Seq<DescriptorType>>,
    info: UpdateInfo<T, U>,
) -> bool {
    &&& info.set < sets.len()
    &&& info.set < types.len()
    &&& info.binding < types[info.set as int].len()
    &&& resources_valid(info.resources)
}

fn buffer_infos<T: BufferView, U: ImageView>(resources: ShaderBinding<T, U>) -> (r: Vec<BufferInfo>)
    requires
        resources_valid(resources),
    ensures
        r@ == spec_buffer_infos(resources),
{
    let mut r: Vec<BufferInfo> = Vec::new();
    match resources {
        ShaderBinding::Buffers(b) => {
            let n = b.len();
            let mut i: usize = 0;
            while i < n
                invariant
                    n == b@.len(),
                    resources_valid(ShaderBinding::<T, U>::Buffers(b)),
                    0 <= i <= n,
                    r@ == Seq::new(i as nat, |k: int| spec_buffer_binding_info(b@[k])),
                decreases n - i,
            {
                let binding = &b[i];
                assert(binding.view.spec_index() < binding.view.spec_memory().spec_layout().elements@.len());
                let (buffer, offset, range) = binding.info();
                r.push(BufferInfo { buffer, offset, range });
                i = i + 1;
                assert(r@ =~= Seq::new(i as nat, |k: int| spec_buffer_binding_info(b@[k])));
            }
        },
        ShaderBinding::Samplers(_) => {
            assert(r@ =~= spec_buffer_infos(resources));
        },
    }
    r
}

fn image_infos<T: BufferView, U: ImageView>(resources: ShaderBinding<T, U>) -> (r: Vec<ImageInfo>)
    requires
        resources_valid(resources),
    ensures
        r@ == spec_image_infos(resources),
{
    let mut r: Vec<ImageInfo> = Vec::new();
    match resources {
        ShaderBinding::Samplers(s) => {
            let n = s.len();
            let mut i: usize = 0;
            while i < n
                invariant
                    n == s@.len(),
                    resources_valid(ShaderBinding::<T, U>::Samplers(s)),
                    0 <= i <= n,
                    r@ == Seq::new(i as nat, |k: int| spec_sampler_binding_info(s@[k])),
                decreases n - i,
            {
                let binding = &s[i];
                assert(binding.view.spec_index() < binding.view.spec_memory().spec_layout().elements@.len());
                let (sampler, image_view, image_layout) = binding.info();
                r.push(ImageInfo { sampler, image_view, image_layout });
                i = i + 1;
                assert(r@ =~= Seq::new(i as nat, |k: int| spec_sampler_binding_info(s@[k])));
            }
        },
        ShaderBinding::Buffers(_) => {
            assert(r@ =~= spec_image_infos(resources));
        },
    }
    r
}

impl PipelineDescriptor {
    pub closed spec fn spec_types(&self) -> Seq<Seq<DescriptorType>> { types_view(self.i_desc_types@) }
    pub closed spec fn spec_pool(&self) -> Handle { self.i_desc_pool }
    pub closed spec fn spec_sets(&self) -> Seq<Handle> { self.i_desc_sets@ }
    pub closed spec fn spec_layouts(&self) -> Seq<Handle> { self.i_desc_layouts@ }

    /// Descriptor of the binding types `types` (see [`descriptor_plan`]) allocated from
    /// `pool` as `sets` with layouts `layouts`; a null pool means that there is no binding
    pub fn new(types: Vec<Vec<DescriptorType>>, pool: Handle, sets: Vec<Handle>, layouts: Vec<Handle>) -> (r: PipelineDescriptor)
        ensures
            pool == NULL_HANDLE ==> r.spec_pool() == NULL_HANDLE && r.spec_types().len() == 0
                && r.spec_sets().len() == 0 && r.spec_layouts().len() == 0,
            pool != NULL_HANDLE ==> r.spec_pool() == pool && r.spec_types() == types_view(types@)
                && r.spec_sets() == sets@ && r.spec_layouts() == layouts@,
    {
        if pool == NULL_HANDLE {
            PipelineDescriptor::empty()
        } else {
            PipelineDescriptor { i_desc_types: types, i_desc_pool: pool, i_desc_sets: sets, i_desc_layouts: layouts }
        }
    }

    /// Descriptor with no binding
    pub fn empty() -> (r: PipelineDescriptor)
        ensures
            r.spec_pool() == NULL_HANDLE,
            r.spec_types().len() == 0,
            r.spec_sets().len() == 0,
            r.spec_layouts().len() == 0,
    {
        PipelineDescriptor { i_desc_types: Vec::new(), i_desc_pool: NULL_HANDLE, i_desc_sets: Vec::new(), i_desc_layouts: Vec::new() }
    }

    /// Whether the descriptor holds no binding
    pub fn is_empty(&self) -> (r: bool)
        ensures
            r == (self.spec_pool() == NULL_HANDLE),
    {
        self.i_desc_pool == NULL_HANDLE
    }

    /// Number of sets whose binding types are known
    pub fn set_count(&self) -> (r: usize)
        ensures
            r == self.spec_types().len(),
    {
        self.i_desc_types.len()
    }

    /// Number of bindings of set `set`
    pub fn binding_count(&self, set: usize) -> (r: usize)
        requires
            set < self.spec_types().len(),
        ensures
            r == self.spec_types()[set as int].len(),
    {
        self.i_desc_types[set].len()
    }

    /// Descriptor pool handle; null when empty
    pub fn pool(&self) -> (r: Handle)
        ensures
            r == self.spec_pool(),
    {
        self.i_desc_pool
    }

    /// Configuration of `count` sets with the same bindings `set`
    pub fn with_set<'a>(set: &'a [BindingCfg], count: usize) -> (r: Vec<&'a [BindingCfg]>)
        ensures
            r@ == Seq::new(count as nat, |_i: int| set),
    {
        let mut r: Vec<&'a [BindingCfg]> = Vec::new();
        let mut i: usize = 0;
        while i < count
            invariant
                0 <= i <= count,
                r@ == Seq::new(i as nat, |_k: int| set),
            decreases count - i,
        {
            r.push(set);
            i = i + 1;
            assert(r@ =~= Seq::new(i as nat, |_k: int| set));
        }
        r
    }

    /// Configuration of `sets_num` sets of `count` bindings each, every binding described by
    /// `cfg`: `layout(set = X, binding = Y)` for `X < sets_num` and `Y < count`
    pub fn with_sets(cfg: BindingCfg, sets_num: usize, count: usize) -> (r: Vec<Vec<BindingCfg>>)
        ensures
            r@.len() == sets_num,
            forall|i: int| 0 <= i < sets_num ==> (#[trigger] r@[i])@ == Seq::new(count as nat, |_j: int| cfg),
    {
        let mut r: Vec<Vec<BindingCfg>> = Vec::new();
        let mut i: usize = 0;
        while i < sets_num
            invariant
                0 <= i <= sets_num,
                r@.len() == i,
                forall|k: int| 0 <= k < i ==> (#[trigger] r@[k])@ == Seq::new(count as nat, |_j: int| cfg),
            decreases sets_num - i,
        {
            let mut set: Vec<BindingCfg> = Vec::new();
            let mut j: usize = 0;
            while j < count
                invariant
                    0 <= j <= count,
                    set@ == Seq::new(j as nat, |_k: int| cfg),
                decreases count - j,
            {
                set.push(cfg);
                j = j + 1;
                assert(set@ =~= Seq::new(j as nat, |_k: int| cfg));
            }
            r.push(set);
            i = i + 1;
        }
        r
    }

    /// Descriptor set handles
    pub fn descriptor_sets(&self) -> (r: &[Handle])
        ensures
            r@ == self.spec_sets(),
    {
        self.i_desc_sets.as_slice()
    }

    /// Descriptor set layout handles
    pub fn descriptor_layouts(&self) -> (r: &[Handle])
        ensures
            r@ == self.spec_layouts(),
    {
        self.i_desc_layouts.as_slice()
    }

    /// Writes of `update_info`, one per entry: into the set it names, with the type of its
    /// binding, as many descriptors as it has resources, and the descriptors of its buffers
    /// or samplers
    pub fn update<T: BufferView, U: ImageView>(&self, update_info: &[UpdateInfo<T, U>]) -> (r: Vec<DescriptorUpdate>)
        requires
            forall|i: int| 0 <= i < update_info@.len() ==>
                update_fits(self.spec_sets(), self.spec_types(), #[trigger] update_info@[i]),
        ensures
            r@.len() == update_info@.len(),
            forall|i: int| 0 <= i < r@.len() ==> {
                let info = update_info@[i];
                let w = #[trigger] r@[i];
                &&& w.dst_set == self.spec_sets()[info.set as int]
                &&& w.dst_binding == info.binding
                &&& w.dst_array_element == info.starting_array_element
                &&& w.descriptor_count == (match info.resources {
                    ShaderBinding::Buffers(val) => val@.len() as u32,
                    ShaderBinding::Samplers(val) => val@.len() as u32,
                })
                &&& w.descriptor_type == self.spec_types()[info.set as int][info.binding as int]
                &&& w.buffer_info@ == spec_buffer_infos(info.resources)
                &&& w.image_info@ == spec_image_infos(info.resources)
            },
    {
        let mut r: Vec<DescriptorUpdate> = Vec::new();
        let n = update_info.len();
        let mut i: usize = 0;
        while i < n
            invariant
                n == update_info@.len(),
                forall|k: int| 0 <= k < update_info@.len() ==>
                    update_fits(self.spec_sets(), self.spec_types(), #[trigger] update_info@[k]),
                0 <= i <= n,
                r@.len() == i,
                forall|k: int| 0 <= k < i ==> {
                    let info = update_info@[k];
                    let w = #[trigger] r@[k];
                    &&& w.dst_set == self.spec_sets()[info.set as int]
                    &&& w.dst_binding == info.binding
                    &&& w.dst_array_element == info.starting_array_element
                    &&& w.descriptor_count == (match info.resources {
                        ShaderBinding::Buffers(val) => val@.len() as u32,
                        ShaderBinding::Samplers(val) => val@.len() as u32,
                    })
                    &&& w.descriptor_type == self.spec_types()[info.set as int][info.binding as int]
                    &&& w.buffer_info@ == spec_buffer_infos(info.resources)
                    &&& w.image_info@ == spec_image_infos(info.resources)
                },
            decreases n - i,
        {
            let info = &update_info[i];
            assert(update_fits(self.spec_sets(), self.spec_types(), update_info@[i as int]));
            let set_types: &Vec<DescriptorType> = &self.i_desc_types[info.set];
            assert(set_types@ == self.spec_types()[info.set as int]);
            let w = DescriptorUpdate {
                dst_set: self.i_desc_sets[info.set],
                dst_binding: info.binding,
                dst_array_element: info.starting_array_element,
                descriptor_count: info.resources.len(),
                descriptor_type: set_types[info.binding as usize],
                buffer_info: buffer_infos(info.resources),
                image_info: image_infos(info.resources),
            };
            r.push(w);
            i = i + 1;
        }
        r
    }
}

/// Step of a descriptor allocation that can fail
#[derive(Debug, Clone, Copy, PartialEq, Eq, Structural)]
pub enum DescriptorStep {
    /// Creating the descriptor pool
    Pool,
    /// Creating the layout of set `i`, after the layouts of the sets before it
    SetLayout(usize),
    /// Allocating the descriptor sets, after the layout of every set
    Allocation,
}

/// Object made while allocating descriptors
#[derive(Debug, Clone, Copy, PartialEq, Eq, Structural)]
pub enum DescriptorObject {
    /// The descriptor pool
    Pool,
    /// The layout of set `i`
    SetLayout(usize),
}

/// Error reported when `step` fails.
pub open spec fn spec_descriptor_failure_error(step: DescriptorStep) -> PipelineDescriptorError {
    match step {
        DescriptorStep::Pool => PipelineDescriptorError::DescriptorPool,
        DescriptorStep::SetLayout(_) => PipelineDescriptorError::DescriptorSet,
        DescriptorStep::Allocation => PipelineDescriptorError::DescriptorAllocation,
    }
}

/// Number of set layouts made before `step` when `set_count` sets are allocated.
pub open spec fn layouts_made(step: DescriptorStep, set_count: nat) -> nat {
    match step {
        DescriptorStep::Pool => 0,
        DescriptorStep::SetLayout(i) => i as nat,
        DescriptorStep::Allocation => set_count,
    }
}

/// Objects destroyed, in order, when `step` fails: nothing when the pool could not be made,
/// else the pool and then the set layouts made so far, in the order they were made.
pub open spec fn spec_descriptor_teardown(step: DescriptorStep, set_count: nat) -> Seq<DescriptorObject> {
    match step {
        DescriptorStep::Pool => Seq::empty(),
        _ => seq![DescriptorObject::Pool]
            + Seq::new(layouts_made(step, set_count), |j: int| DescriptorObject::SetLayout(j as usize)),
    }
}

impl PipelineDescriptor {
    /// Error and objects to destroy, in order, when `step` of allocating `set_count` sets fails
    pub fn failure(step: DescriptorStep, set_count: usize) -> (r: (PipelineDescriptorError, Vec<DescriptorObject>))
        ensures
            r.0 == spec_descriptor_failure_error(step),
            r.1@ == spec_descriptor_teardown(step, set_count as nat),
    {
        let (error, made): (PipelineDescriptorError, usize) = match step {
            DescriptorStep::Pool => return (PipelineDescriptorError::DescriptorPool, Vec::new()),
            DescriptorStep::SetLayout(i) => (PipelineDescriptorError::DescriptorSet, i),
            DescriptorStep::Allocation => (PipelineDescriptorError::DescriptorAllocation, set_count),
        };
        let ghost target = Seq::new(made as nat, |j: int| DescriptorObject::SetLayout(j as usize));
        let mut teardown: Vec<DescriptorObject> = Vec::new();
        teardown.push(DescriptorObject::Pool);
        let mut j: usize = 0;
        while j < made
            invariant
                0 <= j <= made,
                target == Seq::new(made as nat, |k: int| DescriptorObject::SetLayout(k as usize)),
                teardown@ == seq![DescriptorObject::Pool] + target.subrange(0, j as int),
            decreases made - j,
        {
            teardown.push(DescriptorObject::SetLayout(j));
            proof {
                assert(target.subrange(0, j + 1) =~= target.subrange(0, j as int).push(DescriptorObject::SetLayout(j)));
            }
            j = j + 1;
            assert(teardown@ =~= seq![DescriptorObject::Pool] + target.subrange(0, j as int));
        }
        assert(target.subrange(0, made as int) =~= target);
        (error, teardown)
    }
}

/// A failed descriptor allocation leaks nothing: the pool and every set layout made before
/// the failing step are destroyed, each once, and nothing else.
pub proof fn lemma_descriptor_teardown_complete(step: DescriptorStep, set_count: usize, o: DescriptorObject)
    ensures
        spec_descriptor_teardown(step, set_count as nat).contains(o) <==> step != DescriptorStep::Pool && match o {
            DescriptorObject::Pool => true,
            DescriptorObject::SetLayout(j) => j < layouts_made(step, set_count as nat),
        },
        step != DescriptorStep::Pool ==> spec_descriptor_teardown(step, set_count as nat).no_duplicates(),
{
    let t = spec_descriptor_teardown(step, set_count as nat);
    if step != DescriptorStep::Pool {
        let n = layouts_made(step, set_count as nat);
        assert(n <= usize::MAX);
        let tail = Seq::new(n, |j: int| DescriptorObject::SetLayout(j as usize));
        assert(t == seq![DescriptorObject::Pool] + tail);
        assert(t[0] == DescriptorObject::Pool);
        match o {
            DescriptorObject::Pool => {
                assert(t.contains(o));
            },
            DescriptorObject::SetLayout(j) => {
                if j < n {
                    assert(t[j + 1] == o);
                }
                if t.contains(o) {
                    let k = choose|k: int| 0 <= k < t.len() && t[k] == o;
                    assert(k >= 1);
                    assert(t[k] == tail[k - 1]);
                }
            },
        }
        assert forall|a: int, b: int| 0 <= a < t.len() && 0 <= b < t.len() && a != b implies t[a] != t[b] by {
            if a > 0 && b > 0 {
                assert(t[a] == tail[a - 1]);
                assert(t[b] == tail[b - 1]);
            } else if a == 0 {
                assert(t[b] == tail[b - 1]);
            } else {
                assert(t[a] == tail[a - 1]);
            }
        }
    } else {
        assert(t.len() == 0);
    }
}

/// References of a subpass as [`SubpassInfo::references`] makes them.
pub open spec fn subpass_references_match(r: SubpassReferences, s: SubpassInfo) -> bool {
    &&& r.input@ == references_of(s.input_attachments@, IMAGE_LAYOUT_COLOR_ATTACHMENT_OPTIMAL)
    &&& r.color@ == references_of(s.color_attachments@, IMAGE_LAYOUT_COLOR_ATTACHMENT_OPTIMAL)
    &&& r.resolve@ == references_of(s.resolve_attachments@, IMAGE_LAYOUT_COLOR_ATTACHMENT_OPTIMAL)
    &&& r.depth == (AttachmentReference {
        attachment: s.depth_stencil_attachment,
        layout: IMAGE_LAYOUT_DEPTH_STENCIL_ATTACHMENT_OPTIMAL,
    })
}

/// The subpass has no resolve attachments, or one for each color attachment.
pub open spec fn resolve_matches(s: SubpassInfo) -> bool {
    s.resolve_attachments@.len() == 0 || s.resolve_attachments@.len() == s.color_attachments@.len()
}

/// Context for executing a graphics pipeline
#[derive(Debug, Clone, Copy, PartialEq, Eq, Structural)]
pub struct RenderPass {
    i_rp: Handle,
}

impl RenderPass {
    pub closed spec fn spec_render_pass(&self) -> Handle { self.i_rp }

    /// Attachment references of every subpass of `cfg`, in order
    pub fn subpass_references(cfg: &RenderPassCfg) -> (r: Vec<SubpassReferences>)
        ensures
            r@.len() == cfg.subpasses@.len(),
            forall|i: int| 0 <= i < r@.len() ==> subpass_references_match(#[trigger] r@[i], cfg.subpasses@[i]),
    {
        let mut r: Vec<SubpassReferences> = Vec::new();
        let n = cfg.subpasses.len();
        let mut i: usize = 0;
        while i < n
            invariant
                n == cfg.subpasses@.len(),
                0 <= i <= n,
                r@.len() == i,
                forall|k: int| 0 <= k < i ==> subpass_references_match(#[trigger] r@[k], cfg.subpasses@[k]),
            decreases n - i,
        {
            r.push(cfg.subpasses[i].references());
            i = i + 1;
        }
        r
    }

    /// Whether every subpass of `cfg` has no resolve attachments or as many as color
    /// attachments, as a render pass asks
    pub fn resolves_match(cfg: &RenderPassCfg) -> (r: bool)
        ensures
            r == forall|i: int| 0 <= i < cfg.subpasses@.len() ==> #[trigger] resolve_matches(cfg.subpasses@[i]),
    {
        let n = cfg.subpasses.len();
        let mut i: usize = 0;
        while i < n
            invariant
                n == cfg.subpasses@.len(),
                0 <= i <= n,
                forall|k: int| 0 <= k < i ==> #[trigger] resolve_matches(cfg.subpasses@[k]),
            decreases n - i,
        {
            let s = &cfg.subpasses[i];
            if s.resolve_attachments.len() != 0 && s.resolve_attachments.len() != s.color_attachments.len() {
                assert(!resolve_matches(cfg.subpasses@[i as int]));
                return false;
            }
            i = i + 1;
        }
        true
    }

    /// Configuration pieces of a render pass with a single subpass drawing to a single
    /// attachment of format `img_format`: the attachment, the barriers and the subpass
    pub fn single_subpass(img_format: ImageFormat) -> (r: (AttachmentInfo, Vec<SubpassSync>, SubpassInfo<'static>))
        ensures
            r.0 == single_subpass_attachment_spec(img_format),
            r.0.format == img_format,
            r.0.load_op == ATTACHMENT_LOAD_OP_CLEAR,
            r.0.store_op == ATTACHMENT_STORE_OP_STORE,
            r.0.initial_layout == IMAGE_LAYOUT_UNDEFINED,
            r.0.final_layout == IMAGE_LAYOUT_PRESENT_SRC,
            r.1@ == single_subpass_sync_spec(),
            r.1@.len() == 2,
            r.1@[0].src_subpass == SUBPASS_EXTERNAL && r.1@[0].dst_subpass == 0,
            r.1@[1].src_subpass == 0 && r.1@[1].dst_subpass == SUBPASS_EXTERNAL,
            r.2.color_attachments@ == seq![0u32],
            r.2.input_attachments@.len() == 0,
            r.2.resolve_attachments@.len() == 0,
            r.2.preserve_attachments@.len() == 0,
            r.2.depth_stencil_attachment == NO_ATTACHMENT,
    {
        let subpass = SubpassInfo {
            input_attachments: &[],
            color_attachments: &SINGLE_SUBPASS_COLOR_ATTACHMENTS,
            resolve_attachments: &[],
            depth_stencil_attachment: NO_ATTACHMENT,
            preserve_attachments: &[],
        };
        assert(subpass.color_attachments@ =~= seq![0u32]);
        (single_subpass_attachment(img_format), single_subpass_sync(), subpass)
    }

    /// Render pass `rp`
    pub fn new(rp: Handle) -> (r: RenderPass)
        ensures
            r.spec_render_pass() == rp,
    {
        RenderPass { i_rp: rp }
    }

    /// Render pass handle
    pub fn render_pass(&self) -> (r: Handle)
        ensures
            r == self.spec_render_pass(),
    {
        self.i_rp
    }
}

} // verus!
