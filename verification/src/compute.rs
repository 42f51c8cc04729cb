//! Compute pipeline over storage buffers.
//!
//! Every buffer of the configuration is bound to its own binding of a single descriptor
//! set, in order; the creation plan says what the pipeline is made of, and what is torn
//! down when a step of its creation fails.

use vstd::prelude::*;
use crate::flags::{Handle, DescriptorType, SHADER_STAGE_COMPUTE, WHOLE_SIZE};
use crate::graphics::{DescriptorPoolSize, DescriptorSetLayoutBinding};
use crate::layout::element_size;
use crate::memory::{BufferView, view_element};
use crate::pipeline::{BufferInfo, PushConstantRange, ShaderStageInfo};

verus! {

/// Descriptor type of a storage buffer (`VK_DESCRIPTOR_TYPE_STORAGE_BUFFER`).
pub const DESCRIPTOR_TYPE_STORAGE_BUFFER: DescriptorType = 7;

/// Errors while creating a compute pipeline
#[derive(Debug, Clone, Copy, PartialEq, Eq, Structural)]
pub enum PipelineError {
    DescriptorPool,
    DescriptorSetLayout,
    DescriptorSet,
    PipelineLayout,
    PipelineCache,
    Pipeline,
}

/// Text that describes `e`.
pub open spec fn pipeline_error_text(e: PipelineError) -> Seq<char> {
    match e {
        PipelineError::DescriptorPool => "Failed to create descriptor pool (vkCreateDescriptorPool call failed)"@,
        PipelineError::DescriptorSetLayout =>
            "Failed to create descriptor set layout (vkCreateDescriptorSetLayout call failed)"@,
        PipelineError::DescriptorSet => "Failed to allocate descriptor set (vkAllocateDescriptorSets call failed)"@,
        PipelineError::PipelineLayout => "Failed to create pipeline layout (vkCreatePipelineLayout call failed)"@,
        PipelineError::PipelineCache => "Failed to create pipeline cache (vkCreatePipelineCache call failed)"@,
        PipelineError::Pipeline => "Failed to create pipeline (vkCreatePipeline call failed)"@,
    }
}

impl PipelineError {
    /// Human readable description of the error
    pub fn message(&self) -> (r: &'static str)
        ensures
            r@ == pipeline_error_text(*self),
    {
        match self {
            PipelineError::DescriptorPool => "Failed to create descriptor pool (vkCreateDescriptorPool call failed)",
            PipelineError::DescriptorSetLayout =>
                "Failed to create descriptor set layout (vkCreateDescriptorSetLayout call failed)",
            PipelineError::DescriptorSet => "Failed to allocate descriptor set (vkAllocateDescriptorSets call failed)",
            PipelineError::PipelineLayout => "Failed to create pipeline layout (vkCreatePipelineLayout call failed)",
            PipelineError::PipelineCache => "Failed to create pipeline cache (vkCreatePipelineCache call failed)",
            PipelineError::Pipeline => "Failed to create pipeline (vkCreatePipeline call failed)",
        }
    }
}

/// Errors while creating a compute pipeline on a logical device
#[derive(Debug, Clone, Copy, PartialEq, Eq, Structural)]
pub enum ComputePipelineError {
    DescriptorPool,
    DescriptorSetLayout,
    DescriptorSet,
    PipelineLayout,
    PipelineCache,
    Pipeline,
}

/// Configuration of a compute pipeline: the storage buffers bound in order, the shader
/// module and the size of the push constants (zero for none)
#[derive(Debug, Clone, Copy)]
pub struct PipelineCfg<'a, T: BufferView> {
    pub buffers: &'a [T],
    pub shader: Handle,
    pub push_constant_size: u32,
}

/// Every view of `buffers` is a buffer element of its memory.
pub open spec fn all_buffers<T: BufferView>(buffers: Seq<T>) -> bool {
    forall|i: int| 0 <= i < buffers.len() ==> {
        &&& (#[trigger] buffers[i]).spec_index() < buffers[i].spec_memory().spec_layout().elements@.len()
        &&& view_element(buffers[i].spec_memory(), buffers[i].spec_index()) is Buffer
    }
}

/// Requested size of the buffer of `view`.
pub open spec fn view_size<T: BufferView>(view: T) -> u64 {
    element_size(view_element(view.spec_memory(), view.spec_index()))
}

/// Handle of the buffer of `view`.
pub open spec fn view_buffer<T: BufferView>(view: T) -> Handle {
    view_element(view.spec_memory(), view.spec_index())->vk_buffer
}

/// Sum of the sizes of the first `n` buffers.
pub open spec fn sizes_before<T: BufferView>(buffers: Seq<T>, n: nat) -> int
    decreases n,
{
    if n == 0 || n > buffers.len() { 0 } else { sizes_before(buffers, (n - 1) as nat) + view_size(buffers[n - 1]) }
}

/// Descriptor of buffer `i`: the whole buffer from the sum of the sizes of the buffers before it.
pub open spec fn spec_buffer_info<T: BufferView>(buffers: Seq<T>, i: int) -> BufferInfo {
    BufferInfo { buffer: view_buffer(buffers[i]), offset: sizes_before(buffers, i as nat) as u64, range: WHOLE_SIZE }
}

/// Binding `i` of the set: one storage buffer for the compute stage.
pub open spec fn spec_storage_binding(i: int) -> DescriptorSetLayoutBinding {
    DescriptorSetLayoutBinding {
        binding: i as u32,
        descriptor_type: DESCRIPTOR_TYPE_STORAGE_BUFFER,
        descriptor_count: 1,
        stage_flags: SHADER_STAGE_COMPUTE,
    }
}

/// What a compute pipeline is made of
#[derive(Debug)]
pub struct ComputePlan {
    /// The only pool size: one storage buffer descriptor per buffer
    pub pool_size: DescriptorPoolSize,
    /// Number of sets allocated from the pool
    pub max_sets: u32,
    /// Binding `i` holds buffer `i`
    pub bindings: Vec<DescriptorSetLayoutBinding>,
    /// Push constant range, when the push constants are not empty
    pub push_constant: Option<PushConstantRange>,
    /// Descriptor written to binding `i`
    pub buffer_infos: Vec<BufferInfo>,
    /// The compute stage
    pub stage: ShaderStageInfo,
}

/// Creation plan of the compute pipeline of `cfg`
pub fn plan<T: BufferView>(cfg: &PipelineCfg<T>) -> (r: ComputePlan)
    requires
        all_buffers(cfg.buffers@),
        sizes_before(cfg.buffers@, cfg.buffers@.len()) <= u64::MAX,
    ensures
        r.pool_size == (DescriptorPoolSize {
            ty: DESCRIPTOR_TYPE_STORAGE_BUFFER,
            descriptor_count: cfg.buffers@.len() as u32,
        }),
        r.max_sets == 1,
        r.bindings@ == Seq::new(cfg.buffers@.len(), |i: int| spec_storage_binding(i)),
        r.push_constant == if cfg.push_constant_size != 0 {
            Some(PushConstantRange { stage_flags: SHADER_STAGE_COMPUTE, offset: 0, size: cfg.push_constant_size })
        } else {
            None
        },
        r.buffer_infos@ == Seq::new(cfg.buffers@.len(), |i: int| spec_buffer_info(cfg.buffers@, i)),
        r.stage == (ShaderStageInfo { stage: SHADER_STAGE_COMPUTE, module: cfg.shader }),
        r.pool_size.ty == DESCRIPTOR_TYPE_STORAGE_BUFFER,
        r.bindings@.len() == cfg.buffers@.len(),
        forall|i: int| 0 <= i < r.bindings@.len() ==> {
            &&& (#[trigger] r.bindings@[i]).descriptor_type == r.pool_size.ty
            &&& r.bindings@[i].binding == i as u32
            &&& r.bindings@[i].descriptor_count == 1
            &&& r.bindings@[i].stage_flags == SHADER_STAGE_COMPUTE
        },
{
    let buffers = cfg.buffers;
    let n = buffers.len();
    let mut bindings: Vec<DescriptorSetLayoutBinding> = Vec::new();
    let mut infos: Vec<BufferInfo> = Vec::new();
    let mut offset_counter: u64 = 0;
    let mut i: usize = 0;
    while i < n
        invariant
            n == buffers@.len(),
            all_buffers(buffers@),
            sizes_before(buffers@, n as nat) <= u64::MAX,
            0 <= i <= n,
            offset_counter == sizes_before(buffers@, i as nat),
            bindings@ == Seq::new(i as nat, |k: int| spec_storage_binding(k)),
            infos@ == Seq::new(i as nat, |k: int| spec_buffer_info(buffers@, k)),
        decreases n - i,
    {
        let view = &buffers[i];
        assert(all_buffers(buffers@) ==> view.spec_index() < view.spec_memory().spec_layout().elements@.len());
        bindings.push(DescriptorSetLayoutBinding {
            binding: i as u32,
            descriptor_type: DESCRIPTOR_TYPE_STORAGE_BUFFER,
            descriptor_count: 1,
            stage_flags: SHADER_STAGE_COMPUTE,
        });
        infos.push(BufferInfo { buffer: view.buffer(), offset: offset_counter, range: WHOLE_SIZE });
        proof {
            lemma_sizes_before_monotonic(buffers@, (i + 1) as nat, n as nat);
        }
        offset_counter = offset_counter + view.size();
        i = i + 1;
        assert(bindings@ =~= Seq::new(i as nat, |k: int| spec_storage_binding(k)));
        assert(infos@ =~= Seq::new(i as nat, |k: int| spec_buffer_info(buffers@, k)));
    }
    let push_constant = if cfg.push_constant_size != 0 {
        Some(PushConstantRange { stage_flags: SHADER_STAGE_COMPUTE, offset: 0, size: cfg.push_constant_size })
    } else {
        None
    };
    ComputePlan {
        pool_size: DescriptorPoolSize { ty: DESCRIPTOR_TYPE_STORAGE_BUFFER, descriptor_count: n as u32 },
        max_sets: 1,
        bindings,
        push_constant,
        buffer_infos: infos,
        stage: ShaderStageInfo { stage: SHADER_STAGE_COMPUTE, module: cfg.shader },
    }
}

/// The set layout of a compute plan matches its pool: binding `i` is one storage buffer,
/// of the pool's descriptor type, seen by the compute stage.
pub proof fn lemma_compute_layout_matches_pool(
    n: nat,
    bindings: Seq<DescriptorSetLayoutBinding>,
    pool: DescriptorPoolSize,
    i: int,
)
    requires
        n <= u32::MAX,
        bindings == Seq::new(n, |k: int| spec_storage_binding(k)),
        pool == (DescriptorPoolSize { ty: DESCRIPTOR_TYPE_STORAGE_BUFFER, descriptor_count: n as u32 }),
        0 <= i < n,
    ensures
        bindings[i].descriptor_type == pool.ty,
        bindings[i].descriptor_type == 7,
        bindings[i].binding == i,
        bindings[i].descriptor_count == 1,
        bindings[i].stage_flags == SHADER_STAGE_COMPUTE,
        pool.descriptor_count == bindings.len(),
{
}

/// Sums of sizes grow with the number of buffers.
pub proof fn lemma_sizes_before_monotonic<T: BufferView>(buffers: Seq<T>, i: nat, j: nat)
    requires
        i <= j <= buffers.len(),
    ensures
        sizes_before(buffers, i) <= sizes_before(buffers, j),
    decreases j - i,
{
    if i < j {
        lemma_sizes_before_monotonic(buffers, i, (j - 1) as nat);
    }
}

/// The buffers are laid out one after the other: each descriptor starts where the one before
/// it ends.
pub proof fn lemma_buffer_infos_adjacent<T: BufferView>(buffers: Seq<T>, i: int)
    requires
        0 < i < buffers.len(),
        sizes_before(buffers, buffers.len()) <= u64::MAX,
    ensures
        spec_buffer_info(buffers, i).offset == spec_buffer_info(buffers, i - 1).offset + view_size(buffers[i - 1]),
{
    lemma_sizes_before_monotonic(buffers, i as nat, buffers.len());
    lemma_sizes_before_monotonic(buffers, 0, (i - 1) as nat);
    assert(sizes_before(buffers, i as nat) == sizes_before(buffers, (i - 1) as nat) + view_size(buffers[i - 1]));
}

/// Objects made while a compute pipeline is created, in creation order
#[derive(Debug, Clone, Copy, PartialEq, Eq, Structural)]
pub enum ComputeObject {
    DescriptorPool,
    DescriptorSetLayout,
    PipelineLayout,
    DescriptorSet,
    PipelineCache,
    Pipeline,
}

/// Position of an object in the creation order.
pub open spec fn creation_order(o: ComputeObject) -> int {
    match o {
        ComputeObject::DescriptorPool => 0,
        ComputeObject::DescriptorSetLayout => 1,
        ComputeObject::PipelineLayout => 2,
        ComputeObject::DescriptorSet => 3,
        ComputeObject::PipelineCache => 4,
        ComputeObject::Pipeline => 5,
    }
}

/// Error reported when creating `step` fails.
pub open spec fn spec_failure_error(step: ComputeObject) -> PipelineError {
    match step {
        ComputeObject::DescriptorPool => PipelineError::DescriptorPool,
        ComputeObject::DescriptorSetLayout => PipelineError::DescriptorSetLayout,
        ComputeObject::PipelineLayout => PipelineError::PipelineLayout,
        ComputeObject::DescriptorSet => PipelineError::DescriptorSet,
        ComputeObject::PipelineCache => PipelineError::PipelineCache,
        ComputeObject::Pipeline => PipelineError::Pipeline,
    }
}

/// Objects destroyed, in order, when creating `step` fails: every object created before it,
/// newest first, but the descriptor set, which goes with its pool.
pub open spec fn spec_teardown(step: ComputeObject) -> Seq<ComputeObject> {
    match step {
        ComputeObject::DescriptorPool => seq![],
        ComputeObject::DescriptorSetLayout => seq![ComputeObject::DescriptorPool],
        ComputeObject::PipelineLayout => seq![ComputeObject::DescriptorSetLayout, ComputeObject::DescriptorPool],
        ComputeObject::DescriptorSet | ComputeObject::PipelineCache => seq![
            ComputeObject::PipelineLayout,
            ComputeObject::DescriptorSetLayout,
            ComputeObject::DescriptorPool,
        ],
        ComputeObject::Pipeline => seq![
            ComputeObject::PipelineCache,
            ComputeObject::PipelineLayout,
            ComputeObject::DescriptorSetLayout,
            ComputeObject::DescriptorPool,
        ],
    }
}

/// Error and teardown when creating `step` fails
pub fn failure(step: ComputeObject) -> (r: (PipelineError, Vec<ComputeObject>))
    ensures
        r.0 == spec_failure_error(step),
        r.1@ == spec_teardown(step),
{
    let mut teardown: Vec<ComputeObject> = Vec::new();
    let (error, order): (PipelineError, u8) = match step {
        ComputeObject::DescriptorPool => (PipelineError::DescriptorPool, 0),
        ComputeObject::DescriptorSetLayout => (PipelineError::DescriptorSetLayout, 1),
        ComputeObject::PipelineLayout => (PipelineError::PipelineLayout, 2),
        ComputeObject::DescriptorSet => (PipelineError::DescriptorSet, 3),
        ComputeObject::PipelineCache => (PipelineError::PipelineCache, 4),
        ComputeObject::Pipeline => (PipelineError::Pipeline, 5),
    };
    if order > 4 {
        teardown.push(ComputeObject::PipelineCache);
    }
    if order > 2 {
        teardown.push(ComputeObject::PipelineLayout);
    }
    if order > 1 {
        teardown.push(ComputeObject::DescriptorSetLayout);
    }
    if order > 0 {
        teardown.push(ComputeObject::DescriptorPool);
    }
    assert(teardown@ =~= spec_teardown(step));
    (error, teardown)
}

/// A failed creation leaks nothing: what is torn down is exactly what was created before the
/// failing step, but the descriptor set, which its pool frees.
pub proof fn lemma_teardown_complete(step: ComputeObject, o: ComputeObject)
    ensures
        spec_teardown(step).contains(o)
            <==> (creation_order(o) < creation_order(step) && o != ComputeObject::DescriptorSet),
{
    let t = spec_teardown(step);
    if creation_order(o) < creation_order(step) && o != ComputeObject::DescriptorSet {
        match step {
            ComputeObject::Pipeline => {
                match o {
                    ComputeObject::PipelineCache => assert(t[0] == o),
                    ComputeObject::PipelineLayout => assert(t[1] == o),
                    ComputeObject::DescriptorSetLayout => assert(t[2] == o),
                    _ => assert(t[3] == o),
                }
            },
            ComputeObject::DescriptorSet | ComputeObject::PipelineCache => {
                match o {
                    ComputeObject::PipelineLayout => assert(t[0] == o),
                    ComputeObject::DescriptorSetLayout => assert(t[1] == o),
                    _ => assert(t[2] == o),
                }
            },
            ComputeObject::PipelineLayout => {
                match o {
                    ComputeObject::DescriptorSetLayout => assert(t[0] == o),
                    _ => assert(t[1] == o),
                }
            },
            _ => assert(t[0] == o),
        }
    }
    if t.contains(o) {
        let k = choose|k: int| 0 <= k < t.len() && t[k] == o;
        assert(0 <= k < t.len() && t[k] == o);
    }
}

/// Teardown goes from the newest object to the oldest, each once.
pub proof fn lemma_teardown_newest_first(step: ComputeObject, i: int, j: int)
    requires
        0 <= i < j < spec_teardown(step).len(),
    ensures
        creation_order(spec_teardown(step)[i]) > creation_order(spec_teardown(step)[j]),
{
}

/// A created compute pipeline with its descriptor set over the buffers
#[derive(Debug)]
pub struct Pipeline {
    i_pipeline_layout: Handle,
    i_desc_set_layout: Handle,
    i_desc_set: Handle,
    i_desc_pool: Handle,
    i_pipeline: Handle,
    i_pipeline_cache: Handle,
}

impl Pipeline {
    pub closed spec fn spec_pipeline_layout(&self) -> Handle { self.i_pipeline_layout }
    pub closed spec fn spec_desc_set_layout(&self) -> Handle { self.i_desc_set_layout }
    pub closed spec fn spec_descriptor_set(&self) -> Handle { self.i_desc_set }
    pub closed spec fn spec_desc_pool(&self) -> Handle { self.i_desc_pool }
    pub closed spec fn spec_pipeline(&self) -> Handle { self.i_pipeline }
    pub closed spec fn spec_pipeline_cache(&self) -> Handle { self.i_pipeline_cache }

    /// Pipeline made of the objects created for it
    pub fn new(
        desc_pool: Handle,
        desc_set_layout: Handle,
        pipeline_layout: Handle,
        desc_set: Handle,
        pipeline_cache: Handle,
        pipeline: Handle,
    ) -> (r: Pipeline)
        ensures
            r.spec_desc_pool() == desc_pool,
            r.spec_desc_set_layout() == desc_set_layout,
            r.spec_pipeline_layout() == pipeline_layout,
            r.spec_descriptor_set() == desc_set,
            r.spec_pipeline_cache() == pipeline_cache,
            r.spec_pipeline() == pipeline,
    {
        Pipeline {
            i_pipeline_layout: pipeline_layout,
            i_desc_set_layout: desc_set_layout,
            i_desc_set: desc_set,
            i_desc_pool: desc_pool,
            i_pipeline: pipeline,
            i_pipeline_cache: pipeline_cache,
        }
    }

    /// Descriptor set of the buffers
    pub fn descriptor_set(&self) -> (r: Handle)
        ensures
            r == self.spec_descriptor_set(),
    {
        self.i_desc_set
    }

    /// Pipeline layout handle
    pub fn pipeline_layout(&self) -> (r: Handle)
        ensures
            r == self.spec_pipeline_layout(),
    {
        self.i_pipeline_layout
    }

    /// Pipeline handle
    pub fn pipeline(&self) -> (r: Handle)
        ensures
            r == self.spec_pipeline(),
    {
        self.i_pipeline
    }

    /// Objects to destroy when the pipeline goes: the pipeline, its cache, its layout, the
    /// set layout and the pool, in that order
    pub fn teardown(&self) -> (r: Vec<Handle>)
        ensures
            r@ == seq![
                self.spec_pipeline(),
                self.spec_pipeline_cache(),
                self.spec_pipeline_layout(),
                self.spec_desc_set_layout(),
                self.spec_desc_pool(),
            ],
    {
        let mut r: Vec<Handle> = Vec::new();
        r.push(self.i_pipeline);
        r.push(self.i_pipeline_cache);
        r.push(self.i_pipeline_layout);
        r.push(self.i_desc_set_layout);
        r.push(self.i_desc_pool);
        assert(r@ =~= seq![
            self.spec_pipeline(),
            self.spec_pipeline_cache(),
            self.spec_pipeline_layout(),
            self.spec_desc_set_layout(),
            self.spec_desc_pool(),
        ]);
        r
    }
}

} // verus!
