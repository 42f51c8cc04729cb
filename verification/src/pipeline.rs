//! Pipeline layouts, resource bindings and pipeline builders.
//!
//! A pipeline layout describes every resource that a pipeline can reach: descriptor sets
//! made of bindings, and push constant ranges. [`PipelineLayoutBuilder`] collects them,
//! [`PipelineBindings`] holds the descriptor sets allocated for a layout and plans the
//! writes of [`WriteInfo`] into them.

use vstd::prelude::*;
use crate::flags::{
    Handle, ShaderStage, DescriptorType, ImageLayout, ImageFormat, Topology, CullMode, BlendFactor, DynamicState,
    NULL_HANDLE, WHOLE_SIZE, SHADER_STAGE_VERTEX, SHADER_STAGE_FRAGMENT, SHADER_STAGE_GEOMETRY, SHADER_STAGE_COMPUTE,
    DYNAMIC_STATE_SCISSOR, DYNAMIC_STATE_VIEWPORT, DYNAMIC_STATE_LINE_WIDTH, TOPOLOGY_TRIANGLE_LIST, CULL_MODE_BACK,
    BLEND_FACTOR_ONE, BLEND_FACTOR_ZERO,
};
use crate::layout::Extent2D;
use crate::memory::{BufferView, ImageView, view_element};
use crate::graphics::{DescriptorPoolSize, DescriptorSetLayoutBinding, VertexInputCfg};

verus! {

/// Errors while creating a pipeline layout
#[derive(Debug, Clone, Copy, PartialEq, Eq, Structural)]
pub enum LayoutError {
    /// `vkCreateDescriptorSetLayout` failed
    DescriptorSet,
    /// `vkCreatePipelineLayout` failed
    Layout,
}

/// Text that describes `e`.
pub open spec fn layout_error_text(e: LayoutError) -> Seq<char> {
    match e {
        LayoutError::DescriptorSet => "vkCreateDescriptorSetLayout call failed"@,
        LayoutError::Layout => "vkCreatePipelineLayout call failed"@,
    }
}

impl LayoutError {
    /// Human readable description of the error
    pub fn message(&self) -> (r: &'static str)
        ensures
            r@ == layout_error_text(*self),
    {
        match self {
            LayoutError::DescriptorSet => "vkCreateDescriptorSetLayout call failed",
            LayoutError::Layout => "vkCreatePipelineLayout call failed",
        }
    }
}

/// Errors while allocating the descriptor sets of a layout
#[derive(Debug, Clone, Copy, PartialEq, Eq, Structural)]
pub enum BindingError {
    /// `vkCreateDescriptorPool` failed
    DescriptorPool,
    /// `vkAllocateDescriptorSets` failed
    DescriptorAllocation,
}

/// Text that describes `e`.
pub open spec fn binding_error_text(e: BindingError) -> Seq<char> {
    match e {
        BindingError::DescriptorPool => "vkCreateDescriptorPool call failed"@,
        BindingError::DescriptorAllocation => "vkDescriptorSetAllocateInfo call failed"@,
    }
}

impl BindingError {
    /// Human readable description of the error
    pub fn message(&self) -> (r: &'static str)
        ensures
            r@ == binding_error_text(*self),
    {
        match self {
            BindingError::DescriptorPool => "vkCreateDescriptorPool call failed",
            BindingError::DescriptorAllocation => "vkDescriptorSetAllocateInfo call failed",
        }
    }
}

/// Errors while creating a pipeline
#[derive(Debug, Clone, Copy, PartialEq, Eq, Structural)]
pub enum PipelineError {
    /// `vkCreatePipelineCache` failed
    PipelineCache,
    /// `vkCreateGraphicsPipelines` failed
    Pipeline,
    /// `vkCreateComputePipelines` failed
    ComputePipeline,
}

/// Text that describes `e`.
pub open spec fn pipeline_error_text(e: PipelineError) -> Seq<char> {
    match e {
        PipelineError::PipelineCache => "vkCreatePipelineCache call failed"@,
        PipelineError::Pipeline => "vkCreateGraphicsPipelines call failed"@,
        PipelineError::ComputePipeline => "vkCreateGraphicsPipelines call failed"@,
    }
}

impl PipelineError {
    /// Human readable description of the error
    pub fn message(&self) -> (r: &'static str)
        ensures
            r@ == pipeline_error_text(*self),
    {
        match self {
            PipelineError::PipelineCache => "vkCreatePipelineCache call failed",
            PipelineError::Pipeline => "vkCreateGraphicsPipelines call failed",
            PipelineError::ComputePipeline => "vkCreateGraphicsPipelines call failed",
        }
    }
}

/// Range of push constants reachable from some shader stages (`VkPushConstantRange`)
#[derive(Debug, Clone, Copy, PartialEq, Eq, Structural)]
pub struct PushConstantRange {
    pub stage_flags: ShaderStage,
    pub offset: u32,
    pub size: u32,
}

/// One binding of a descriptor set: `layout(set = .., binding = binding)`
#[derive(Debug, Clone, Copy, PartialEq, Eq, Structural)]
pub struct BindingType {
    pub binding: u32,
    pub resource_type: DescriptorType,
    pub stage: ShaderStage,
    pub count: u32,
}

/// Sets after `binding` was added to set `set`: missing sets up to `set` are added empty,
/// and the binding goes to the end of its set.
pub open spec fn spec_add_binding(sets: Seq<Seq<BindingType>>, set: int, binding: BindingType) -> Seq<Seq<BindingType>> {
    let grown = if sets.len() <= set {
        sets + Seq::new((set + 1 - sets.len()) as nat, |_i: int| Seq::<BindingType>::empty())
    } else {
        sets
    };
    grown.update(set, grown[set].push(binding))
}

/// Views of a list of binding lists.
pub open spec fn sets_view(sets: Seq<Vec<BindingType>>) -> Seq<Seq<BindingType>> {
    Seq::new(sets.len(), |i: int| sets[i]@)
}

/// Number of bindings of all sets together.
pub open spec fn total_bindings(sets: Seq<Seq<BindingType>>) -> int
    decreases sets.len(),
{
    if sets.len() == 0 { 0 } else { total_bindings(sets.drop_last()) + sets.last().len() }
}

/// Adding a binding keeps every other set as it was, creates the missing sets empty and
/// appends the binding to its own set.
pub proof fn lemma_add_binding_shape(sets: Seq<Seq<BindingType>>, set: nat, b: BindingType)
    ensures
        spec_add_binding(sets, set as int, b).len() == if sets.len() <= set { set as int + 1 } else { sets.len() as int + 0 },
        spec_add_binding(sets, set as int, b)[set as int]
            == (if set < sets.len() { sets[set as int] } else { Seq::<BindingType>::empty() }).push(b),
        forall|k: int| 0 <= k < sets.len() && k != set ==> #[trigger] spec_add_binding(sets, set as int, b)[k] == sets[k],
        forall|k: int| sets.len() <= k < set ==> #[trigger] spec_add_binding(sets, set as int, b)[k] == Seq::<BindingType>::empty(),
{
}

/// Number of bindings after one set of a list was replaced.
proof fn lemma_total_update(sets: Seq<Seq<BindingType>>, i: int, x: Seq<BindingType>)
    requires
        0 <= i < sets.len(),
    ensures
        total_bindings(sets.update(i, x)) == total_bindings(sets) - sets[i].len() + x.len(),
    decreases sets.len(),
{
    let u = sets.update(i, x);
    if i == sets.len() - 1 {
        assert(u.drop_last() =~= sets.drop_last());
    } else {
        lemma_total_update(sets.drop_last(), i, x);
        assert(u.drop_last() =~= sets.drop_last().update(i, x));
    }
}

/// Empty sets add no binding.
proof fn lemma_total_empty_tail(sets: Seq<Seq<BindingType>>, n: nat)
    ensures
        total_bindings(sets + Seq::new(n, |_i: int| Seq::<BindingType>::empty())) == total_bindings(sets),
    decreases n,
{
    let grown = sets + Seq::new(n, |_i: int| Seq::<BindingType>::empty());
    if n > 0 {
        lemma_total_empty_tail(sets, (n - 1) as nat);
        assert(grown.drop_last() =~= sets + Seq::new((n - 1) as nat, |_i: int| Seq::<BindingType>::empty()));
    } else {
        assert(grown =~= sets);
    }
}

/// Every added binding counts once: the builder holds one binding more than before.
pub proof fn lemma_add_binding_total(sets: Seq<Seq<BindingType>>, set: nat, b: BindingType)
    ensures
        total_bindings(spec_add_binding(sets, set as int, b)) == total_bindings(sets) + 1,
{
    let grown = if sets.len() <= set {
        sets + Seq::new((set + 1 - sets.len()) as nat, |_i: int| Seq::<BindingType>::empty())
    } else {
        sets
    };
    if sets.len() <= set {
        lemma_total_empty_tail(sets, (set + 1 - sets.len()) as nat);
    }
    lemma_total_update(grown, set as int, grown[set as int].push(b));
}

/// The descriptor pool of a layout has one size entry per binding.
pub proof fn lemma_pool_sizes_len(sets: Seq<Seq<BindingType>>)
    ensures
        binding_pool_sizes(sets).len() == total_bindings(sets),
    decreases sets.len(),
{
    if sets.len() > 0 {
        lemma_pool_sizes_len(sets.drop_last());
    }
}

/// Collects the descriptor sets and push constants of a pipeline layout
#[derive(Debug)]
pub struct PipelineLayoutBuilder {
    push_constants: Vec<PushConstantRange>,
    bindings: Vec<Vec<BindingType>>,
}

impl PipelineLayoutBuilder {
    pub closed spec fn spec_push_constants(&self) -> Seq<PushConstantRange> { self.push_constants@ }
    pub closed spec fn spec_sets(&self) -> Seq<Seq<BindingType>> { sets_view(self.bindings@) }

    /// Builder without sets and push constants
    pub fn new() -> (r: PipelineLayoutBuilder)
        ensures
            r.spec_push_constants() == Seq::<PushConstantRange>::empty(),
            r.spec_sets() == Seq::<Seq<BindingType>>::empty(),
    {
        let r = PipelineLayoutBuilder { push_constants: Vec::new(), bindings: Vec::new() };
        assert(r.spec_sets() =~= Seq::<Seq<BindingType>>::empty());
        r
    }

    /// Builder with `count` empty sets, so that bindings of those sets need no growth
    pub fn with_sets(count: usize) -> (r: PipelineLayoutBuilder)
        ensures
            r.spec_push_constants() == Seq::<PushConstantRange>::empty(),
            r.spec_sets() == Seq::new(count as nat, |_i: int| Seq::<BindingType>::empty()),
    {
        let mut bindings: Vec<Vec<BindingType>> = Vec::new();
        let mut i: usize = 0;
        while i < count
            invariant
                0 <= i <= count,
                bindings@.len() == i,
                sets_view(bindings@) == Seq::new(i as nat, |_i: int| Seq::<BindingType>::empty()),
            decreases count - i,
        {
            let ghost before = bindings@;
            let e: Vec<BindingType> = Vec::new();
            bindings.push(e);
            i = i + 1;
            assert forall|k: int| 0 <= k < i implies #[trigger] sets_view(bindings@)[k] == Seq::<BindingType>::empty() by {
                if k < i - 1 {
                    assert(bindings@[k] == before[k]);
                    assert(sets_view(before)[k] == Seq::<BindingType>::empty());
                }
            }
            assert(sets_view(bindings@) =~= Seq::new(i as nat, |_i: int| Seq::<BindingType>::empty()));
        }
        PipelineLayoutBuilder { push_constants: Vec::new(), bindings }
    }

    /// Add a push constant range of `size` bytes at `offset` for the shader `stage`
    pub fn push_constant(self, stage: ShaderStage, offset: u32, size: u32) -> (r: PipelineLayoutBuilder)
        ensures
            r.spec_push_constants() == self.spec_push_constants().push(
                PushConstantRange { stage_flags: stage, offset, size }),
            r.spec_sets() == self.spec_sets(),
    {
        let mut s = self;
        s.push_constants.push(PushConstantRange { stage_flags: stage, offset, size });
        s
    }

    /// Add `binding` to set `set`; sets up to `set` that do not exist yet are created empty
    pub fn binding(
        self,
        set: usize,
        binding: u32,
        stage: ShaderStage,
        resource_type: DescriptorType,
        count: u32,
    ) -> (r: PipelineLayoutBuilder)
        requires
            set < usize::MAX,
        ensures
            r.spec_sets() == spec_add_binding(self.spec_sets(), set as int,
                BindingType { binding, resource_type, stage, count }),
            r.spec_push_constants() == self.spec_push_constants(),
    {
        let mut s = self;
        let ghost old_sets = s.spec_sets();
        let ghost grown = if old_sets.len() <= set {
            old_sets + Seq::new((set + 1 - old_sets.len()) as nat, |_i: int| Seq::<BindingType>::empty())
        } else {
            old_sets
        };
        if s.bindings.len() <= set {
            while s.bindings.len() < set + 1
                invariant
                    set < usize::MAX,
                    old_sets.len() <= set,
                    old_sets.len() <= s.bindings@.len() <= set + 1,
                    s.push_constants@ == self.spec_push_constants(),
                    sets_view(s.bindings@) == old_sets + Seq::new(
                        (s.bindings@.len() - old_sets.len()) as nat, |_i: int| Seq::<BindingType>::empty()),
                decreases set + 1 - s.bindings@.len(),
            {
                let ghost before = s.bindings@;
                let e: Vec<BindingType> = Vec::new();
                s.bindings.push(e);
                assert forall|k: int| 0 <= k < s.bindings@.len() implies #[trigger] sets_view(s.bindings@)[k] == (old_sets + Seq::new(
                    (s.bindings@.len() - old_sets.len()) as nat, |_i: int| Seq::<BindingType>::empty()))[k] by {
                    if k < s.bindings@.len() - 1 {
                        assert(s.bindings@[k] == before[k]);
                        assert(sets_view(before)[k] == (old_sets + Seq::new(
                            (before.len() - old_sets.len()) as nat, |_i: int| Seq::<BindingType>::empty()))[k]);
                    }
                }
                assert(sets_view(s.bindings@) =~= old_sets + Seq::new(
                    (s.bindings@.len() - old_sets.len()) as nat, |_i: int| Seq::<BindingType>::empty()));
            }
        }
        assert(sets_view(s.bindings@) == grown);
        let b = BindingType { binding, resource_type, stage, count };
        s.bindings[set].push(b);
        assert(sets_view(s.bindings@) =~= grown.update(set as int, grown[set as int].push(b)));
        s
    }

    /// Push constant ranges, in the order they were added
    pub fn push_constants(&self) -> (r: &[PushConstantRange])
        ensures
            r@ == self.spec_push_constants(),
    {
        self.push_constants.as_slice()
    }

    /// Number of descriptor sets
    pub fn set_count(&self) -> (r: usize)
        ensures
            r == self.spec_sets().len(),
    {
        self.bindings.len()
    }

    /// Bindings of set `set`, in the order they were added
    pub fn set_bindings(&self, set: usize) -> (r: &[BindingType])
        requires
            set < self.spec_sets().len(),
        ensures
            r@ == self.spec_sets()[set as int],
    {
        self.bindings[set].as_slice()
    }

    /// Descriptor set layout bindings of set `set`: one per binding, in order
    pub fn set_layout_bindings(&self, set: usize) -> (r: Vec<DescriptorSetLayoutBinding>)
        requires
            set < self.spec_sets().len(),
        ensures
            r@ == layout_bindings_of(self.spec_sets()[set as int]),
    {
        layout_bindings(self.bindings[set].as_slice())
    }
}

/// Step of building a pipeline layout that can fail
#[derive(Debug, Clone, Copy, PartialEq, Eq, Structural)]
pub enum LayoutStep {
    /// Creating the layout of set `i`, after the layouts of the sets before it
    SetLayout(usize),
    /// Creating the pipeline layout, after the layout of every set
    Layout,
}

/// Error reported when `step` fails.
pub open spec fn spec_layout_failure_error(step: LayoutStep) -> LayoutError {
    match step {
        LayoutStep::SetLayout(_) => LayoutError::DescriptorSet,
        LayoutStep::Layout => LayoutError::Layout,
    }
}

/// Number of set layouts made before `step` of building `set_count` sets.
pub open spec fn set_layouts_made(step: LayoutStep, set_count: nat) -> nat {
    match step {
        LayoutStep::SetLayout(i) => i as nat,
        LayoutStep::Layout => set_count,
    }
}

/// Set layouts destroyed, in order, when `step` fails: every one made before it, in the
/// order they were made.
pub open spec fn spec_layout_teardown(step: LayoutStep, set_count: nat) -> Seq<usize> {
    Seq::new(set_layouts_made(step, set_count), |j: int| j as usize)
}

impl PipelineLayoutBuilder {
    /// Error and set layouts to destroy, in order, when `step` of building this layout fails
    pub fn failure(&self, step: LayoutStep) -> (r: (LayoutError, Vec<usize>))
        ensures
            r.0 == spec_layout_failure_error(step),
            r.1@ == spec_layout_teardown(step, self.spec_sets().len()),
    {
        let (error, made): (LayoutError, usize) = match step {
            LayoutStep::SetLayout(i) => (LayoutError::DescriptorSet, i),
            LayoutStep::Layout => (LayoutError::Layout, self.set_count()),
        };
        let mut teardown: Vec<usize> = Vec::new();
        let mut j: usize = 0;
        while j < made
            invariant
                0 <= j <= made,
                teardown@ == Seq::new(j as nat, |k: int| k as usize),
            decreases made - j,
        {
            teardown.push(j);
            j = j + 1;
            assert(teardown@ =~= Seq::new(j as nat, |k: int| k as usize));
        }
        (error, teardown)
    }
}

/// A failed pipeline layout build leaks nothing: every set layout made before the failing
/// step is destroyed, once, and no other.
pub proof fn lemma_layout_teardown_complete(step: LayoutStep, set_count: usize, j: usize)
    ensures
        spec_layout_teardown(step, set_count as nat).contains(j) <==> j < set_layouts_made(step, set_count as nat),
        spec_layout_teardown(step, set_count as nat).no_duplicates(),
{
    let t = spec_layout_teardown(step, set_count as nat);
    let n = set_layouts_made(step, set_count as nat);
    assert(n <= usize::MAX);
    if j < n {
        assert(t[j as int] == j);
    }
    if t.contains(j) {
        let k = choose|k: int| 0 <= k < t.len() && t[k] == j;
        assert(t[k] == k as usize);
    }
}

/// Descriptor set layout binding made of a binding.
pub open spec fn layout_binding_of(b: BindingType) -> DescriptorSetLayoutBinding {
    DescriptorSetLayoutBinding {
        binding: b.binding,
        descriptor_type: b.resource_type,
        descriptor_count: b.count,
        stage_flags: b.stage,
    }
}

/// Descriptor set layout bindings of a set, binding by binding.
pub open spec fn layout_bindings_of(bindings: Seq<BindingType>) -> Seq<DescriptorSetLayoutBinding> {
    Seq::new(bindings.len(), |i: int| layout_binding_of(bindings[i]))
}

/// Descriptor set layout bindings of `bindings`, in order.
pub fn layout_bindings(bindings: &[BindingType]) -> (r: Vec<DescriptorSetLayoutBinding>)
    ensures
        r@ == layout_bindings_of(bindings@),
{
    let mut r: Vec<DescriptorSetLayoutBinding> = Vec::new();
    let n = bindings.len();
    let mut i: usize = 0;
    while i < n
        invariant
            n == bindings@.len(),
            0 <= i <= n,
            r@ == layout_bindings_of(bindings@.subrange(0, i as int)),
        decreases n - i,
    {
        let b = bindings[i];
        r.push(DescriptorSetLayoutBinding {
            binding: b.binding,
            descriptor_type: b.resource_type,
            descriptor_count: b.count,
            stage_flags: b.stage,
        });
        i = i + 1;
        assert(r@ =~= layout_bindings_of(bindings@.subrange(0, i as int)));
    }
    assert(bindings@.subrange(0, n as int) =~= bindings@);
    r
}

/// Copy of a list of binding lists.
fn copy_sets(sets: &[Vec<BindingType>]) -> (r: Vec<Vec<BindingType>>)
    ensures
        sets_view(r@) == sets_view(sets@),
{
    let mut r: Vec<Vec<BindingType>> = Vec::new();
    let n = sets.len();
    let mut i: usize = 0;
    while i < n
        invariant
            n == sets@.len(),
            0 <= i <= n,
            r@.len() == i,
            sets_view(r@) == sets_view(sets@.subrange(0, i as int)),
        decreases n - i,
    {
        let set: &Vec<BindingType> = &sets[i];
        let mut copy: Vec<BindingType> = Vec::new();
        let m = set.len();
        let mut j: usize = 0;
        while j < m
            invariant
                m == set@.len(),
                0 <= j <= m,
                copy@ == set@.subrange(0, j as int),
            decreases m - j,
        {
            copy.push(set[j]);
            j = j + 1;
            assert(copy@ =~= set@.subrange(0, j as int));
        }
        assert(copy@ =~= set@);
        let ghost before = r@;
        r.push(copy);
        i = i + 1;
        assert forall|k: int| 0 <= k < i implies #[trigger] sets_view(r@)[k] == sets_view(sets@.subrange(0, i as int))[k] by {
            if k < i - 1 {
                assert(r@[k] == before[k]);
                assert(sets_view(before)[k] == sets_view(sets@.subrange(0, i - 1))[k]);
            }
        }
        assert(sets_view(r@) =~= sets_view(sets@.subrange(0, i as int)));
    }
    assert(sets@.subrange(0, n as int) =~= sets@);
    r
}

/// A pipeline layout: the descriptor set layouts and the layout handle created for the sets
/// of a builder, with the bindings of each set.
#[derive(Debug)]
pub struct PipelineLayout {
    i_sets_layouts: Vec<Handle>,
    i_layout: Handle,
    i_bindings: Vec<Vec<BindingType>>,
}

impl PipelineLayout {
    pub closed spec fn spec_sets_layouts(&self) -> Seq<Handle> { self.i_sets_layouts@ }
    pub closed spec fn spec_layout(&self) -> Handle { self.i_layout }
    pub closed spec fn spec_sets(&self) -> Seq<Seq<BindingType>> { sets_view(self.i_bindings@) }

    /// Layout made of the sets of `builder`, the set layouts created for them in order, and
    /// the pipeline layout handle
    pub fn new(builder: &PipelineLayoutBuilder, sets_layouts: Vec<Handle>, layout: Handle) -> (r: PipelineLayout)
        requires
            sets_layouts@.len() == builder.spec_sets().len(),
        ensures
            r.spec_sets() == builder.spec_sets(),
            r.spec_sets_layouts() == sets_layouts@,
            r.spec_layout() == layout,
    {
        PipelineLayout {
            i_sets_layouts: sets_layouts,
            i_layout: layout,
            i_bindings: copy_sets(builder.bindings.as_slice()),
        }
    }

    /// Bindings of every set
    pub fn bindings(&self) -> (r: &[Vec<BindingType>])
        ensures
            sets_view(r@) == self.spec_sets(),
    {
        self.i_bindings.as_slice()
    }

    /// Pipeline layout handle
    pub fn layout(&self) -> (r: Handle)
        ensures
            r == self.spec_layout(),
    {
        self.i_layout
    }

    /// Descriptor set layout handles, one per set
    pub fn sets_layouts(&self) -> (r: &[Handle])
        ensures
            r@ == self.spec_sets_layouts(),
    {
        self.i_sets_layouts.as_slice()
    }

    /// Descriptor pool sizes for the sets of the layout: one per binding, set after set
    pub fn pool_sizes(&self) -> (r: Vec<DescriptorPoolSize>)
        ensures
            r@ == binding_pool_sizes(self.spec_sets()),
    {
        let mut r: Vec<DescriptorPoolSize> = Vec::new();
        let n = self.i_bindings.len();
        let mut s: usize = 0;
        while s < n
            invariant
                n == self.i_bindings@.len(),
                0 <= s <= n,
                r@ == binding_pool_sizes(sets_view(self.i_bindings@).subrange(0, s as int)),
            decreases n - s,
        {
            let set: &Vec<BindingType> = &self.i_bindings[s];
            let ghost start = r@;
            let m = set.len();
            let mut b: usize = 0;
            while b < m
                invariant
                    m == set@.len(),
                    0 <= b <= m,
                    r@ == start + set_pool_sizes(set@.subrange(0, b as int)),
                decreases m - b,
            {
                let binding = set[b];
                r.push(DescriptorPoolSize { ty: binding.resource_type, descriptor_count: binding.count });
                b = b + 1;
                assert(set_pool_sizes(set@.subrange(0, b as int)) =~= set_pool_sizes(set@.subrange(0, b - 1)).push(
                    DescriptorPoolSize { ty: binding.resource_type, descriptor_count: binding.count }));
            }
            proof {
                assert(set@.subrange(0, m as int) =~= set@);
                let all = sets_view(self.i_bindings@);
                assert(all.subrange(0, s + 1).drop_last() =~= all.subrange(0, s as int));
                assert(all.subrange(0, s + 1).last() == set@);
            }
            s = s + 1;
        }
        assert(sets_view(self.i_bindings@).subrange(0, n as int) =~= sets_view(self.i_bindings@));
        r
    }
}

/// Pool sizes of one set: the type and count of each binding.
pub open spec fn set_pool_sizes(bindings: Seq<BindingType>) -> Seq<DescriptorPoolSize> {
    Seq::new(bindings.len(), |i: int| DescriptorPoolSize { ty: bindings[i].resource_type, descriptor_count: bindings[i].count })
}

/// Pool sizes of all sets, set after set.
pub open spec fn binding_pool_sizes(sets: Seq<Seq<BindingType>>) -> Seq<DescriptorPoolSize>
    decreases sets.len(),
{
    if sets.len() == 0 { Seq::empty() } else { binding_pool_sizes(sets.drop_last()) + set_pool_sizes(sets.last()) }
}


/// Buffer written to a descriptor (`VkDescriptorBufferInfo`)
#[derive(Debug, Clone, Copy, PartialEq, Eq, Structural)]
pub struct BufferInfo {
    pub buffer: Handle,
    pub offset: u64,
    pub range: u64,
}

/// Image written to a descriptor (`VkDescriptorImageInfo`)
#[derive(Debug, Clone, Copy, PartialEq, Eq, Structural)]
pub struct ImageInfo {
    pub sampler: Handle,
    pub image_view: Handle,
    pub image_layout: ImageLayout,
}

/// Writing information for a single layout entry: `layout(set, binding) ... data[N]`
#[derive(Debug)]
pub struct WriteInfoEntry<T> {
    set: u32,
    binding: u32,
    starting_array_element: u32,
    desc_type: DescriptorType,
    data: Vec<T>,
}

impl<T> WriteInfoEntry<T> {
    pub closed spec fn spec_set(&self) -> u32 { self.set }
    pub closed spec fn spec_binding(&self) -> u32 { self.binding }
    pub closed spec fn spec_starting_element(&self) -> u32 { self.starting_array_element }
    pub closed spec fn spec_desc_type(&self) -> DescriptorType { self.desc_type }
    pub closed spec fn spec_data(&self) -> Seq<T> { self.data@ }

    /// Entry of set `set` and binding `binding` with no element, starting at array element zero
    fn new(set: u32, binding: u32, desc: DescriptorType) -> (r: WriteInfoEntry<T>)
        ensures
            r.spec_set() == set,
            r.spec_binding() == binding,
            r.spec_starting_element() == 0,
            r.spec_desc_type() == desc,
            r.spec_data() == Seq::<T>::empty(),
    {
        WriteInfoEntry { set, binding, starting_array_element: 0, desc_type: desc, data: Vec::new() }
    }

    /// First array element that the written elements go to
    pub fn starting_element(&mut self, idx: u32) -> (r: &mut Self)
        ensures
            r.spec_set() == old(self).spec_set(),
            r.spec_binding() == old(self).spec_binding(),
            r.spec_starting_element() == idx,
            r.spec_desc_type() == old(self).spec_desc_type(),
            r.spec_data() == old(self).spec_data(),
            *final(self) == *final(r),
    {
        self.starting_array_element = idx;
        self
    }

    /// Set of the entry
    pub fn set(&self) -> (r: u32)
        ensures
            r == self.spec_set(),
    {
        self.set
    }

    /// Binding of the entry
    pub fn binding(&self) -> (r: u32)
        ensures
            r == self.spec_binding(),
    {
        self.binding
    }

    /// Elements to write, in the order they were added
    pub fn data(&self) -> (r: &[T])
        ensures
            r@ == self.spec_data(),
    {
        self.data.as_slice()
    }
}

impl WriteInfoEntry<BufferInfo> {
    /// Add the whole buffer of `view` for writing; call it several times to write an array
    pub fn element<V: BufferView>(&mut self, view: V) -> (r: &mut Self)
        requires
            view.spec_index() < view.spec_memory().spec_layout().elements@.len(),
            view_element(view.spec_memory(), view.spec_index()) is Buffer,
        ensures
            r.spec_set() == old(self).spec_set(),
            r.spec_binding() == old(self).spec_binding(),
            r.spec_starting_element() == old(self).spec_starting_element(),
            r.spec_desc_type() == old(self).spec_desc_type(),
            r.spec_data() == old(self).spec_data().push(BufferInfo {
                buffer: view_element(view.spec_memory(), view.spec_index())->vk_buffer,
                offset: 0,
                range: WHOLE_SIZE,
            }),
            *final(self) == *final(r),
    {
        self.element_with_params(view, 0, WHOLE_SIZE)
    }

    /// Add `range` bytes from `offset` of the buffer of `view` for writing
    pub fn element_with_params<V: BufferView>(&mut self, view: V, offset: u64, range: u64) -> (r: &mut Self)
        requires
            view.spec_index() < view.spec_memory().spec_layout().elements@.len(),
            view_element(view.spec_memory(), view.spec_index()) is Buffer,
        ensures
            r.spec_set() == old(self).spec_set(),
            r.spec_binding() == old(self).spec_binding(),
            r.spec_starting_element() == old(self).spec_starting_element(),
            r.spec_desc_type() == old(self).spec_desc_type(),
            r.spec_data() == old(self).spec_data().push(BufferInfo {
                buffer: view_element(view.spec_memory(), view.spec_index())->vk_buffer,
                offset,
                range,
            }),
            *final(self) == *final(r),
    {
        let buffer = view.buffer();
        self.data.push(BufferInfo { buffer, offset, range });
        self
    }
}

impl WriteInfoEntry<ImageInfo> {
    /// Add the image view of `view` with `sampler`, in layout `layout`, for writing
    pub fn element<U: ImageView>(&mut self, view: U, sampler: Handle, layout: ImageLayout) -> (r: &mut Self)
        requires
            view.spec_index() < view.spec_memory().spec_layout().elements@.len(),
            view_element(view.spec_memory(), view.spec_index()) is Image,
        ensures
            r.spec_set() == old(self).spec_set(),
            r.spec_binding() == old(self).spec_binding(),
            r.spec_starting_element() == old(self).spec_starting_element(),
            r.spec_desc_type() == old(self).spec_desc_type(),
            r.spec_data() == old(self).spec_data().push(ImageInfo {
                sampler,
                image_view: view_element(view.spec_memory(), view.spec_index())->vk_image_view,
                image_layout: layout,
            }),
            *final(self) == *final(r),
    {
        let image_view = view.image_view();
        self.data.push(ImageInfo { sampler, image_view, image_layout: layout });
        self
    }
}

/// Everything to write into the descriptor sets of a [`PipelineBindings`]
#[derive(Debug)]
pub struct WriteInfo {
    buffers: Vec<WriteInfoEntry<BufferInfo>>,
    images: Vec<WriteInfoEntry<ImageInfo>>,
}

impl WriteInfo {
    pub closed spec fn spec_buffers(&self) -> Seq<WriteInfoEntry<BufferInfo>> { self.buffers@ }
    pub closed spec fn spec_images(&self) -> Seq<WriteInfoEntry<ImageInfo>> { self.images@ }

    /// Nothing to write
    pub fn new() -> (r: WriteInfo)
        ensures
            r.spec_buffers() == Seq::<WriteInfoEntry<BufferInfo>>::empty(),
            r.spec_images() == Seq::<WriteInfoEntry<ImageInfo>>::empty(),
    {
        WriteInfo { buffers: Vec::new(), images: Vec::new() }
    }

    /// Buffer entries, in the order they were added
    pub fn buffer_entries(&self) -> (r: &[WriteInfoEntry<BufferInfo>])
        ensures
            r@ == self.spec_buffers(),
    {
        self.buffers.as_slice()
    }

    /// Image entries, in the order they were added
    pub fn image_entries(&self) -> (r: &[WriteInfoEntry<ImageInfo>])
        ensures
            r@ == self.spec_images(),
    {
        self.images.as_slice()
    }

    /// New entry for buffers of set `set` and binding `binding`
    pub fn buffer(&mut self, set: u32, binding: u32, desc: DescriptorType) -> (r: &mut WriteInfoEntry<BufferInfo>)
        ensures
            r.spec_set() == set,
            r.spec_binding() == binding,
            r.spec_starting_element() == 0,
            r.spec_desc_type() == desc,
            r.spec_data() == Seq::<BufferInfo>::empty(),
            final(self).spec_buffers() == old(self).spec_buffers().push(*final(r)),
            final(self).spec_images() == old(self).spec_images(),
    {
        self.buffers.push(WriteInfoEntry::new(set, binding, desc));
        let last = self.buffers.len() - 1;
        &mut self.buffers[last]
    }

    /// New entry for images of set `set` and binding `binding`
    pub fn image(&mut self, set: u32, binding: u32, desc: DescriptorType) -> (r: &mut WriteInfoEntry<ImageInfo>)
        ensures
            r.spec_set() == set,
            r.spec_binding() == binding,
            r.spec_starting_element() == 0,
            r.spec_desc_type() == desc,
            r.spec_data() == Seq::<ImageInfo>::empty(),
            final(self).spec_images() == old(self).spec_images().push(*final(r)),
            final(self).spec_buffers() == old(self).spec_buffers(),
    {
        self.images.push(WriteInfoEntry::new(set, binding, desc));
        let last = self.images.len() - 1;
        &mut self.images[last]
    }
}

/// One descriptor write of a [`WriteInfo`] entry (`VkWriteDescriptorSet`): the entry is
/// `entry` of the buffer entries, or of the image entries when `image` holds.
#[derive(Debug, Clone, Copy, PartialEq, Eq, Structural)]
pub struct DescriptorWrite {
    pub dst_set: Handle,
    pub dst_binding: u32,
    pub dst_array_element: u32,
    pub descriptor_count: u32,
    pub descriptor_type: DescriptorType,
    pub image: bool,
    pub entry: usize,
}

/// Write of entry `e`, number `idx` of its kind, into the descriptor sets `sets`; the count
/// is the number of elements truncated to 32 bits.
pub open spec fn entry_write<T>(sets: Seq<Handle>, e: WriteInfoEntry<T>, image: bool, idx: int) -> DescriptorWrite {
    DescriptorWrite {
        dst_set: sets[e.spec_set() as int],
        dst_binding: e.spec_binding(),
        dst_array_element: e.spec_starting_element(),
        descriptor_count: e.spec_data().len() as u32,
        descriptor_type: e.spec_desc_type(),
        image,
        entry: idx as usize,
    }
}

/// Every entry of `entries` names one of `n` sets.
pub open spec fn entries_in_sets<T>(entries: Seq<WriteInfoEntry<T>>, n: int) -> bool {
    forall|i: int| 0 <= i < entries.len() ==> (#[trigger] entries[i]).spec_set() < n
}

/// Writes of a [`WriteInfo`]: the buffer entries in order, then the image entries in order.
pub open spec fn spec_writes(sets: Seq<Handle>, info: WriteInfo) -> Seq<DescriptorWrite> {
    Seq::new(info.spec_buffers().len(), |i: int| entry_write(sets, info.spec_buffers()[i], false, i))
        + Seq::new(info.spec_images().len(), |i: int| entry_write(sets, info.spec_images()[i], true, i))
}

/// The descriptor pool and the descriptor sets allocated for a pipeline layout
#[derive(Debug)]
pub struct PipelineBindings {
    i_desc_pool: Handle,
    i_desc_sets: Vec<Handle>,
}

impl PipelineBindings {
    pub closed spec fn spec_pool(&self) -> Handle { self.i_desc_pool }
    pub closed spec fn spec_sets(&self) -> Seq<Handle> { self.i_desc_sets@ }

    /// Bindings of the sets `sets` allocated from `pool`; a null pool means that the layout
    /// has no binding, and the bindings are empty
    pub fn new(pool: Handle, sets: Vec<Handle>) -> (r: PipelineBindings)
        ensures
            r.spec_pool() == pool,
            r.spec_sets() == if pool == NULL_HANDLE { Seq::<Handle>::empty() } else { sets@ },
    {
        if pool == NULL_HANDLE {
            PipelineBindings::empty()
        } else {
            PipelineBindings { i_desc_pool: pool, i_desc_sets: sets }
        }
    }

    /// Bindings without pool and sets
    pub fn empty() -> (r: PipelineBindings)
        ensures
            r.spec_pool() == NULL_HANDLE,
            r.spec_sets() == Seq::<Handle>::empty(),
    {
        PipelineBindings { i_desc_pool: NULL_HANDLE, i_desc_sets: Vec::new() }
    }

    /// Descriptor pool handle; null when empty
    pub fn pool(&self) -> (r: Handle)
        ensures
            r == self.spec_pool(),
    {
        self.i_desc_pool
    }

    /// Descriptor set handles, one per set of the layout
    pub fn descriptors(&self) -> (r: &[Handle])
        ensures
            r@ == self.spec_sets(),
    {
        self.i_desc_sets.as_slice()
    }

    /// Descriptor writes of `write_info`: the buffer entries, then the image entries, each
    /// into the descriptor set it names
    pub fn write(&self, write_info: &WriteInfo) -> (r: Vec<DescriptorWrite>)
        requires
            entries_in_sets(write_info.spec_buffers(), self.spec_sets().len() as int),
            entries_in_sets(write_info.spec_images(), self.spec_sets().len() as int),
        ensures
            r@ == spec_writes(self.spec_sets(), *write_info),
    {
        let sets = self.i_desc_sets.as_slice();
        let mut r: Vec<DescriptorWrite> = Vec::new();
        let nb = write_info.buffers.len();
        let mut i: usize = 0;
        while i < nb
            invariant
                nb == write_info.spec_buffers().len(),
                sets@ == self.spec_sets(),
                entries_in_sets(write_info.spec_buffers(), sets@.len() as int),
                0 <= i <= nb,
                r@ == Seq::new(i as nat, |k: int| entry_write(sets@, write_info.spec_buffers()[k], false, k)),
            decreases nb - i,
        {
            let e = &write_info.buffers[i];
            assert(write_info.spec_buffers()[i as int].spec_set() < sets@.len());
            r.push(DescriptorWrite {
                dst_set: sets[e.set as usize],
                dst_binding: e.binding,
                dst_array_element: e.starting_array_element,
                descriptor_count: e.data.len() as u32,
                descriptor_type: e.desc_type,
                image: false,
                entry: i,
            });
            i = i + 1;
            assert(r@ =~= Seq::new(i as nat, |k: int| entry_write(sets@, write_info.spec_buffers()[k], false, k)));
        }
        let ghost head = r@;
        let ni = write_info.images.len();
        let mut j: usize = 0;
        while j < ni
            invariant
                ni == write_info.spec_images().len(),
                sets@ == self.spec_sets(),
                entries_in_sets(write_info.spec_images(), sets@.len() as int),
                0 <= j <= ni,
                r@ == head + Seq::new(j as nat, |k: int| entry_write(sets@, write_info.spec_images()[k], true, k)),
            decreases ni - j,
        {
            let e = &write_info.images[j];
            assert(write_info.spec_images()[j as int].spec_set() < sets@.len());
            r.push(DescriptorWrite {
                dst_set: sets[e.set as usize],
                dst_binding: e.binding,
                dst_array_element: e.starting_array_element,
                descriptor_count: e.data.len() as u32,
                descriptor_type: e.desc_type,
                image: true,
                entry: j,
            });
            j = j + 1;
            assert(r@ =~= head + Seq::new(j as nat, |k: int| entry_write(sets@, write_info.spec_images()[k], true, k)));
        }
        r
    }
}

/// Settings of a graphics pipeline that hold one value each
#[derive(Debug, Clone, Copy, PartialEq, Eq, Structural)]
pub struct GraphicsPipelineSettings {
    pub vert_shader: Handle,
    pub frag_shader: Handle,
    pub geom_shader: Handle,
    pub topology: Topology,
    pub extent: Extent2D,
    pub render_pass: Handle,
    pub subpass_index: u32,
    pub cull_mode: CullMode,
    pub src_color_blend_factor: BlendFactor,
    pub dst_color_blend_factor: BlendFactor,
    pub src_alpha_blend_factor: BlendFactor,
    pub dst_alpha_blend_factor: BlendFactor,
    pub enable_depth_test: bool,
    pub enable_primitive_restart: bool,
    pub enable_dynamic_scissor: bool,
    pub enable_blend: bool,
    pub enable_dynamic_viewport: bool,
    pub enable_dynamic_line_width: bool,
}

/// Default settings: no shader, triangle lists, back faces culled, blending `ONE`/`ZERO`
/// for color and alpha, every switch off.
/// A new builder has every switch off: no blending, no depth test, no primitive restart
/// and no dynamic state, so a pipeline built without changing them has them all off.
pub proof fn lemma_default_switches_off()
    ensures
        !default_settings().enable_blend,
        !default_settings().enable_depth_test,
        !default_settings().enable_primitive_restart,
        !default_settings().enable_dynamic_scissor,
        !default_settings().enable_dynamic_viewport,
        !default_settings().enable_dynamic_line_width,
        vk_bool(default_settings().enable_blend) == 0,
        vk_bool(default_settings().enable_depth_test) == 0,
        vk_bool(default_settings().enable_primitive_restart) == 0,
{
}

pub open spec fn default_settings() -> GraphicsPipelineSettings {
    GraphicsPipelineSettings {
        vert_shader: NULL_HANDLE,
        frag_shader: NULL_HANDLE,
        geom_shader: NULL_HANDLE,
        topology: TOPOLOGY_TRIANGLE_LIST,
        extent: Extent2D { width: 0, height: 0 },
        render_pass: NULL_HANDLE,
        subpass_index: 0,
        cull_mode: CULL_MODE_BACK,
        src_color_blend_factor: BLEND_FACTOR_ONE,
        dst_color_blend_factor: BLEND_FACTOR_ZERO,
        src_alpha_blend_factor: BLEND_FACTOR_ONE,
        dst_alpha_blend_factor: BLEND_FACTOR_ZERO,
        enable_depth_test: false,
        enable_primitive_restart: false,
        enable_dynamic_scissor: false,
        enable_blend: false,
        enable_dynamic_viewport: false,
        enable_dynamic_line_width: false,
    }
}

/// Vertex buffer binding (`VkVertexInputBindingDescription`), read per vertex
#[derive(Debug, Clone, Copy, PartialEq, Eq, Structural)]
pub struct VertexBindingDescription {
    pub binding: u32,
    pub stride: u32,
}

/// Shader stage of a pipeline and its module
#[derive(Debug, Clone, Copy, PartialEq, Eq, Structural)]
pub struct ShaderStageInfo {
    pub stage: ShaderStage,
    pub module: Handle,
}

/// Rectangle at `(x, y)` with `extent` (`VkRect2D`)
#[derive(Debug, Clone, Copy, PartialEq, Eq, Structural)]
pub struct Rect2D {
    pub x: i32,
    pub y: i32,
    pub extent: Extent2D,
}

/// Vulkan boolean of `b`.
pub open spec fn vk_bool(b: bool) -> u32 {
    if b { 1 } else { 0 }
}

fn to_vk_bool(b: bool) -> (r: u32)
    ensures
        r == vk_bool(b),
        b ==> r == 1,
        !b ==> r == 0,
{
    if b { 1 } else { 0 }
}

/// A Vulkan boolean is one for true and zero for false, so a switch is on exactly when
/// its setting is.
pub proof fn lemma_vk_bool(b: bool)
    ensures
        vk_bool(b) == 1 <==> b,
        vk_bool(b) == 0 <==> !b,
{
}

/// Shader stages of a graphics pipeline: vertex, fragment, and geometry when its module is set.
pub open spec fn spec_graphics_stages(s: GraphicsPipelineSettings) -> Seq<ShaderStageInfo> {
    let base = seq![
        ShaderStageInfo { stage: SHADER_STAGE_VERTEX, module: s.vert_shader },
        ShaderStageInfo { stage: SHADER_STAGE_FRAGMENT, module: s.frag_shader },
    ];
    if s.geom_shader != NULL_HANDLE {
        base.push(ShaderStageInfo { stage: SHADER_STAGE_GEOMETRY, module: s.geom_shader })
    } else {
        base
    }
}

/// A graphics pipeline runs the vertex shader first and the fragment shader second, each
/// with its module, and the geometry shader third exactly when its module is set.
pub proof fn lemma_graphics_stages(s: GraphicsPipelineSettings)
    ensures
        spec_graphics_stages(s)[0] == (ShaderStageInfo { stage: SHADER_STAGE_VERTEX, module: s.vert_shader }),
        spec_graphics_stages(s)[1] == (ShaderStageInfo { stage: SHADER_STAGE_FRAGMENT, module: s.frag_shader }),
        spec_graphics_stages(s).len() == 3 <==> s.geom_shader != NULL_HANDLE,
        spec_graphics_stages(s).len() == 2 <==> s.geom_shader == NULL_HANDLE,
        spec_graphics_stages(s).len() == 3
            ==> spec_graphics_stages(s)[2] == (ShaderStageInfo { stage: SHADER_STAGE_GEOMETRY, module: s.geom_shader }),
{
}

/// A dynamic state is in the pipeline exactly when its switch is on, and none twice.
pub proof fn lemma_dynamic_states(s: GraphicsPipelineSettings)
    ensures
        spec_dynamic_states(s).contains(DYNAMIC_STATE_SCISSOR) <==> s.enable_dynamic_scissor,
        spec_dynamic_states(s).contains(DYNAMIC_STATE_VIEWPORT) <==> s.enable_dynamic_viewport,
        spec_dynamic_states(s).contains(DYNAMIC_STATE_LINE_WIDTH) <==> s.enable_dynamic_line_width,
        spec_dynamic_states(s).no_duplicates(),
{
    let d = spec_dynamic_states(s);
    let a = optional_state(s.enable_dynamic_scissor, DYNAMIC_STATE_SCISSOR);
    let b = optional_state(s.enable_dynamic_viewport, DYNAMIC_STATE_VIEWPORT);
    let c = optional_state(s.enable_dynamic_line_width, DYNAMIC_STATE_LINE_WIDTH);
    assert(d == a + b + c);
    lemma_optional_state(s.enable_dynamic_scissor, DYNAMIC_STATE_SCISSOR);
    lemma_optional_state(s.enable_dynamic_viewport, DYNAMIC_STATE_VIEWPORT);
    lemma_optional_state(s.enable_dynamic_line_width, DYNAMIC_STATE_LINE_WIDTH);
    assert forall|x: DynamicState| d.contains(x) <==> (a.contains(x) || b.contains(x) || c.contains(x)) by {
        if d.contains(x) {
            let k = choose|k: int| 0 <= k < d.len() && d[k] == x;
            if k < a.len() {
                assert(a[k] == x);
            } else if k < a.len() + b.len() {
                assert(b[k - a.len()] == x);
            } else {
                assert(c[k - a.len() - b.len()] == x);
            }
        }
        if a.contains(x) {
            let k = choose|k: int| 0 <= k < a.len() && a[k] == x;
            assert(d[k] == x);
        }
        if b.contains(x) {
            let k = choose|k: int| 0 <= k < b.len() && b[k] == x;
            assert(d[a.len() + k] == x);
        }
        if c.contains(x) {
            let k = choose|k: int| 0 <= k < c.len() && c[k] == x;
            assert(d[a.len() + b.len() + k] == x);
        }
    }
    assert(d.contains(DYNAMIC_STATE_SCISSOR) <==> s.enable_dynamic_scissor);
    assert(d.contains(DYNAMIC_STATE_VIEWPORT) <==> s.enable_dynamic_viewport);
    assert(d.contains(DYNAMIC_STATE_LINE_WIDTH) <==> s.enable_dynamic_line_width);
    assert forall|i: int, j: int| 0 <= i < d.len() && 0 <= j < d.len() && i != j implies d[i] != d[j] by {
        assert(d.contains(d[i]));
        assert(d.contains(d[j]));
        if i < a.len() {
            assert(d[i] == a[i]);
        } else if i < a.len() + b.len() {
            assert(d[i] == b[i - a.len()]);
        } else {
            assert(d[i] == c[i - a.len() - b.len()]);
        }
        if j < a.len() {
            assert(d[j] == a[j]);
        } else if j < a.len() + b.len() {
            assert(d[j] == b[j - a.len()]);
        } else {
            assert(d[j] == c[j - a.len() - b.len()]);
        }
    }
}

/// An optional state is in its sequence exactly when it is on.
proof fn lemma_optional_state(on: bool, v: DynamicState)
    ensures
        forall|x: DynamicState| #[trigger] optional_state(on, v).contains(x) <==> (on && x == v),
        optional_state(on, v).len() == (if on { 1int } else { 0int }),
        on ==> optional_state(on, v)[0] == v,
{
    let t = optional_state(on, v);
    assert forall|x: DynamicState| #[trigger] t.contains(x) <==> (on && x == v) by {
        if on && x == v {
            assert(t[0] == x);
        }
    }
}

/// Dynamic states of a graphics pipeline: scissor, viewport and line width, each when enabled,
/// in that order.
pub open spec fn spec_dynamic_states(s: GraphicsPipelineSettings) -> Seq<DynamicState> {
    optional_state(s.enable_dynamic_scissor, DYNAMIC_STATE_SCISSOR)
        + optional_state(s.enable_dynamic_viewport, DYNAMIC_STATE_VIEWPORT)
        + optional_state(s.enable_dynamic_line_width, DYNAMIC_STATE_LINE_WIDTH)
}

/// State `v` when it is on, else nothing.
pub open spec fn optional_state(on: bool, v: DynamicState) -> Seq<DynamicState> {
    if on { seq![v] } else { Seq::<DynamicState>::empty() }
}

/// Everything a graphics pipeline is created with, besides the fixed states and the
/// vertex input of its builder
#[derive(Debug)]
pub struct GraphicsPipelinePlan {
    pub stages: Vec<ShaderStageInfo>,
    pub dynamic_states: Vec<DynamicState>,
    pub topology: Topology,
    pub primitive_restart_enable: u32,
    pub scissor: Rect2D,
    pub cull_mode: CullMode,
    pub blend_enable: u32,
    pub src_color_blend_factor: BlendFactor,
    pub dst_color_blend_factor: BlendFactor,
    pub src_alpha_blend_factor: BlendFactor,
    pub dst_alpha_blend_factor: BlendFactor,
    pub depth_test_enable: u32,
    pub depth_write_enable: u32,
    pub layout: Handle,
    pub render_pass: Handle,
    pub subpass: u32,
}

/// Graphics pipeline configuration
#[derive(Debug)]
pub struct GraphicsPipelineBuilder {
    settings: GraphicsPipelineSettings,
    vert_sizes: Vec<VertexBindingDescription>,
    vert_input: Vec<VertexInputCfg>,
}

impl GraphicsPipelineBuilder {
    pub closed spec fn spec_settings(&self) -> GraphicsPipelineSettings { self.settings }
    pub closed spec fn spec_vertex_bindings(&self) -> Seq<VertexBindingDescription> { self.vert_sizes@ }
    pub closed spec fn spec_vertex_inputs(&self) -> Seq<VertexInputCfg> { self.vert_input@ }

    /// Builder with the default settings and no vertex input
    pub fn new() -> (r: GraphicsPipelineBuilder)
        ensures
            r.spec_settings() == default_settings(),
            !r.spec_settings().enable_blend,
            !r.spec_settings().enable_depth_test,
            !r.spec_settings().enable_primitive_restart,
            !r.spec_settings().enable_dynamic_scissor,
            !r.spec_settings().enable_dynamic_viewport,
            !r.spec_settings().enable_dynamic_line_width,
            r.spec_vertex_bindings() == Seq::<VertexBindingDescription>::empty(),
            r.spec_vertex_inputs() == Seq::<VertexInputCfg>::empty(),
    {
        GraphicsPipelineBuilder {
            settings: GraphicsPipelineSettings {
                vert_shader: NULL_HANDLE,
                frag_shader: NULL_HANDLE,
                geom_shader: NULL_HANDLE,
                topology: TOPOLOGY_TRIANGLE_LIST,
                extent: Extent2D { width: 0, height: 0 },
                render_pass: NULL_HANDLE,
                subpass_index: 0,
                cull_mode: CULL_MODE_BACK,
                src_color_blend_factor: BLEND_FACTOR_ONE,
                dst_color_blend_factor: BLEND_FACTOR_ZERO,
                src_alpha_blend_factor: BLEND_FACTOR_ONE,
                dst_alpha_blend_factor: BLEND_FACTOR_ZERO,
                enable_depth_test: false,
                enable_primitive_restart: false,
                enable_dynamic_scissor: false,
                enable_blend: false,
                enable_dynamic_viewport: false,
                enable_dynamic_line_width: false,
            },
            vert_sizes: Vec::new(),
            vert_input: Vec::new(),
        }
    }

    /// Add a vertex attribute: shader `location`, vertex buffer `binding`, `format` and
    /// `offset` inside the vertex
    pub fn vertex_input(&mut self, location: u32, binding: u32, format: ImageFormat, offset: u32) -> (r: &mut Self)
        ensures
            r.spec_settings() == old(self).spec_settings(),
            r.spec_vertex_bindings() == old(self).spec_vertex_bindings(),
            r.spec_vertex_inputs() == old(self).spec_vertex_inputs().push(
                VertexInputCfg { location, binding, format, offset }),
            *final(self) == *final(r),
    {
        self.vert_input.push(VertexInputCfg { location, binding, format, offset });
        self
    }

    /// Add a vertex buffer binding whose vertices are `stride` bytes apart; must be called
    pub fn vertex_binding_input(&mut self, binding: u32, stride: u32) -> (r: &mut Self)
        ensures
            r.spec_settings() == old(self).spec_settings(),
            r.spec_vertex_bindings() == old(self).spec_vertex_bindings().push(
                VertexBindingDescription { binding, stride }),
            r.spec_vertex_inputs() == old(self).spec_vertex_inputs(),
            *final(self) == *final(r),
    {
        self.vert_sizes.push(VertexBindingDescription { binding, stride });
        self
    }

    /// Vertex shader module; must be set
    pub fn vertex_shader(&mut self, module: Handle) -> (r: &mut Self)
        ensures
            r.spec_settings() == (GraphicsPipelineSettings { vert_shader: module, ..old(self).spec_settings() }),
            r.spec_vertex_bindings() == old(self).spec_vertex_bindings(),
            r.spec_vertex_inputs() == old(self).spec_vertex_inputs(),
            *final(self) == *final(r),
    {
        self.settings.vert_shader = module;
        self
    }

    /// Fragment shader module; must be set
    pub fn frag_shader(&mut self, module: Handle) -> (r: &mut Self)
        ensures
            r.spec_settings() == (GraphicsPipelineSettings { frag_shader: module, ..old(self).spec_settings() }),
            r.spec_vertex_bindings() == old(self).spec_vertex_bindings(),
            r.spec_vertex_inputs() == old(self).spec_vertex_inputs(),
            *final(self) == *final(r),
    {
        self.settings.frag_shader = module;
        self
    }

    /// Optional geometry shader module
    pub fn geom_shader(&mut self, module: Handle) -> (r: &mut Self)
        ensures
            r.spec_settings() == (GraphicsPipelineSettings { geom_shader: module, ..old(self).spec_settings() }),
            r.spec_vertex_bindings() == old(self).spec_vertex_bindings(),
            r.spec_vertex_inputs() == old(self).spec_vertex_inputs(),
            *final(self) == *final(r),
    {
        self.settings.geom_shader = module;
        self
    }

    /// Extent of the viewport and scissor; this or [`extent2d`](Self::extent2d) must be called
    pub fn extent(&mut self, width: u32, height: u32) -> (r: &mut Self)
        ensures
            r.spec_settings() == (GraphicsPipelineSettings { extent: Extent2D { width, height }, ..old(self).spec_settings() }),
            r.spec_vertex_bindings() == old(self).spec_vertex_bindings(),
            r.spec_vertex_inputs() == old(self).spec_vertex_inputs(),
            *final(self) == *final(r),
    {
        self.settings.extent = Extent2D { width, height };
        self
    }

    /// Extent of the viewport and scissor; this or [`extent`](Self::extent) must be called
    pub fn extent2d(&mut self, extent2d: Extent2D) -> (r: &mut Self)
        ensures
            r.spec_settings() == (GraphicsPipelineSettings { extent: extent2d, ..old(self).spec_settings() }),
            r.spec_vertex_bindings() == old(self).spec_vertex_bindings(),
            r.spec_vertex_inputs() == old(self).spec_vertex_inputs(),
            *final(self) == *final(r),
    {
        self.settings.extent = extent2d;
        self
    }

    /// Render pass the pipeline is used in; must be set
    pub fn render_pass(&mut self, rp: Handle) -> (r: &mut Self)
        ensures
            r.spec_settings() == (GraphicsPipelineSettings { render_pass: rp, ..old(self).spec_settings() }),
            r.spec_vertex_bindings() == old(self).spec_vertex_bindings(),
            r.spec_vertex_inputs() == old(self).spec_vertex_inputs(),
            *final(self) == *final(r),
    {
        self.settings.render_pass = rp;
        self
    }

    /// Subpass index inside the render pass; default is `0`
    pub fn subpass(&mut self, idx: u32) -> (r: &mut Self)
        ensures
            r.spec_settings() == (GraphicsPipelineSettings { subpass_index: idx, ..old(self).spec_settings() }),
            r.spec_vertex_bindings() == old(self).spec_vertex_bindings(),
            r.spec_vertex_inputs() == old(self).spec_vertex_inputs(),
            *final(self) == *final(r),
    {
        self.settings.subpass_index = idx;
        self
    }

    /// How vertices are assembled into primitives; default is a triangle list
    pub fn topology(&mut self, topology: Topology) -> (r: &mut Self)
        ensures
            r.spec_settings() == (GraphicsPipelineSettings { topology: topology, ..old(self).spec_settings() }),
            r.spec_vertex_bindings() == old(self).spec_vertex_bindings(),
            r.spec_vertex_inputs() == old(self).spec_vertex_inputs(),
            *final(self) == *final(r),
    {
        self.settings.topology = topology;
        self
    }

    /// Perform the depth test; the render pass needs a depth buffer; default is `false`
    pub fn depth_test(&mut self, enable_depth_test: bool) -> (r: &mut Self)
        ensures
            r.spec_settings() == (GraphicsPipelineSettings { enable_depth_test: enable_depth_test, ..old(self).spec_settings() }),
            r.spec_vertex_bindings() == old(self).spec_vertex_bindings(),
            r.spec_vertex_inputs() == old(self).spec_vertex_inputs(),
            *final(self) == *final(r),
    {
        self.settings.enable_depth_test = enable_depth_test;
        self
    }

    /// Treat the special index value as restarting the assembly of primitives in indexed drawing; default is `false`
    pub fn primitive_restart(&mut self, enable_primitive_restart: bool) -> (r: &mut Self)
        ensures
            r.spec_settings() == (GraphicsPipelineSettings { enable_primitive_restart: enable_primitive_restart, ..old(self).spec_settings() }),
            r.spec_vertex_bindings() == old(self).spec_vertex_bindings(),
            r.spec_vertex_inputs() == old(self).spec_vertex_inputs(),
            *final(self) == *final(r),
    {
        self.settings.enable_primitive_restart = enable_primitive_restart;
        self
    }

    /// Which triangles are discarded by orientation; default is back faces
    pub fn cull_mode(&mut self, cull_mode: CullMode) -> (r: &mut Self)
        ensures
            r.spec_settings() == (GraphicsPipelineSettings { cull_mode: cull_mode, ..old(self).spec_settings() }),
            r.spec_vertex_bindings() == old(self).spec_vertex_bindings(),
            r.spec_vertex_inputs() == old(self).spec_vertex_inputs(),
            *final(self) == *final(r),
    {
        self.settings.cull_mode = cull_mode;
        self
    }

    /// Default is `ONE`
    pub fn src_color_blend_factor(&mut self, factor: BlendFactor) -> (r: &mut Self)
        ensures
            r.spec_settings() == (GraphicsPipelineSettings { src_color_blend_factor: factor, ..old(self).spec_settings() }),
            r.spec_vertex_bindings() == old(self).spec_vertex_bindings(),
            r.spec_vertex_inputs() == old(self).spec_vertex_inputs(),
            *final(self) == *final(r),
    {
        self.settings.src_color_blend_factor = factor;
        self
    }

    /// Default is `ZERO`
    pub fn dst_color_blend_factor(&mut self, factor: BlendFactor) -> (r: &mut Self)
        ensures
            r.spec_settings() == (GraphicsPipelineSettings { dst_color_blend_factor: factor, ..old(self).spec_settings() }),
            r.spec_vertex_bindings() == old(self).spec_vertex_bindings(),
            r.spec_vertex_inputs() == old(self).spec_vertex_inputs(),
            *final(self) == *final(r),
    {
        self.settings.dst_color_blend_factor = factor;
        self
    }

    /// Default is `ONE`
    pub fn src_alpha_blend_factor(&mut self, factor: BlendFactor) -> (r: &mut Self)
        ensures
            r.spec_settings() == (GraphicsPipelineSettings { src_alpha_blend_factor: factor, ..old(self).spec_settings() }),
            r.spec_vertex_bindings() == old(self).spec_vertex_bindings(),
            r.spec_vertex_inputs() == old(self).spec_vertex_inputs(),
            *final(self) == *final(r),
    {
        self.settings.src_alpha_blend_factor = factor;
        self
    }

    /// Default is `ZERO`
    pub fn dst_alpha_blend_factor(&mut self, factor: BlendFactor) -> (r: &mut Self)
        ensures
            r.spec_settings() == (GraphicsPipelineSettings { dst_alpha_blend_factor: factor, ..old(self).spec_settings() }),
            r.spec_vertex_bindings() == old(self).spec_vertex_bindings(),
            r.spec_vertex_inputs() == old(self).spec_vertex_inputs(),
            *final(self) == *final(r),
    {
        self.settings.dst_alpha_blend_factor = factor;
        self
    }

    /// Scissor set by commands; default is `false`
    pub fn dynamic_scissor(&mut self, enable: bool) -> (r: &mut Self)
        ensures
            r.spec_settings() == (GraphicsPipelineSettings { enable_dynamic_scissor: enable, ..old(self).spec_settings() }),
            r.spec_vertex_bindings() == old(self).spec_vertex_bindings(),
            r.spec_vertex_inputs() == old(self).spec_vertex_inputs(),
            *final(self) == *final(r),
    {
        self.settings.enable_dynamic_scissor = enable;
        self
    }

    /// Color blending; default is `false`
    pub fn blend(&mut self, enable: bool) -> (r: &mut Self)
        ensures
            r.spec_settings() == (GraphicsPipelineSettings { enable_blend: enable, ..old(self).spec_settings() }),
            r.spec_vertex_bindings() == old(self).spec_vertex_bindings(),
            r.spec_vertex_inputs() == old(self).spec_vertex_inputs(),
            *final(self) == *final(r),
    {
        self.settings.enable_blend = enable;
        self
    }

    /// Viewport set by commands; default is `false`
    pub fn dynamic_viewport(&mut self, enable: bool) -> (r: &mut Self)
        ensures
            r.spec_settings() == (GraphicsPipelineSettings { enable_dynamic_viewport: enable, ..old(self).spec_settings() }),
            r.spec_vertex_bindings() == old(self).spec_vertex_bindings(),
            r.spec_vertex_inputs() == old(self).spec_vertex_inputs(),
            *final(self) == *final(r),
    {
        self.settings.enable_dynamic_viewport = enable;
        self
    }

    /// Line width set by commands; default is `false`
    pub fn dynamic_line_width(&mut self, enable: bool) -> (r: &mut Self)
        ensures
            r.spec_settings() == (GraphicsPipelineSettings { enable_dynamic_line_width: enable, ..old(self).spec_settings() }),
            r.spec_vertex_bindings() == old(self).spec_vertex_bindings(),
            r.spec_vertex_inputs() == old(self).spec_vertex_inputs(),
            *final(self) == *final(r),
    {
        self.settings.enable_dynamic_line_width = enable;
        self
    }

    /// Single-valued settings
    pub fn settings(&self) -> (r: GraphicsPipelineSettings)
        ensures
            r == self.spec_settings(),
    {
        self.settings
    }

    /// Vertex buffer bindings, in the order they were added
    pub fn vertex_bindings(&self) -> (r: &[VertexBindingDescription])
        ensures
            r@ == self.spec_vertex_bindings(),
    {
        self.vert_sizes.as_slice()
    }

    /// Vertex attributes, in the order they were added
    pub fn vertex_inputs(&self) -> (r: &[VertexInputCfg])
        ensures
            r@ == self.spec_vertex_inputs(),
    {
        self.vert_input.as_slice()
    }

    /// Shader stages: vertex, fragment, and geometry when a geometry module is set
    pub fn stages(&self) -> (r: Vec<ShaderStageInfo>)
        ensures
            r@ == spec_graphics_stages(self.spec_settings()),
            r@[0] == (ShaderStageInfo { stage: SHADER_STAGE_VERTEX, module: self.spec_settings().vert_shader }),
            r@[1] == (ShaderStageInfo { stage: SHADER_STAGE_FRAGMENT, module: self.spec_settings().frag_shader }),
            r@.len() == 3 <==> self.spec_settings().geom_shader != NULL_HANDLE,
            r@.len() == 2 <==> self.spec_settings().geom_shader == NULL_HANDLE,
            r@.len() == 3 ==> r@[2] == (ShaderStageInfo { stage: SHADER_STAGE_GEOMETRY, module: self.spec_settings().geom_shader }),
    {
        let mut stages: Vec<ShaderStageInfo> = Vec::new();
        stages.push(ShaderStageInfo { stage: SHADER_STAGE_VERTEX, module: self.settings.vert_shader });
        stages.push(ShaderStageInfo { stage: SHADER_STAGE_FRAGMENT, module: self.settings.frag_shader });
        if self.settings.geom_shader != NULL_HANDLE {
            stages.push(ShaderStageInfo { stage: SHADER_STAGE_GEOMETRY, module: self.settings.geom_shader });
        }
        assert(stages@ =~= spec_graphics_stages(self.spec_settings()));
        stages
    }

    /// Dynamic states: scissor, viewport and line width, each when enabled, in that order
    pub fn dynamic_states(&self) -> (r: Vec<DynamicState>)
        ensures
            r@ == spec_dynamic_states(self.spec_settings()),
            r@.contains(DYNAMIC_STATE_SCISSOR) <==> self.spec_settings().enable_dynamic_scissor,
            r@.contains(DYNAMIC_STATE_VIEWPORT) <==> self.spec_settings().enable_dynamic_viewport,
            r@.contains(DYNAMIC_STATE_LINE_WIDTH) <==> self.spec_settings().enable_dynamic_line_width,
            r@.no_duplicates(),
    {
        let mut states: Vec<DynamicState> = Vec::new();
        if self.settings.enable_dynamic_scissor {
            states.push(DYNAMIC_STATE_SCISSOR);
        }
        if self.settings.enable_dynamic_viewport {
            states.push(DYNAMIC_STATE_VIEWPORT);
        }
        if self.settings.enable_dynamic_line_width {
            states.push(DYNAMIC_STATE_LINE_WIDTH);
        }
        assert(states@ =~= spec_dynamic_states(self.spec_settings()));
        proof { lemma_dynamic_states(self.settings); }
        states
    }

    /// Creation plan of the pipeline for `layout`: its stages, dynamic states, switches as
    /// Vulkan booleans (depth writes always on), a scissor over the whole extent, and the
    /// handles it is made with
    pub fn build(&self, layout: &PipelineLayout) -> (r: GraphicsPipelinePlan)
        ensures
            r.stages@ == spec_graphics_stages(self.spec_settings()),
            r.dynamic_states@ == spec_dynamic_states(self.spec_settings()),
            r.topology == self.spec_settings().topology,
            r.primitive_restart_enable == vk_bool(self.spec_settings().enable_primitive_restart),
            r.scissor == (Rect2D { x: 0, y: 0, extent: self.spec_settings().extent }),
            r.cull_mode == self.spec_settings().cull_mode,
            r.blend_enable == vk_bool(self.spec_settings().enable_blend),
            r.src_color_blend_factor == self.spec_settings().src_color_blend_factor,
            r.dst_color_blend_factor == self.spec_settings().dst_color_blend_factor,
            r.src_alpha_blend_factor == self.spec_settings().src_alpha_blend_factor,
            r.dst_alpha_blend_factor == self.spec_settings().dst_alpha_blend_factor,
            r.depth_test_enable == vk_bool(self.spec_settings().enable_depth_test),
            r.depth_write_enable == 1,
            r.primitive_restart_enable == 1 <==> self.spec_settings().enable_primitive_restart,
            r.primitive_restart_enable == 0 <==> !self.spec_settings().enable_primitive_restart,
            r.blend_enable == 1 <==> self.spec_settings().enable_blend,
            r.blend_enable == 0 <==> !self.spec_settings().enable_blend,
            r.depth_test_enable == 1 <==> self.spec_settings().enable_depth_test,
            r.depth_test_enable == 0 <==> !self.spec_settings().enable_depth_test,
            r.layout == layout.spec_layout(),
            r.render_pass == self.spec_settings().render_pass,
            r.subpass == self.spec_settings().subpass_index,
    {
        let s = self.settings;
        GraphicsPipelinePlan {
            stages: self.stages(),
            dynamic_states: self.dynamic_states(),
            topology: s.topology,
            primitive_restart_enable: to_vk_bool(s.enable_primitive_restart),
            scissor: Rect2D { x: 0, y: 0, extent: s.extent },
            cull_mode: s.cull_mode,
            blend_enable: to_vk_bool(s.enable_blend),
            src_color_blend_factor: s.src_color_blend_factor,
            dst_color_blend_factor: s.dst_color_blend_factor,
            src_alpha_blend_factor: s.src_alpha_blend_factor,
            dst_alpha_blend_factor: s.dst_alpha_blend_factor,
            depth_test_enable: to_vk_bool(s.enable_depth_test),
            depth_write_enable: 1,
            layout: layout.layout(),
            render_pass: s.render_pass,
            subpass: s.subpass_index,
        }
    }
}

/// A created graphics pipeline
#[derive(Debug)]
pub struct GraphicsPipeline {
    i_pipeline: Handle,
}

impl GraphicsPipeline {
    pub closed spec fn spec_pipeline(&self) -> Handle { self.i_pipeline }

    /// Pipeline with handle `pipeline`
    pub fn new(pipeline: Handle) -> (r: GraphicsPipeline)
        ensures
            r.spec_pipeline() == pipeline,
    {
        GraphicsPipeline { i_pipeline: pipeline }
    }

    /// Pipeline handle
    pub fn pipeline(&self) -> (r: Handle)
        ensures
            r == self.spec_pipeline(),
    {
        self.i_pipeline
    }
}

/// Compute pipeline configuration
#[derive(Debug)]
pub struct ComputePipelineBuilder {
    comp_shader: Handle,
}

impl ComputePipelineBuilder {
    pub closed spec fn spec_shader(&self) -> Handle { self.comp_shader }

    /// Builder without shader
    pub fn new() -> (r: ComputePipelineBuilder)
        ensures
            r.spec_shader() == NULL_HANDLE,
    {
        ComputePipelineBuilder { comp_shader: NULL_HANDLE }
    }

    /// Compute shader module; must be set
    pub fn compute_shader(&mut self, module: Handle) -> (r: &mut Self)
        ensures
            r.spec_shader() == module,
            *final(self) == *final(r),
    {
        self.comp_shader = module;
        self
    }

    /// The single stage of the pipeline: the compute shader
    pub fn stage(&self) -> (r: ShaderStageInfo)
        ensures
            r == (ShaderStageInfo { stage: SHADER_STAGE_COMPUTE, module: self.spec_shader() }),
    {
        ShaderStageInfo { stage: SHADER_STAGE_COMPUTE, module: self.comp_shader }
    }
}

/// A created compute pipeline and the pipeline cache it was created with
#[derive(Debug)]
pub struct ComputePipeline {
    i_pipeline: Handle,
    i_pipeline_cache: Handle,
}

impl ComputePipeline {
    pub closed spec fn spec_pipeline(&self) -> Handle { self.i_pipeline }
    pub closed spec fn spec_cache(&self) -> Handle { self.i_pipeline_cache }

    /// Pipeline `pipeline` created with cache `cache`
    pub fn new(pipeline: Handle, cache: Handle) -> (r: ComputePipeline)
        ensures
            r.spec_pipeline() == pipeline,
            r.spec_cache() == cache,
    {
        ComputePipeline { i_pipeline: pipeline, i_pipeline_cache: cache }
    }

    /// Pipeline handle
    pub fn pipeline(&self) -> (r: Handle)
        ensures
            r == self.spec_pipeline(),
    {
        self.i_pipeline
    }

    /// Pipeline cache handle
    pub fn cache(&self) -> (r: Handle)
        ensures
            r == self.spec_cache(),
    {
        self.i_pipeline_cache
    }
}

} // verus!
