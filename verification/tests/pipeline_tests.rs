use libvktypes::compute::{
    self, ComputeObject, ComputePipelineError, PipelineCfg as ComputeCfg, DESCRIPTOR_TYPE_STORAGE_BUFFER,
};
use libvktypes::flags::{
    DYNAMIC_STATE_LINE_WIDTH, DYNAMIC_STATE_SCISSOR, DYNAMIC_STATE_VIEWPORT, NULL_HANDLE, SHADER_STAGE_ALL_GRAPHICS,
    SHADER_STAGE_COMPUTE, SHADER_STAGE_FRAGMENT, SHADER_STAGE_GEOMETRY, SHADER_STAGE_VERTEX, TOPOLOGY_TRIANGLE_LIST,
    CULL_MODE_BACK, BLEND_FACTOR_ONE, BLEND_FACTOR_ZERO, WHOLE_SIZE,
};
use libvktypes::graphics::{
    self, DescriptorPoolSize, PipelineCfg, VertexInputCfg,
};
use libvktypes::layout::{Extent2D, Layout, LayoutElement, MemoryRequirements};
use libvktypes::memory::{Memory, RefImageView, RefView, Region};
use libvktypes::pipeline::{
    BindingError, BindingType, BufferInfo, ComputePipeline, ComputePipelineBuilder, DescriptorWrite, LayoutStep,
    GraphicsPipeline, GraphicsPipelineBuilder, ImageInfo, LayoutError, PipelineBindings, PipelineError,
    PipelineLayout, PipelineLayoutBuilder, PushConstantRange, Rect2D, ShaderStageInfo, VertexBindingDescription,
    WriteInfo,
};

fn buffers_memory() -> Memory {
    let elements = vec![
        LayoutElement::Buffer { vk_buffer: 101, offset: 0, allocated_size: 0, size: 100 },
        LayoutElement::Buffer { vk_buffer: 102, offset: 0, allocated_size: 0, size: 50 },
        LayoutElement::Buffer { vk_buffer: 103, offset: 0, allocated_size: 0, size: 7 },
    ];
    let reqs = [
        MemoryRequirements { size: 100, alignment: 4, memory_type_bits: 1 },
        MemoryRequirements { size: 64, alignment: 4, memory_type_bits: 1 },
        MemoryRequirements { size: 8, alignment: 4, memory_type_bits: 1 },
    ];
    let layout = Layout::new(elements, &reqs, 16);
    Memory::new(layout, Region::new(1, 4096, 0))
}

#[test]
fn layout_builder_binding_grows_sets() {
    let builder = PipelineLayoutBuilder::new()
        .binding(2, 0, SHADER_STAGE_FRAGMENT, 6, 1)
        .binding(0, 1, SHADER_STAGE_VERTEX, 7, 3)
        .binding(2, 5, SHADER_STAGE_FRAGMENT, 1, 2)
        .push_constant(SHADER_STAGE_VERTEX, 0, 64);
    assert_eq!(builder.set_count(), 3);
    assert_eq!(builder.set_bindings(0), &[BindingType { binding: 1, resource_type: 7, stage: SHADER_STAGE_VERTEX, count: 3 }]);
    assert!(builder.set_bindings(1).is_empty());
    assert_eq!(builder.set_bindings(2).len(), 2);
    assert_eq!(builder.set_bindings(2)[1].binding, 5);
    assert_eq!(builder.push_constants(), &[PushConstantRange { stage_flags: SHADER_STAGE_VERTEX, offset: 0, size: 64 }]);
    let bindings = builder.set_layout_bindings(2);
    assert_eq!(bindings[0].descriptor_type, 6);
    assert_eq!(bindings[1].descriptor_count, 2);
}

#[test]
fn layout_builder_with_sets() {
    let builder = PipelineLayoutBuilder::with_sets(4).binding(1, 0, SHADER_STAGE_COMPUTE, 7, 1);
    assert_eq!(builder.set_count(), 4);
    assert_eq!(builder.set_bindings(1).len(), 1);
    assert!(builder.set_bindings(3).is_empty());
}

#[test]
fn layout_pool_sizes_one_per_binding() {
    let builder = PipelineLayoutBuilder::new()
        .binding(0, 0, SHADER_STAGE_FRAGMENT, 6, 1)
        .binding(1, 0, SHADER_STAGE_FRAGMENT, 1, 4)
        .binding(1, 1, SHADER_STAGE_FRAGMENT, 6, 2);
    let layout = PipelineLayout::new(&builder, vec![11, 12], 13);
    assert_eq!(layout.layout(), 13);
    assert_eq!(layout.sets_layouts(), &[11, 12]);
    assert_eq!(layout.bindings().len(), 2);
    assert_eq!(layout.pool_sizes(), vec![
        DescriptorPoolSize { ty: 6, descriptor_count: 1 },
        DescriptorPoolSize { ty: 1, descriptor_count: 4 },
        DescriptorPoolSize { ty: 6, descriptor_count: 2 },
    ]);
}

#[test]
fn bindings_write_plan() {
    let memory = buffers_memory();
    let mut info = WriteInfo::new();
    info.buffer(1, 0, 6).element(RefView::new(&memory, 0)).element_with_params(RefView::new(&memory, 2), 8, 16);
    info.buffer(0, 3, 7).starting_element(2);
    let image_memory = {
        let layout = Layout::preallocated(41, 42, 44, Extent2D { width: 2, height: 2 },
            MemoryRequirements { size: 16, alignment: 16, memory_type_bits: 1 });
        Memory::new(layout, Region::empty(16))
    };
    info.image(1, 4, 1).element(RefImageView::new(&image_memory, 0), 9, 5);

    let bindings = PipelineBindings::new(70, vec![81, 82]);
    assert_eq!(bindings.pool(), 70);
    let writes = bindings.write(&info);
    assert_eq!(writes, vec![
        DescriptorWrite { dst_set: 82, dst_binding: 0, dst_array_element: 0, descriptor_count: 2, descriptor_type: 6, image: false, entry: 0 },
        DescriptorWrite { dst_set: 81, dst_binding: 3, dst_array_element: 2, descriptor_count: 0, descriptor_type: 7, image: false, entry: 1 },
        DescriptorWrite { dst_set: 82, dst_binding: 4, dst_array_element: 0, descriptor_count: 1, descriptor_type: 1, image: true, entry: 0 },
    ]);
}

#[test]
fn write_entry_elements() {
    let memory = buffers_memory();
    let mut info = WriteInfo::new();
    let entry = info.buffer(0, 1, 6);
    entry.element(RefView::new(&memory, 1));
    assert_eq!(entry.data(), &[BufferInfo { buffer: 102, offset: 0, range: WHOLE_SIZE }]);
    assert_eq!((entry.set(), entry.binding()), (0, 1));
    let image_memory = {
        let layout = Layout::preallocated(41, 42, 44, Extent2D { width: 2, height: 2 },
            MemoryRequirements { size: 16, alignment: 16, memory_type_bits: 1 });
        Memory::new(layout, Region::empty(16))
    };
    let img = info.image(0, 2, 1);
    img.element(RefImageView::new(&image_memory, 0), 9, 5);
    assert_eq!(img.data(), &[ImageInfo { sampler: 9, image_view: 42, image_layout: 5 }]);
}

#[test]
fn empty_bindings_without_pool() {
    let bindings = PipelineBindings::new(NULL_HANDLE, vec![1, 2]);
    assert!(bindings.descriptors().is_empty());
    assert_eq!(PipelineBindings::empty().pool(), NULL_HANDLE);
}

#[test]
fn graphics_builder_defaults() {
    let builder = GraphicsPipelineBuilder::new();
    let s = builder.settings();
    assert_eq!(s.topology, TOPOLOGY_TRIANGLE_LIST);
    assert_eq!(s.cull_mode, CULL_MODE_BACK);
    assert_eq!((s.src_color_blend_factor, s.dst_color_blend_factor), (BLEND_FACTOR_ONE, BLEND_FACTOR_ZERO));
    assert_eq!((s.src_alpha_blend_factor, s.dst_alpha_blend_factor), (BLEND_FACTOR_ONE, BLEND_FACTOR_ZERO));
    assert!(!s.enable_depth_test && !s.enable_blend && !s.enable_primitive_restart);
    assert_eq!(s.subpass_index, 0);
    assert!(builder.dynamic_states().is_empty());
    assert_eq!(builder.stages().len(), 2);
}

#[test]
fn graphics_builder_plan() {
    let mut builder = GraphicsPipelineBuilder::new();
    builder
        .vertex_shader(1)
        .frag_shader(2)
        .geom_shader(3)
        .vertex_binding_input(0, 32)
        .vertex_input(0, 0, 109, 0)
        .vertex_input(1, 0, 109, 16)
        .extent(800, 600)
        .render_pass(9)
        .subpass(1)
        .depth_test(true)
        .primitive_restart(true)
        .blend(true)
        .dynamic_line_width(true)
        .dynamic_viewport(true)
        .dynamic_scissor(true);
    assert_eq!(builder.vertex_inputs().len(), 2);
    assert_eq!(builder.vertex_bindings(), &[VertexBindingDescription { binding: 0, stride: 32 }]);
    let layout = PipelineLayout::new(&PipelineLayoutBuilder::new(), vec![], 77);
    let plan = builder.build(&layout);
    assert_eq!(plan.stages, vec![
        ShaderStageInfo { stage: SHADER_STAGE_VERTEX, module: 1 },
        ShaderStageInfo { stage: SHADER_STAGE_FRAGMENT, module: 2 },
        ShaderStageInfo { stage: SHADER_STAGE_GEOMETRY, module: 3 },
    ]);
    assert_eq!(plan.dynamic_states, vec![DYNAMIC_STATE_SCISSOR, DYNAMIC_STATE_VIEWPORT, DYNAMIC_STATE_LINE_WIDTH]);
    assert_eq!((plan.depth_test_enable, plan.depth_write_enable, plan.blend_enable, plan.primitive_restart_enable), (1, 1, 1, 1));
    assert_eq!(plan.scissor, Rect2D { x: 0, y: 0, extent: Extent2D { width: 800, height: 600 } });
    assert_eq!((plan.layout, plan.render_pass, plan.subpass), (77, 9, 1));
}

#[test]
fn graphics_builder_dynamic_order() {
    let mut builder = GraphicsPipelineBuilder::new();
    builder.dynamic_viewport(true).extent2d(Extent2D { width: 1, height: 2 });
    assert_eq!(builder.dynamic_states(), vec![DYNAMIC_STATE_VIEWPORT]);
    builder.dynamic_line_width(true).dynamic_viewport(false);
    assert_eq!(builder.dynamic_states(), vec![DYNAMIC_STATE_LINE_WIDTH]);
    assert_eq!(builder.settings().extent, Extent2D { width: 1, height: 2 });
}

#[test]
fn graphics_pipeline_handles() {
    assert_eq!(GraphicsPipeline::new(5).pipeline(), 5);
    let mut builder = ComputePipelineBuilder::new();
    assert_eq!(builder.stage().module, NULL_HANDLE);
    builder.compute_shader(8);
    assert_eq!(builder.stage(), ShaderStageInfo { stage: SHADER_STAGE_COMPUTE, module: 8 });
    let p = ComputePipeline::new(1, 2);
    assert_eq!((p.pipeline(), p.cache()), (1, 2));
}

#[test]
fn pipeline_error_messages() {
    assert_eq!(LayoutError::DescriptorSet.message(), "vkCreateDescriptorSetLayout call failed");
    assert_eq!(LayoutError::Layout.message(), "vkCreatePipelineLayout call failed");
    assert_eq!(BindingError::DescriptorPool.message(), "vkCreateDescriptorPool call failed");
    assert_eq!(BindingError::DescriptorAllocation.message(), "vkDescriptorSetAllocateInfo call failed");
    assert_eq!(PipelineError::PipelineCache.message(), "vkCreatePipelineCache call failed");
    assert_eq!(PipelineError::Pipeline.message(), "vkCreateGraphicsPipelines call failed");
    assert_eq!(PipelineError::ComputePipeline.message(), "vkCreateGraphicsPipelines call failed");
}

#[test]
fn compute_plan_offsets_accumulate() {
    let memory = buffers_memory();
    let views = [RefView::new(&memory, 0), RefView::new(&memory, 1), RefView::new(&memory, 2)];
    let cfg = ComputeCfg { buffers: &views, shader: 4, push_constant_size: 16 };
    let plan = compute::plan(&cfg);
    assert_eq!(plan.pool_size, DescriptorPoolSize { ty: DESCRIPTOR_TYPE_STORAGE_BUFFER, descriptor_count: 3 });
    assert_eq!(plan.max_sets, 1);
    assert_eq!(plan.bindings.len(), 3);
    assert_eq!(plan.bindings[2].binding, 2);
    assert_eq!(plan.bindings[2].stage_flags, SHADER_STAGE_COMPUTE);
    assert_eq!(plan.buffer_infos.iter().map(|b| (b.buffer, b.offset)).collect::<Vec<_>>(),
        vec![(101, 0), (102, 100), (103, 150)]);
    assert_eq!(plan.push_constant, Some(PushConstantRange { stage_flags: SHADER_STAGE_COMPUTE, offset: 0, size: 16 }));
    assert_eq!(plan.stage, ShaderStageInfo { stage: SHADER_STAGE_COMPUTE, module: 4 });

    let no_push = ComputeCfg { buffers: &views[..1], shader: 4, push_constant_size: 0 };
    assert_eq!(compute::plan(&no_push).push_constant, None);
}

#[test]
fn compute_failure_teardown() {
    assert_eq!(compute::failure(ComputeObject::DescriptorPool), (compute::PipelineError::DescriptorPool, vec![]));
    assert_eq!(compute::failure(ComputeObject::PipelineLayout),
        (compute::PipelineError::PipelineLayout, vec![ComputeObject::DescriptorSetLayout, ComputeObject::DescriptorPool]));
    assert_eq!(compute::failure(ComputeObject::Pipeline).1, vec![
        ComputeObject::PipelineCache, ComputeObject::PipelineLayout, ComputeObject::DescriptorSetLayout,
        ComputeObject::DescriptorPool,
    ]);
    assert_eq!(compute::failure(ComputeObject::DescriptorSet).0, compute::PipelineError::DescriptorSet);
    let p = compute::Pipeline::new(1, 2, 3, 4, 5, 6);
    assert_eq!(p.teardown(), vec![6, 5, 3, 2, 1]);
    assert_eq!((p.descriptor_set(), p.pipeline_layout(), p.pipeline()), (4, 3, 6));
    assert_eq!(compute::PipelineError::PipelineCache.message(),
        "Failed to create pipeline cache (vkCreatePipelineCache call failed)");
    assert_ne!(ComputePipelineError::Pipeline, ComputePipelineError::PipelineCache);
}

#[test]
fn graphics_pipeline_plan() {
    let inputs = [VertexInputCfg::default(), VertexInputCfg { location: 1, binding: 1, format: 109, offset: 16 }];
    let layouts = [3u64];
    let cfg = PipelineCfg {
        vertex_shader: 1,
        vertex_size: 24,
        vert_input: &inputs,
        frag_shader: 2,
        geom_shader: None,
        topology: TOPOLOGY_TRIANGLE_LIST,
        extent: Extent2D { width: 10, height: 20 },
        push_constant_size: 8,
        render_pass: 5,
        subpass_index: 3,
        enable_depth_test: false,
        enable_primitive_restart: true,
        cull_mode: CULL_MODE_BACK,
        descriptor_layouts: &layouts,
    };
    let plan = graphics::Pipeline::plan(&cfg);
    assert_eq!(plan.stages.len(), 2);
    assert_eq!(plan.vertex_bindings, vec![
        VertexBindingDescription { binding: 0, stride: 24 },
        VertexBindingDescription { binding: 1, stride: 24 },
    ]);
    assert_eq!(plan.push_constant, Some(PushConstantRange { stage_flags: SHADER_STAGE_ALL_GRAPHICS, offset: 0, size: 8 }));
    assert!(!plan.depth_test);
    assert_eq!(plan.primitive_restart_enable, 1);
    assert_eq!(plan.subpass, 3);
    let with_geom = PipelineCfg { geom_shader: Some(7), push_constant_size: 0, ..cfg };
    let plan = graphics::Pipeline::plan(&with_geom);
    assert_eq!(plan.stages[2], ShaderStageInfo { stage: SHADER_STAGE_GEOMETRY, module: 7 });
    assert_eq!(plan.push_constant, None);
    match graphics::Pipeline::new(4, None) {
        Err((e, layout)) => { assert_eq!(e, graphics::PipelineError::Pipeline); assert_eq!(layout, 4); }
        Ok(_) => panic!("expected an error"),
    }
    let p = graphics::Pipeline::new(4, Some(9)).expect("created");
    assert_eq!((p.layout(), p.pipeline()), (4, 9));
}

#[test]
fn write_info_keeps_entries_in_order() {
    let memory = buffers_memory();
    let mut info = WriteInfo::new();
    assert!(info.buffer_entries().is_empty());
    info.buffer(0, 0, 6).element(RefView::new(&memory, 0));
    info.buffer(1, 2, 7);
    info.image(0, 1, 1);
    let buffers = info.buffer_entries();
    assert_eq!(buffers.len(), 2);
    assert_eq!((buffers[0].set(), buffers[0].binding()), (0, 0));
    assert_eq!(buffers[0].data(), &[BufferInfo { buffer: 101, offset: 0, range: WHOLE_SIZE }]);
    assert_eq!((buffers[1].set(), buffers[1].binding()), (1, 2));
    assert!(buffers[1].data().is_empty());
    let images = info.image_entries();
    assert_eq!(images.len(), 1);
    assert_eq!(images[0].binding(), 1);
}

#[test]
fn layout_build_teardown() {
    let builder = PipelineLayoutBuilder::new()
        .binding(2, 0, SHADER_STAGE_FRAGMENT, 6, 1)
        .binding(0, 1, SHADER_STAGE_VERTEX, 7, 3);
    let (e, t) = builder.failure(LayoutStep::SetLayout(1));
    assert_eq!(e, LayoutError::DescriptorSet);
    assert_eq!(t, vec![0]);
    let (e, t) = builder.failure(LayoutStep::Layout);
    assert_eq!(e, LayoutError::Layout);
    assert_eq!(t, vec![0, 1, 2]);
    let (_, t) = builder.failure(LayoutStep::SetLayout(0));
    assert!(t.is_empty());
}
