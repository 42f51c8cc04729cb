use ash::vk;
use libvktypes::dev::{DeviceCfg, DeviceError, QueueCreateInfo};
use libvktypes::flags;
use libvktypes::graphics::{
    descriptor_plan, references, set_layout_bindings, single_subpass_attachment, single_subpass_sync,
    AttachmentInfo, AttachmentReference, BindingCfg, DescriptorObject, DescriptorStep, BufferBinding, DescriptorPoolSize, PipelineDescriptor,
    PipelineDescriptorError, RenderPass, RenderPassCfg, RenderPassError, SamplerBinding, SamplerError, ShaderBinding, SubpassInfo, UpdateInfo,
    VertexView, VertexInputCfg,
};
use libvktypes::hw::{DeviceLimits, DeviceProperties, HWDevice, PhysicalDeviceMemoryProperties, QueueFamilyDescription};
use libvktypes::layout::{Extent2D, Extent3D, Layout, LayoutElement, MemoryRequirements};
use libvktypes::libvk::{DebugLayer, InstanceError, InstanceType, LibHandlerError, LibInstanceError, DEBUG_LAYER_NAME};
use libvktypes::memory::{Memory, RefImageView, RefView, Region};
use libvktypes::pipeline::{BufferInfo, ImageInfo};
use libvktypes::queue::{ExecAction, ExecEvent, ExecState, Queue, QueueCfg, QueueError, ComputeQueueError, ExecInfo, PresentInfo};
use libvktypes::shader::{compiled, null_terminated, ShaderBuilder, ShaderError, Kind, ShaderType};
use libvktypes::specialization::{SpecializationConstant, SpecializationInfo, SpecializationMapEntry};
use libvktypes::surface::{Capabilities, CapabilitiesError, SurfaceCapabilities, SurfaceError, SurfaceFormat};
use libvktypes::swapchain::{ImageListType, Swapchain, SwapchainCfg, SwapchainError};
use libvktypes::sync::{Fence, FenceError, Semaphore, SemaphoreError};
use libvktypes::window::WindowError;

#[test]
fn flag_values_match_vulkan() {
    assert_eq!(flags::MEMORY_PROPERTY_DEVICE_LOCAL, vk::MemoryPropertyFlags::DEVICE_LOCAL.as_raw());
    assert_eq!(flags::MEMORY_PROPERTY_HOST_VISIBLE, vk::MemoryPropertyFlags::HOST_VISIBLE.as_raw());
    assert_eq!(flags::MEMORY_PROPERTY_HOST_COHERENT, vk::MemoryPropertyFlags::HOST_COHERENT.as_raw());
    assert_eq!(flags::MEMORY_PROPERTY_HOST_CACHED, vk::MemoryPropertyFlags::HOST_CACHED.as_raw());
    assert_eq!(flags::MEMORY_PROPERTY_LAZILY_ALLOCATED, vk::MemoryPropertyFlags::LAZILY_ALLOCATED.as_raw());
    assert_eq!(flags::QUEUE_GRAPHICS, vk::QueueFlags::GRAPHICS.as_raw());
    assert_eq!(flags::QUEUE_COMPUTE, vk::QueueFlags::COMPUTE.as_raw());
    assert_eq!(flags::QUEUE_TRANSFER, vk::QueueFlags::TRANSFER.as_raw());
    assert_eq!(flags::QUEUE_SPARSE_BINDING, vk::QueueFlags::SPARSE_BINDING.as_raw());
    assert_eq!(flags::BUFFER_USAGE_UNIFORM_BUFFER, vk::BufferUsageFlags::UNIFORM_BUFFER.as_raw());
    assert_eq!(flags::BUFFER_USAGE_STORAGE_BUFFER, vk::BufferUsageFlags::STORAGE_BUFFER.as_raw());
    assert_eq!(flags::BUFFER_USAGE_VERTEX_BUFFER, vk::BufferUsageFlags::VERTEX_BUFFER.as_raw());
    assert_eq!(flags::BUFFER_USAGE_INDEX_BUFFER, vk::BufferUsageFlags::INDEX_BUFFER.as_raw());
    assert_eq!(flags::BUFFER_USAGE_TRANSFER_SRC, vk::BufferUsageFlags::TRANSFER_SRC.as_raw());
    assert_eq!(flags::BUFFER_USAGE_TRANSFER_DST, vk::BufferUsageFlags::TRANSFER_DST.as_raw());
    assert_eq!(flags::HW_TYPE_DISCRETE_GPU, vk::PhysicalDeviceType::DISCRETE_GPU.as_raw());
    assert_eq!(flags::HW_TYPE_INTEGRATED_GPU, vk::PhysicalDeviceType::INTEGRATED_GPU.as_raw());
    assert_eq!(flags::IMAGE_LAYOUT_PRESENT_SRC, vk::ImageLayout::PRESENT_SRC_KHR.as_raw());
    assert_eq!(flags::IMAGE_LAYOUT_TRANSFER_DST_OPTIMAL, vk::ImageLayout::TRANSFER_DST_OPTIMAL.as_raw());
    assert_eq!(flags::IMAGE_LAYOUT_GENERAL, vk::ImageLayout::GENERAL.as_raw());
    assert_eq!(flags::IMAGE_LAYOUT_COLOR_ATTACHMENT_OPTIMAL, vk::ImageLayout::COLOR_ATTACHMENT_OPTIMAL.as_raw());
    assert_eq!(flags::IMAGE_LAYOUT_DEPTH_STENCIL_ATTACHMENT_OPTIMAL, vk::ImageLayout::DEPTH_STENCIL_ATTACHMENT_OPTIMAL.as_raw());
    assert_eq!(flags::ATTACHMENT_LOAD_OP_CLEAR, vk::AttachmentLoadOp::CLEAR.as_raw());
    assert_eq!(flags::ATTACHMENT_LOAD_OP_DONT_CARE, vk::AttachmentLoadOp::DONT_CARE.as_raw());
    assert_eq!(flags::ATTACHMENT_STORE_OP_STORE, vk::AttachmentStoreOp::STORE.as_raw());
    assert_eq!(flags::ATTACHMENT_STORE_OP_DONT_CARE, vk::AttachmentStoreOp::DONT_CARE.as_raw());
    assert_eq!(flags::PIPELINE_STAGE_COLOR_ATTACHMENT_OUTPUT, vk::PipelineStageFlags::COLOR_ATTACHMENT_OUTPUT.as_raw());
    assert_eq!(flags::PIPELINE_STAGE_BOTTOM_OF_PIPE, vk::PipelineStageFlags::BOTTOM_OF_PIPE.as_raw());
    assert_eq!(flags::ACCESS_MEMORY_READ, vk::AccessFlags::MEMORY_READ.as_raw());
    assert_eq!(flags::ACCESS_COLOR_ATTACHMENT_WRITE, vk::AccessFlags::COLOR_ATTACHMENT_WRITE.as_raw());
    assert_eq!(flags::ACCESS_COLOR_ATTACHMENT_READ, vk::AccessFlags::COLOR_ATTACHMENT_READ.as_raw());
    assert_eq!(flags::SHADER_STAGE_VERTEX, vk::ShaderStageFlags::VERTEX.as_raw());
    assert_eq!(flags::SHADER_STAGE_FRAGMENT, vk::ShaderStageFlags::FRAGMENT.as_raw());
    assert_eq!(flags::SHADER_STAGE_GEOMETRY, vk::ShaderStageFlags::GEOMETRY.as_raw());
    assert_eq!(flags::SHADER_STAGE_COMPUTE, vk::ShaderStageFlags::COMPUTE.as_raw());
    assert_eq!(flags::SHADER_STAGE_ALL_GRAPHICS, vk::ShaderStageFlags::ALL_GRAPHICS.as_raw());
    assert_eq!(flags::DYNAMIC_STATE_VIEWPORT, vk::DynamicState::VIEWPORT.as_raw());
    assert_eq!(flags::DYNAMIC_STATE_SCISSOR, vk::DynamicState::SCISSOR.as_raw());
    assert_eq!(flags::DYNAMIC_STATE_LINE_WIDTH, vk::DynamicState::LINE_WIDTH.as_raw());
    assert_eq!(flags::TOPOLOGY_TRIANGLE_LIST, vk::PrimitiveTopology::TRIANGLE_LIST.as_raw());
    assert_eq!(flags::CULL_MODE_BACK, vk::CullModeFlags::BACK.as_raw());
    assert_eq!(flags::BLEND_FACTOR_ONE, vk::BlendFactor::ONE.as_raw());
    assert_eq!(flags::BLEND_FACTOR_ZERO, vk::BlendFactor::ZERO.as_raw());
    assert_eq!(flags::DESCRIPTOR_TYPE_UNIFORM_BUFFER, vk::DescriptorType::UNIFORM_BUFFER.as_raw());
    assert_eq!(libvktypes::compute::DESCRIPTOR_TYPE_STORAGE_BUFFER, vk::DescriptorType::STORAGE_BUFFER.as_raw());
    assert_eq!(flags::IMAGE_ASPECT_COLOR, vk::ImageAspectFlags::COLOR.as_raw());
    assert_eq!(flags::QUEUE_FAMILY_IGNORED, vk::QUEUE_FAMILY_IGNORED);
    assert_eq!(flags::SUBPASS_EXTERNAL, vk::SUBPASS_EXTERNAL);
    assert_eq!(flags::NO_ATTACHMENT, vk::ATTACHMENT_UNUSED);
    assert_eq!(flags::WHOLE_SIZE, vk::WHOLE_SIZE);
    assert_eq!(flags::FORMAT_UNDEFINED, vk::Format::UNDEFINED.as_raw());
}

#[test]
fn exec_success_path() {
    let (s, a) = Queue::exec_step(ExecState::Begin, ExecEvent::Fence(Some(5)));
    assert_eq!(s, ExecState::FenceCreated(5));
    assert!(matches!(a, ExecAction::Submit(5)));
    let (s, a) = Queue::exec_step(s, ExecEvent::Submit(true));
    assert_eq!(s, ExecState::Submitted(5));
    assert!(matches!(a, ExecAction::Wait(5)));
    let (s, a) = Queue::exec_step(s, ExecEvent::Wait(true));
    assert_eq!(s, ExecState::Done);
    assert!(matches!(a, ExecAction::Finish(Some(5), Ok(()))));
}

#[test]
fn exec_failures_destroy_the_fence() {
    let (_, a) = Queue::exec_step(ExecState::Begin, ExecEvent::Fence(None));
    assert!(matches!(a, ExecAction::Finish(None, Err(QueueError::Fence))));
    let (_, a) = Queue::exec_step(ExecState::FenceCreated(3), ExecEvent::Submit(false));
    assert!(matches!(a, ExecAction::Finish(Some(3), Err(QueueError::Execution))));
    let (_, a) = Queue::exec_step(ExecState::Submitted(3), ExecEvent::Wait(false));
    assert!(matches!(a, ExecAction::Finish(Some(3), Err(QueueError::Timeout))));
    assert_eq!(Queue::present_result(false), Err(QueueError::Present));
    assert_eq!(Queue::present_result(true), Ok(()));
}

#[test]
fn queue_configuration() {
    let q = Queue::new(12);
    assert_eq!(q.queue(), 12);
    let cfg = QueueCfg { family_index: 1, queue_index: 0 };
    assert_eq!(cfg.family_index, 1);
    let wait = [1u64, 2];
    let exec = ExecInfo { buffer: 4, wait_stage: 0x400, timeout: 1_000_000, wait: &wait, signal: &[] };
    assert_eq!(exec.wait.len(), 2);
    let present = PresentInfo { swapchain: 7, image_index: 1, wait: &wait };
    assert_eq!(present.image_index, 1);
    assert_eq!(QueueError::Timeout.message(), "Execution time exceeded the timeout");
    assert_ne!(ComputeQueueError::Submit, ComputeQueueError::Fence);
}

#[test]
fn sync_objects() {
    assert_eq!(Fence::flags(true), vk::FenceCreateFlags::SIGNALED.as_raw());
    assert_eq!(Fence::flags(false), 0);
    assert_eq!(Fence::new(3).fence(), 3);
    assert_eq!(Semaphore::new(4).semaphore(), 4);
    assert_eq!(SemaphoreError::Create.message(), "Failed to create semaphore (vkCreateSemaphore call failed)");
    assert_eq!(FenceError::Create.message(), "Failed to create fence (vkCreateFence call failed)");
}

#[test]
fn shader_entry_names() {
    assert_eq!(null_terminated("main"), Ok(b"main\0".to_vec()));
    assert_eq!(null_terminated(""), Ok(vec![0u8]));
    assert_eq!(null_terminated("ma\0in"), Err(ShaderError::NullTerminate));
}

#[test]
fn shader_builder_defaults_and_settings() {
    let builder = ShaderBuilder::new();
    assert_eq!(builder.get_entry(), "main");
    assert_eq!(builder.get_path(), "default_path");
    assert!(builder.get_bytecode().is_empty());
    assert_eq!(builder.get_glsl_src(), "");
    assert_eq!(builder.get_kind(), Kind::Vertex);
    let code = [0x0723_0203u32, 1, 2];
    let builder = builder.bytecode(&code).entry("vs_main").shader_type(Kind::Fragment).path("a.spv").glsl_src("void main() {}");
    assert_eq!(builder.code_size(), 12);
    assert_eq!(builder.get_kind(), Kind::Fragment);
    assert_eq!(builder.get_path(), "a.spv");
    assert_eq!(builder.get_glsl_src(), "void main() {}");
    let shader = builder.from_bytecode(99).expect("entry is valid");
    assert_eq!(shader.module(), 99);
    assert_eq!(shader.entry(), b"vs_main\0");
    assert_eq!(ShaderBuilder::new().entry("x\0y").from_bytecode(1).err(), Some(ShaderError::NullTerminate));
}

#[test]
fn compiled_bytecode() {
    assert_eq!(compiled(&[]), Err(ShaderError::Compiling));
    assert_eq!(compiled(&[1, 2]), Ok(&[1u32, 2][..]));
    assert_eq!(ShaderError::Compiling.message(), "Failed to compile shader source code");
    assert_eq!(ShaderError::NullTerminate.message(), "Failed to null terminate shader entry name");
    let t = ShaderType { path: "p", entry: "main" };
    assert_eq!(t.entry, "main");
}

#[test]
fn specialization_map() {
    let constants = SpecializationConstant::new(3, 4);
    assert_eq!(constants.map(), &[
        SpecializationMapEntry { constant_id: 0, offset: 0, size: 4 },
        SpecializationMapEntry { constant_id: 1, offset: 4, size: 4 },
        SpecializationMapEntry { constant_id: 2, offset: 8, size: 4 },
    ]);
    assert_eq!(constants.info(), SpecializationInfo { map_entry_count: 0, data_size: 0, points_to_data: false });
    let empty = SpecializationConstant::new(0, 8);
    assert!(empty.map().is_empty());
    assert_eq!(empty.info(), SpecializationInfo { map_entry_count: 0, data_size: 0, points_to_data: true });
}

#[test]
fn swapchain_creation_info() {
    let cfg = SwapchainCfg {
        num_of_images: 3,
        format: 44,
        color: 0,
        present_mode: 2,
        flags: 0x10,
        extent: Extent2D { width: 800, height: 600 },
        transform: 1,
        alpha: 1,
    };
    let info = Swapchain::create_info(21, &cfg);
    assert_eq!((info.surface, info.min_image_count, info.image_array_layers, info.clipped), (21, 3, 1, 1));
    assert_eq!(info.image_sharing_mode, vk::SharingMode::EXCLUSIVE.as_raw());
    assert_eq!(info.old_swapchain, 0);
    let swapchain = Swapchain::new(30, &cfg);
    assert_eq!((swapchain.swapchain(), swapchain.format()), (30, 44));
    assert_eq!(Swapchain::next_image_sync(Some(5), None), (5, 0));
    assert_eq!(Swapchain::next_image_sync(None, Some(6)), (0, 6));
    assert_eq!(SwapchainError::Images.message(), "Failed to get images from swapchain");
    let list = ImageListType { swapchain: 30, format: 44 };
    assert_eq!(list.swapchain, 30);
}

#[test]
fn instance_plan() {
    let default = InstanceType::default();
    let plan = default.plan();
    assert_eq!(plan.api_version, vk::make_api_version(0, 1, 0, 0));
    assert_eq!(plan.enabled_layer_count, 0);
    assert_eq!(plan.enabled_extension_count, 0);
    let exts = ["VK_KHR_surface", "VK_EXT_debug_utils"];
    let cfg = InstanceType { version_major: 1, version_minor: 3, version_patch: 7, dynamic_load: true, debug_layer: Some(DebugLayer::full()), extensions: &exts };
    let plan = cfg.plan();
    assert_eq!(plan.api_version, vk::make_api_version(0, 1, 3, 7));
    assert_ne!(plan.api_version, 1);
    assert_eq!(plan.enabled_layer_count, 1);
    assert_eq!(plan.enabled_extension_count, 2);
    assert_eq!(DEBUG_LAYER_NAME, "VK_LAYER_KHRONOS_validation");
    assert_ne!(InstanceError::Instance, InstanceError::Unknown);
    assert_ne!(LibHandlerError::LibraryLoad, LibHandlerError::InstanceCreating);
    assert_ne!(LibInstanceError::DebugUtilsCreating, LibInstanceError::Instance);
}

#[test]
fn debug_layer_severities() {
    let full = DebugLayer::full();
    let all = vk::DebugUtilsMessageSeverityFlagsEXT::VERBOSE
        | vk::DebugUtilsMessageSeverityFlagsEXT::INFO
        | vk::DebugUtilsMessageSeverityFlagsEXT::WARNING
        | vk::DebugUtilsMessageSeverityFlagsEXT::ERROR;
    assert_eq!(full.severity(), all.as_raw());
    let types = vk::DebugUtilsMessageTypeFlagsEXT::GENERAL
        | vk::DebugUtilsMessageTypeFlagsEXT::PERFORMANCE
        | vk::DebugUtilsMessageTypeFlagsEXT::VALIDATION;
    assert_eq!(full.message_type(), types.as_raw());
    let default = DebugLayer::default();
    let some = vk::DebugUtilsMessageSeverityFlagsEXT::WARNING | vk::DebugUtilsMessageSeverityFlagsEXT::ERROR;
    assert_eq!(default.severity(), some.as_raw());
    assert_eq!(default.message_type(), types.as_raw());
    assert_eq!(DebugLayer::name(), "VK_LAYER_KHRONOS_validation");
    assert!(InstanceType::default().debug_layer.is_none());
}

#[test]
fn device_queue_plan() {
    let families = [
        QueueFamilyDescription::new(0, 4, flags::QUEUE_GRAPHICS, false),
        QueueFamilyDescription::new(2, 1, flags::QUEUE_TRANSFER, false),
    ];
    let props = DeviceProperties {
        api_version: 0, vendor_id: 0, device_id: 0, device_type: 1,
        limits: DeviceLimits { min_uniform_buffer_offset_alignment: 1, min_storage_buffer_offset_alignment: 1, non_coherent_atom_size: 1 },
    };
    let hw = HWDevice::new(1, props, &families, &PhysicalDeviceMemoryProperties { memory_types: vec![], memory_heaps: vec![] });
    let cfg = DeviceCfg { hw: &hw, extensions: &["VK_KHR_swapchain"] };
    assert_eq!(cfg.queue_create_infos(), vec![
        QueueCreateInfo { queue_family_index: 0, queue_count: 4 },
        QueueCreateInfo { queue_family_index: 2, queue_count: 1 },
    ]);
    assert_eq!(DeviceError::Creating.message(), "Failed to create Device (vkCreateDevice call failed)");
    assert_eq!(WindowError::EventLoop.message(), "Failed to create eventloop (winit error)");
    assert_eq!(WindowError::Window.message(), "Failed to create window (winit error)");
}

#[test]
fn surface_capabilities() {
    let caps = Capabilities::new(
        vec![0, 2],
        SurfaceCapabilities {
            min_image_count: 2,
            max_image_count: 0,
            current_extent: Extent2D { width: 640, height: 480 },
            current_transform: 1,
            supported_composite_alpha: 0b1010,
            supported_usage_flags: 0x1f,
        },
        vec![SurfaceFormat { format: 44, color_space: 0 }],
    );
    assert_eq!(caps.min_img_count(), 2);
    assert_eq!(caps.max_img_count(), u32::MAX);
    assert!(caps.is_img_count_supported(100));
    assert!(!caps.is_img_count_supported(1));
    assert!(caps.is_format_supported(SurfaceFormat { format: 44, color_space: 0 }));
    assert!(!caps.is_format_supported(SurfaceFormat { format: 44, color_space: 1 }));
    assert!(caps.is_mode_supported(2));
    assert!(!caps.is_mode_supported(1));
    assert!(caps.is_flags_supported(0x10));
    assert_eq!(caps.extent3d(1), Extent3D { width: 640, height: 480, depth: 1 });
    assert_eq!(caps.first_alpha_composition(), Some(0b10));
    assert!(caps.is_alpha_supported(0b1000));
    assert!(!caps.is_alpha_supported(0b1001));
    assert_ne!(SurfaceError::Create.message(), SurfaceError::XLibIsNotSupported.message());
    assert_ne!(CapabilitiesError::Modes.message(), CapabilitiesError::Formats.message());
}

fn image_memory() -> Memory {
    let layout = Layout::preallocated(41, 42, 44, Extent2D { width: 2, height: 2 },
        MemoryRequirements { size: 16, alignment: 16, memory_type_bits: 1 });
    Memory::new(layout, Region::empty(16))
}

fn buffer_memory() -> Memory {
    let elements = vec![LayoutElement::Buffer { vk_buffer: 51, offset: 0, allocated_size: 0, size: 64 }];
    let reqs = [MemoryRequirements { size: 64, alignment: 16, memory_type_bits: 1 }];
    Memory::new(Layout::new(elements, &reqs, 16), Region::new(1, 80, 0))
}

#[test]
fn descriptor_update_plan() {
    let bm = buffer_memory();
    let im = image_memory();
    let set0 = [BindingCfg { resource_type: 6, stage: flags::SHADER_STAGE_VERTEX, count: 1 }];
    let set1 = [
        BindingCfg { resource_type: 1, stage: flags::SHADER_STAGE_FRAGMENT, count: 2 },
        BindingCfg { resource_type: 6, stage: flags::SHADER_STAGE_FRAGMENT, count: 1 },
    ];
    let sets: [&[BindingCfg]; 2] = [&set0, &set1];
    let (sizes, types) = descriptor_plan(&sets);
    assert_eq!(sizes, vec![
        DescriptorPoolSize { ty: 6, descriptor_count: 1 },
        DescriptorPoolSize { ty: 1, descriptor_count: 2 },
        DescriptorPoolSize { ty: 6, descriptor_count: 1 },
    ]);
    assert_eq!(types, vec![vec![6], vec![1, 6]]);
    let layout_bindings = set_layout_bindings(&set1);
    assert_eq!(layout_bindings[1].binding, 1);
    assert_eq!(layout_bindings[0].descriptor_count, 2);

    let descriptor = PipelineDescriptor::new(types, 90, vec![91, 92], vec![93, 94]);
    assert!(!descriptor.is_empty());
    assert_eq!(descriptor.descriptor_layouts(), &[93, 94]);
    let buffers = [BufferBinding::new(RefView::new(&bm, 0)), BufferBinding::with_params(RefView::new(&bm, 0), 16, 32)];
    let samplers = [SamplerBinding::new(7, RefImageView::new(&im, 0), 5)];
    let updates: [UpdateInfo<RefView, RefImageView>; 2] = [
        UpdateInfo { set: 1, binding: 1, starting_array_element: 0, resources: ShaderBinding::Buffers(&buffers) },
        UpdateInfo { set: 1, binding: 0, starting_array_element: 1, resources: ShaderBinding::Samplers(&samplers) },
    ];
    let writes = descriptor.update(&updates);
    assert_eq!(writes.len(), 2);
    assert_eq!((writes[0].dst_set, writes[0].dst_binding, writes[0].descriptor_count, writes[0].descriptor_type), (92, 1, 2, 6));
    assert_eq!(writes[0].buffer_info, vec![
        BufferInfo { buffer: 51, offset: 0, range: flags::WHOLE_SIZE },
        BufferInfo { buffer: 51, offset: 16, range: 32 },
    ]);
    assert!(writes[0].image_info.is_empty());
    assert_eq!((writes[1].dst_array_element, writes[1].descriptor_type), (1, 1));
    assert_eq!(writes[1].image_info, vec![ImageInfo { sampler: 7, image_view: 42, image_layout: 5 }]);
    assert_eq!(ShaderBinding::<RefView, RefImageView>::Buffers(&buffers).len(), 2);

    assert!(PipelineDescriptor::new(vec![], 0, vec![1], vec![2]).is_empty());
    assert_eq!(PipelineDescriptor::with_set(&set1, 3).len(), 3);
    let same = PipelineDescriptor::with_sets(set0[0], 2, 4);
    assert_eq!(same.len(), 2);
    assert_eq!(same[0], vec![set0[0]; 4]);
    assert_eq!(same[1], vec![set0[0]; 4]);
    assert!(PipelineDescriptor::with_sets(set0[0], 3, 0).iter().all(|s| s.is_empty()));
    assert_eq!(PipelineDescriptorError::DescriptorPool.message(),
        "Failed to create descriptor pool (vkCreateDescriptorPool call failed)");
    assert_eq!(SamplerError::Creation.message(), "vkCreateSampler call failed");
}

#[test]
fn render_pass_pieces() {
    let a = single_subpass_attachment(44);
    assert_eq!(a.format, 44);
    assert_eq!(a.load_op, flags::ATTACHMENT_LOAD_OP_CLEAR);
    assert_eq!(a.final_layout, flags::IMAGE_LAYOUT_PRESENT_SRC);
    let d = AttachmentInfo::default();
    assert_eq!(d.format, flags::FORMAT_UNDEFINED);
    let sync = single_subpass_sync();
    assert_eq!(sync.len(), 2);
    assert_eq!(sync[0].src_subpass, flags::SUBPASS_EXTERNAL);
    assert_eq!(sync[1].dst_subpass, flags::SUBPASS_EXTERNAL);
    let color = [0u32, 2];
    let sub = SubpassInfo { color_attachments: &color, depth_stencil_attachment: 1, ..SubpassInfo::empty() };
    let refs = sub.references();
    assert_eq!(refs.color, references(&color, flags::IMAGE_LAYOUT_COLOR_ATTACHMENT_OPTIMAL));
    assert_eq!(refs.depth, AttachmentReference { attachment: 1, layout: flags::IMAGE_LAYOUT_DEPTH_STENCIL_ATTACHMENT_OPTIMAL });
    assert!(refs.input.is_empty());
    assert_eq!(RenderPassError::Creation.message(), "vkCreateRenderPass call failed");
}

#[test]
fn vertex_views() {
    let bm = buffer_memory();
    let v = VertexView::new(RefView::new(&bm, 0));
    assert_eq!(v.offset(), 0);
    assert_eq!(v.buffer(), 51);
    let cfg = VertexInputCfg { location: 0, binding: 0, format: 109, offset: 12 };
    assert_eq!(VertexView::from_cfg(RefView::new(&bm, 0), cfg).offset(), 12);
    assert_eq!(VertexView::with_offset(RefView::new(&bm, 0), 40).offset(), 40);
}

#[test]
fn descriptor_counts_and_pool() {
    let descriptor = PipelineDescriptor::new(vec![vec![6], vec![1, 6, 7]], 90, vec![91, 92], vec![93, 94]);
    assert_eq!(descriptor.pool(), 90);
    assert_eq!(descriptor.set_count(), 2);
    assert_eq!(descriptor.binding_count(0), 1);
    assert_eq!(descriptor.binding_count(1), 3);
    assert_eq!(descriptor.descriptor_sets(), &[91, 92]);
    let empty = PipelineDescriptor::new(vec![vec![6]], flags::NULL_HANDLE, vec![91], vec![93]);
    assert_eq!(empty.set_count(), 0);
    assert!(empty.descriptor_sets().is_empty());
    assert_eq!(PipelineDescriptor::empty().pool(), flags::NULL_HANDLE);
}

#[test]
fn render_pass_references_of_each_subpass() {
    let color0 = [0u32];
    let color1 = [1u32, 2];
    let input1 = [0u32];
    let subpasses = [
        SubpassInfo { color_attachments: &color0, ..SubpassInfo::empty() },
        SubpassInfo { color_attachments: &color1, input_attachments: &input1, depth_stencil_attachment: 3, ..SubpassInfo::empty() },
    ];
    let attachments = [AttachmentInfo::default()];
    let cfg = RenderPassCfg { attachments: &attachments, sync_info: &[], subpasses: &subpasses };
    let refs = RenderPass::subpass_references(&cfg);
    assert_eq!(refs.len(), 2);
    assert_eq!(refs[0].color, vec![AttachmentReference { attachment: 0, layout: flags::IMAGE_LAYOUT_COLOR_ATTACHMENT_OPTIMAL }]);
    assert_eq!(refs[1].color.len(), 2);
    assert_eq!(refs[1].input, vec![AttachmentReference { attachment: 0, layout: flags::IMAGE_LAYOUT_COLOR_ATTACHMENT_OPTIMAL }]);
    assert_eq!(refs[1].depth, AttachmentReference { attachment: 3, layout: flags::IMAGE_LAYOUT_DEPTH_STENCIL_ATTACHMENT_OPTIMAL });
    assert_eq!(RenderPass::new(17).render_pass(), 17);
}

#[test]
fn render_pass_single_subpass_pieces() {
    let (attachment, sync, subpass) = RenderPass::single_subpass(44);
    assert_eq!(attachment, single_subpass_attachment(44));
    assert_eq!(sync, single_subpass_sync());
    assert_eq!(subpass.color_attachments, &[0u32]);
    assert!(subpass.input_attachments.is_empty());
    assert!(subpass.resolve_attachments.is_empty());
    assert!(subpass.preserve_attachments.is_empty());
    assert_eq!(subpass.depth_stencil_attachment, flags::NO_ATTACHMENT);
}

#[test]
fn descriptor_allocation_teardown() {
    let (e, t) = PipelineDescriptor::failure(DescriptorStep::Pool, 3);
    assert_eq!(e, PipelineDescriptorError::DescriptorPool);
    assert!(t.is_empty());
    let (e, t) = PipelineDescriptor::failure(DescriptorStep::SetLayout(2), 3);
    assert_eq!(e, PipelineDescriptorError::DescriptorSet);
    assert_eq!(t, vec![DescriptorObject::Pool, DescriptorObject::SetLayout(0), DescriptorObject::SetLayout(1)]);
    let (e, t) = PipelineDescriptor::failure(DescriptorStep::Allocation, 2);
    assert_eq!(e, PipelineDescriptorError::DescriptorAllocation);
    assert_eq!(t, vec![DescriptorObject::Pool, DescriptorObject::SetLayout(0), DescriptorObject::SetLayout(1)]);
}

#[test]
fn resolve_attachments_match_colors() {
    let color = [0u32, 1];
    let resolve_ok = [2u32, 3];
    let resolve_bad = [2u32];
    let good = [
        SubpassInfo { color_attachments: &color, ..SubpassInfo::empty() },
        SubpassInfo { color_attachments: &color, resolve_attachments: &resolve_ok, ..SubpassInfo::empty() },
    ];
    let bad = [SubpassInfo { color_attachments: &color, resolve_attachments: &resolve_bad, ..SubpassInfo::empty() }];
    let attachments = [AttachmentInfo::default()];
    assert!(RenderPass::resolves_match(&RenderPassCfg { attachments: &attachments, sync_info: &[], subpasses: &good }));
    assert!(!RenderPass::resolves_match(&RenderPassCfg { attachments: &attachments, sync_info: &[], subpasses: &bad }));
    assert!(RenderPass::resolves_match(&RenderPassCfg { attachments: &attachments, sync_info: &[], subpasses: &[] }));
}
