//! Render pass, pipeline, framebuffers and the other creation parameters.

use vk_engine::application::{
    command_pool_info, depth_image, descriptor_pool_info, descriptor_writes, texture_image,
    CommandPoolCreateInfo, DescriptorPoolSize, DescriptorResource, DescriptorWrite,
};
use vk_engine::engine_core::buffer::ManagedBuffer;
use vk_engine::engine_core::phys_device::QueueFamilyIndices;
use vk_engine::engine_core::pipeline::{
    create_shader_module, default_pipeline, default_render_pass, AttachmentDescription,
    AttachmentReference, DepthState, DescriptorSetLayoutBinding, PushConstantRange,
    SubpassDependency, VertexInputAttributeDescription, VertexInputBindingDescription,
};
use vk_engine::engine_core::swapchain::Extent2D;
use vk_engine::engine_core::textures::Extent3D;
use vk_engine::engine_core::vk as raw;
use vk_engine::engine_core::{
    allocate_command_buffers, create_framebuffers, create_graphics_pipeline,
    create_swapchain_image_views, create_sync_primitives, immediate_commands,
    init_debug_messenger_info, sync_primitives_to_create, CommandBufferAllocateInfo,
    ImmediateSubmit, SyncObject,
};
use vk_engine::shaders::{Shader, ShaderType};
use vk_engine::{default_descriptor_set_layout_bindings, VertexInputDescriptors};

fn shaders() -> Vec<Shader> {
    vec![
        Shader { data: vec![0x07230203, 1], shader_type: ShaderType::Vertex },
        Shader { data: vec![0x07230203, 2], shader_type: ShaderType::Fragment },
    ]
}

fn textured_vertices() -> VertexInputDescriptors {
    VertexInputDescriptors {
        bindings: vec![VertexInputBindingDescription { binding: 0, stride: 20, input_rate: 0 }],
        attributes: vec![
            VertexInputAttributeDescription { location: 0, binding: 0, format: 106, offset: 0 },
            VertexInputAttributeDescription { location: 1, binding: 0, format: 103, offset: 12 },
        ],
    }
}

fn color_attachment(format: i32) -> AttachmentDescription {
    AttachmentDescription {
        format,
        samples: 1,
        load_op: raw::ATTACHMENT_LOAD_OP_CLEAR,
        store_op: raw::ATTACHMENT_STORE_OP_STORE,
        stencil_load_op: raw::ATTACHMENT_LOAD_OP_DONT_CARE,
        stencil_store_op: raw::ATTACHMENT_STORE_OP_DONT_CARE,
        initial_layout: raw::IMAGE_LAYOUT_UNDEFINED,
        final_layout: raw::IMAGE_LAYOUT_PRESENT_SRC,
    }
}

#[test]
fn render_pass_without_depth() {
    let pass = default_render_pass(50, None);
    assert_eq!(pass.attachments, vec![color_attachment(50)]);
    assert_eq!(pass.pipeline_bind_point, raw::PIPELINE_BIND_POINT_GRAPHICS);
    assert_eq!(pass.color_attachment, AttachmentReference { attachment: 0, layout: 2 });
    assert_eq!(pass.depth_attachment, None);
    assert_eq!(
        pass.dependencies,
        vec![SubpassDependency {
            src_subpass: u32::MAX,
            dst_subpass: 0,
            src_stage_mask: 0x400,
            dst_stage_mask: 0x400,
            src_access_mask: 0,
            dst_access_mask: 0x100,
        }]
    );
}

#[test]
fn render_pass_with_depth() {
    let pass = default_render_pass(43, Some(raw::FORMAT_D32_SFLOAT));
    assert_eq!(
        pass.attachments,
        vec![
            color_attachment(43),
            AttachmentDescription {
                format: 126,
                samples: 1,
                load_op: raw::ATTACHMENT_LOAD_OP_CLEAR,
                store_op: raw::ATTACHMENT_STORE_OP_DONT_CARE,
                stencil_load_op: raw::ATTACHMENT_LOAD_OP_DONT_CARE,
                stencil_store_op: raw::ATTACHMENT_STORE_OP_DONT_CARE,
                initial_layout: raw::IMAGE_LAYOUT_UNDEFINED,
                final_layout: raw::IMAGE_LAYOUT_DEPTH_STENCIL_ATTACHMENT_OPTIMAL,
            }
        ]
    );
    assert_eq!(pass.depth_attachment, Some(AttachmentReference { attachment: 1, layout: 3 }));
    assert_eq!(pass.dependencies.len(), 1);
}

#[test]
fn shader_stage_follows_the_tag() {
    let list = shaders();
    let vertex = create_shader_module(&list[0]);
    assert_eq!(vertex.stage, raw::SHADER_STAGE_VERTEX);
    assert_eq!(vertex.entry_point, "main");
    let fragment = create_shader_module(&list[1]);
    assert_eq!(fragment.stage, raw::SHADER_STAGE_FRAGMENT);
    assert_eq!(fragment.entry_point, "main");
}

#[test]
fn pipeline_with_everything() {
    let layout = textured_vertices();
    let bindings = default_descriptor_set_layout_bindings();
    let info = default_pipeline(
        Extent2D { width: 800, height: 600 },
        &shaders(),
        &layout,
        Some(bindings.clone()),
        4,
        true,
    );
    assert_eq!(info.stages.len(), 2);
    assert_eq!(info.stages[0].stage, raw::SHADER_STAGE_VERTEX);
    assert_eq!(info.stages[1].stage, raw::SHADER_STAGE_FRAGMENT);
    assert!(info.stages.iter().all(|stage| stage.entry_point == "main"));
    assert_eq!(info.vertex_bindings, layout.bindings);
    assert_eq!(info.vertex_attributes, layout.attributes);
    assert_eq!(info.descriptor_set_bindings, Some(bindings));
    assert_eq!(
        info.push_constant_range,
        PushConstantRange { stage_flags: raw::SHADER_STAGE_VERTEX, offset: 0, size: 4 }
    );
    let fixed = info.fixed;
    assert_eq!(fixed.topology, raw::PRIMITIVE_TOPOLOGY_TRIANGLE_LIST);
    assert!(!fixed.primitive_restart_enable);
    assert_eq!(fixed.viewport, Extent2D { width: 800, height: 600 });
    assert_eq!(fixed.scissor, Extent2D { width: 800, height: 600 });
    assert!(!fixed.depth_clamp_enable);
    assert!(!fixed.rasterizer_discard_enable);
    assert_eq!(fixed.polygon_mode, raw::POLYGON_MODE_FILL);
    assert_eq!(fixed.cull_mode, raw::CULL_MODE_BACK);
    assert_eq!(fixed.front_face, raw::FRONT_FACE_COUNTER_CLOCKWISE);
    assert!(!fixed.depth_bias_enable);
    assert!(!fixed.sample_shading_enable);
    assert_eq!(fixed.rasterization_samples, 1);
    assert!(!fixed.blend_enable);
    assert_eq!(fixed.color_write_mask, 0xF);
    assert!(!fixed.logic_op_enable);
    assert_eq!(
        fixed.depth,
        Some(DepthState {
            depth_test_enable: true,
            depth_write_enable: true,
            depth_compare_op: raw::COMPARE_OP_LESS
        })
    );
    assert_eq!(fixed.subpass, 0);
}

#[test]
fn pipeline_without_uniform_data() {
    let layout = VertexInputDescriptors {
        bindings: vec![VertexInputBindingDescription { binding: 0, stride: 8, input_rate: 0 }],
        attributes: vec![VertexInputAttributeDescription {
            location: 0,
            binding: 0,
            format: 103,
            offset: 0,
        }],
    };
    let info =
        default_pipeline(Extent2D { width: 1, height: 1 }, &Vec::new(), &layout, None, 0, false);
    assert!(info.stages.is_empty());
    assert_eq!(info.descriptor_set_bindings, None);
    assert_eq!(info.fixed.depth, None);
    assert_eq!(info.push_constant_range.size, 0);
    assert_eq!(info.vertex_bindings, layout.bindings);
}

#[test]
fn pipeline_and_render_pass_go_together() {
    let layout = textured_vertices();
    let (pipeline, pass) = create_graphics_pipeline(
        Extent2D { width: 640, height: 480 },
        50,
        Some(126),
        &shaders(),
        &layout,
        None,
        4,
    );
    assert_eq!(pass.attachments.len(), 2);
    assert_eq!(pass.attachments[0].format, 50);
    assert_eq!(pass.attachments[1].format, 126);
    assert!(pipeline.fixed.depth.is_some());
    assert_eq!(pipeline.fixed.scissor, Extent2D { width: 640, height: 480 });
    assert_eq!(pipeline.stages.len(), 2);

    let (pipeline, pass) = create_graphics_pipeline(
        Extent2D { width: 640, height: 480 },
        50,
        None,
        &shaders(),
        &layout,
        None,
        4,
    );
    assert_eq!(pass.attachments.len(), 1);
    assert!(pass.depth_attachment.is_none());
    assert!(pipeline.fixed.depth.is_none());
}

#[test]
fn default_bindings_are_uniform_buffer_and_sampler() {
    assert_eq!(
        default_descriptor_set_layout_bindings(),
        vec![
            DescriptorSetLayoutBinding {
                binding: 0,
                descriptor_type: raw::DESCRIPTOR_TYPE_UNIFORM_BUFFER,
                descriptor_count: 1,
                stage_flags: raw::SHADER_STAGE_VERTEX,
            },
            DescriptorSetLayoutBinding {
                binding: 1,
                descriptor_type: raw::DESCRIPTOR_TYPE_COMBINED_IMAGE_SAMPLER,
                descriptor_count: 1,
                stage_flags: raw::SHADER_STAGE_FRAGMENT,
            },
        ]
    );
}

#[test]
fn one_view_per_swapchain_image() {
    let views = create_swapchain_image_views(&vec![71, 72, 73], 50);
    assert_eq!(views.len(), 3);
    for (view, image) in views.iter().zip([71, 72, 73]) {
        assert_eq!(view.image, image);
        assert_eq!(view.format, 50);
        assert_eq!(view.view_type, raw::IMAGE_VIEW_TYPE_2D);
        assert_eq!(view.subresource_range.aspect_mask, raw::IMAGE_ASPECT_COLOR);
    }
    assert!(create_swapchain_image_views(&Vec::new(), 50).is_empty());
}

#[test]
fn one_framebuffer_per_view_of_the_extent() {
    let extent = Extent2D { width: 800, height: 600 };
    let infos = create_framebuffers(5, extent, &vec![81, 82, 83], Some(90));
    assert_eq!(infos.len(), 3);
    for (info, view) in infos.iter().zip([81, 82, 83]) {
        assert_eq!(info.render_pass, 5);
        assert_eq!(info.attachments, vec![view, 90]);
        assert_eq!((info.width, info.height), (800, 600));
        assert_eq!(info.layers, 1);
    }
    let plain = create_framebuffers(5, extent, &vec![81], None);
    assert_eq!(plain[0].attachments, vec![81]);
    assert!(create_framebuffers(5, extent, &Vec::new(), Some(90)).is_empty());
}

#[test]
fn sync_objects_per_slot() {
    let fence = SyncObject::Fence { flags: raw::FENCE_CREATE_SIGNALED };
    assert_eq!(
        sync_primitives_to_create(),
        vec![
            SyncObject::Semaphore,
            SyncObject::Semaphore,
            fence,
            SyncObject::Semaphore,
            SyncObject::Semaphore,
            fence
        ]
    );
}

#[test]
fn sync_handles_are_sorted_into_slots() {
    let sync = create_sync_primitives(&vec![1, 2, 3, 4, 5, 6]).unwrap();
    assert_eq!(sync.image_available, vec![1, 4]);
    assert_eq!(sync.render_finished, vec![2, 5]);
    assert_eq!(sync.in_flight, vec![3, 6]);
    assert_eq!(create_sync_primitives(&vec![1, 2, 3, 4, 5]), None);
    assert_eq!(create_sync_primitives(&vec![1, 2, 3, 4, 5, 6, 7]), None);
    assert_eq!(create_sync_primitives(&Vec::new()), None);
}

#[test]
fn command_buffers_and_pool() {
    assert_eq!(
        allocate_command_buffers(17, 3),
        CommandBufferAllocateInfo { command_pool: 17, level: 0, command_buffer_count: 3 }
    );
    assert_eq!(
        command_pool_info(QueueFamilyIndices { graphics_queue: 2, present_queue: 0 }),
        CommandPoolCreateInfo { queue_family_index: 2, flags: 0x2 }
    );
}

#[test]
fn immediate_commands_use_one_buffer_once() {
    assert_eq!(
        immediate_commands(17),
        ImmediateSubmit {
            allocate: CommandBufferAllocateInfo {
                command_pool: 17,
                level: 0,
                command_buffer_count: 1
            },
            begin_flags: raw::COMMAND_BUFFER_USAGE_ONE_TIME_SUBMIT,
            fence: 0,
        }
    );
}

#[test]
fn debug_messenger_reports_warnings_and_errors() {
    let info = init_debug_messenger_info();
    assert_eq!(info.message_severity, 0x1100);
    assert_eq!(info.message_type, 0x7);
}

#[test]
fn depth_and_texture_images() {
    let depth = depth_image(Extent2D { width: 800, height: 600 });
    assert_eq!(depth.info.format, raw::FORMAT_D32_SFLOAT);
    assert_eq!(depth.info.tiling, raw::IMAGE_TILING_OPTIMAL);
    assert_eq!(depth.info.usage, raw::IMAGE_USAGE_DEPTH_STENCIL_ATTACHMENT);
    assert_eq!(depth.info.extent, Extent3D { width: 800, height: 600, depth: 1 });
    assert_eq!(depth.view_aspect, raw::IMAGE_ASPECT_DEPTH);
    assert_eq!(depth.memory_properties, raw::MEMORY_PROPERTY_DEVICE_LOCAL);

    let texture = texture_image(256, 128);
    assert_eq!(texture.info.format, raw::FORMAT_R8G8B8A8_SRGB);
    assert_eq!(texture.info.usage, 0x6);
    assert_eq!(texture.info.extent, Extent3D { width: 256, height: 128, depth: 1 });
    assert_eq!(texture.view_aspect, raw::IMAGE_ASPECT_COLOR);
    assert_eq!(texture.memory_properties, raw::MEMORY_PROPERTY_DEVICE_LOCAL);
}

#[test]
fn descriptor_pool_serves_every_slot() {
    let info = descriptor_pool_info();
    assert_eq!(info.max_sets, 2);
    assert_eq!(
        info.pool_sizes,
        vec![
            DescriptorPoolSize { descriptor_type: 6, descriptor_count: 2 },
            DescriptorPoolSize { descriptor_type: 1, descriptor_count: 2 },
        ]
    );
}

#[test]
fn descriptor_sets_point_at_their_slot() {
    let buffer = |handle| ManagedBuffer {
        memory_size: 192,
        buffer_memory: Some(handle + 100),
        buffer: handle,
        memory_ptr: Some(0x4000),
    };
    let writes = descriptor_writes(&vec![61, 62], &vec![buffer(51), buffer(52)], 192, 33, 34);
    let image = DescriptorResource::Image { image_layout: 5, image_view: 33, sampler: 34 };
    let uniform = |set, handle| DescriptorWrite {
        dst_set: set,
        dst_binding: 0,
        dst_array_element: 0,
        descriptor_type: raw::DESCRIPTOR_TYPE_UNIFORM_BUFFER,
        resource: DescriptorResource::Buffer { buffer: handle, offset: 0, range: 192 },
    };
    let sampler = |set| DescriptorWrite {
        dst_set: set,
        dst_binding: 1,
        dst_array_element: 0,
        descriptor_type: raw::DESCRIPTOR_TYPE_COMBINED_IMAGE_SAMPLER,
        resource: image,
    };
    assert_eq!(writes, vec![uniform(61, 51), sampler(61), uniform(62, 52), sampler(62)]);
    assert!(descriptor_writes(&Vec::new(), &vec![buffer(51)], 192, 33, 34).is_empty());
}
