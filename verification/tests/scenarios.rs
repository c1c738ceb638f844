//! Whole runs of the core against a driver that is played by the test.

use vk_engine::application::{plan_swapchain_bundle, Resources};
use vk_engine::engine_core::buffer::{
    allocate_and_bind_buffer, find_memory_type, ManagedBuffer, MemoryError, MemoryRequirements,
    MemoryType,
};
use vk_engine::engine_core::bundle::BundleParts;
use vk_engine::engine_core::calls::ReleaseCall;
use vk_engine::engine_core::frame::{
    next_frame, FrameDecision, FrameError, SlotPhase, SwapchainStatus,
};
use vk_engine::engine_core::phys_device::{Adapter, QueueFamily};
use vk_engine::engine_core::pipeline::{
    VertexInputAttributeDescription, VertexInputBindingDescription,
};
use vk_engine::engine_core::swapchain::{
    can_create_swapchain, Extent2D, SurfaceCapabilities, SurfaceFormat,
};
use vk_engine::engine_core::textures::ManagedImage;
use vk_engine::engine_core::vk as raw;
use vk_engine::engine_core::{
    copy_buffer, create_framebuffers, create_index_buffer, create_staging_buffer,
    create_swapchain_image_views, create_sync_primitives, create_vertex_buffer,
    find_physical_device, payload_size, sync_primitives_to_create, BufferCopy,
};
use vk_engine::shaders::{load_shader, Shader, ShaderType};
use vk_engine::{drawing_commands, BaseApp, VertexInputDescriptors};

/// A driver that hands out handles in sequence.
struct Stub {
    next_handle: u64,
}

impl Stub {
    fn create(&mut self) -> u64 {
        self.next_handle += 1;
        self.next_handle
    }

    fn create_many(&mut self, count: usize) -> Vec<u64> {
        (0..count).map(|_| self.create()).collect()
    }
}

fn stub_adapter() -> Adapter {
    Adapter {
        device_type: 4,
        max_image_dimension2_d: 4096,
        geometry_shader: true,
        extensions: vec!["VK_KHR_swapchain".to_string()],
        surface_formats: vec![SurfaceFormat { format: 50, color_space: 0 }],
        present_modes: vec![raw::PRESENT_MODE_FIFO],
        queue_families: vec![QueueFamily { queue_flags: 0x7, supports_present: true }],
    }
}

fn stub_memory_types() -> Vec<MemoryType> {
    vec![
        MemoryType { property_flags: raw::MEMORY_PROPERTY_DEVICE_LOCAL, heap_index: 0 },
        MemoryType {
            property_flags: raw::MEMORY_PROPERTY_HOST_VISIBLE | raw::MEMORY_PROPERTY_HOST_COHERENT,
            heap_index: 1,
        },
    ]
}

fn capabilities(width: u32, height: u32) -> SurfaceCapabilities {
    SurfaceCapabilities {
        min_image_count: 2,
        max_image_count: 0,
        current_extent: Extent2D { width, height },
        min_image_extent: Extent2D { width: 1, height: 1 },
        max_image_extent: Extent2D { width: 4096, height: 4096 },
        current_transform: 1,
    }
}

fn quad_layout() -> VertexInputDescriptors {
    VertexInputDescriptors {
        bindings: vec![VertexInputBindingDescription { binding: 0, stride: 8, input_rate: 0 }],
        attributes: vec![VertexInputAttributeDescription {
            location: 0,
            binding: 0,
            format: 103,
            offset: 0,
        }],
    }
}

fn quad_shaders() -> Vec<Shader> {
    let binary = vec![0x03, 0x02, 0x23, 0x07, 0x00, 0x00, 0x01, 0x00];
    vec![
        load_shader(Some(&binary), ShaderType::Vertex).unwrap(),
        load_shader(Some(&binary), ShaderType::Fragment).unwrap(),
    ]
}

/// Builds the bundle for the surface as it is, asking the library for every
/// parameter and the stub for every handle.
fn build_bundle(stub: &mut Stub, surface: &SurfaceCapabilities) -> BundleParts {
    let adapters = vec![stub_adapter()];
    let (chosen, families) = find_physical_device(&adapters).unwrap();
    let adapter = &adapters[chosen];
    assert!(can_create_swapchain(surface, &adapter.surface_formats));
    let plan = plan_swapchain_bundle(
        Extent2D { width: 1000, height: 1000 },
        surface,
        &adapter.surface_formats,
        &adapter.present_modes,
        families,
        &quad_shaders(),
        &quad_layout(),
        None,
        4,
    );
    let info = &plan.swapchain;
    let swapchain = stub.create();
    let images = stub.create_many(info.min_image_count as usize);
    let view_infos = create_swapchain_image_views(&images, info.image_format);
    let image_views = stub.create_many(view_infos.len());
    assert_eq!(plan.render_pass.attachments[0].format, info.image_format);
    assert_eq!(plan.render_pass.attachments[1].format, raw::FORMAT_D32_SFLOAT);
    assert_eq!(plan.pipeline.fixed.scissor, info.image_extent);
    assert_eq!(plan.pipeline.fixed.viewport, info.image_extent);
    assert!(plan.pipeline.fixed.depth.is_some());
    assert_eq!(plan.pipeline.stages.len(), 2);
    assert_eq!(plan.depth_image.info.format, raw::FORMAT_D32_SFLOAT);
    assert_eq!(plan.depth_image.info.extent.width, info.image_extent.width);
    assert_eq!(plan.depth_image.info.extent.height, info.image_extent.height);
    let depth = ManagedImage {
        image: stub.create(),
        image_view: stub.create(),
        image_memory: Some(stub.create()),
        memory_ptr: None,
    };
    let render_pass = stub.create();
    let pipeline_layout = stub.create();
    let pipeline = stub.create();
    let framebuffer_infos =
        create_framebuffers(render_pass, info.image_extent, &image_views, Some(depth.image_view));
    assert!(framebuffer_infos.iter().all(|fb| fb.attachments.len() == 2));
    let framebuffers = stub.create_many(framebuffer_infos.len());
    BundleParts {
        swapchain,
        image_format: info.image_format,
        extent: info.image_extent,
        image_views,
        depth_image: Some(depth),
        render_pass,
        pipeline,
        pipeline_layout,
        descriptor_set_layout: None,
        framebuffers,
    }
}

/// Uploads `count` elements of `stride` bytes through a staging buffer.
fn upload(stub: &mut Stub, stride: usize, count: usize, index_data: bool) -> ManagedBuffer {
    let size = payload_size(stride, count).unwrap();
    let target_plan = if index_data {
        create_index_buffer::<u16>(count)
    } else {
        create_vertex_buffer(size)
    };
    assert_eq!(target_plan.info.size, size);
    let types = stub_memory_types();
    let requirements = MemoryRequirements { size, memory_type_bits: 0b11 };
    let target_memory =
        allocate_and_bind_buffer(requirements, &types, target_plan.memory_properties).unwrap();
    assert_eq!(target_memory.memory_type_index, 0);
    let target = ManagedBuffer {
        memory_size: size,
        buffer_memory: Some(stub.create()),
        buffer: stub.create(),
        memory_ptr: None,
    };

    let staging_plan = create_staging_buffer(size);
    let staging_memory =
        allocate_and_bind_buffer(requirements, &types, staging_plan.memory_properties).unwrap();
    assert_eq!(staging_memory.memory_type_index, 1);
    let mut staging = ManagedBuffer {
        memory_size: size,
        buffer_memory: Some(stub.create()),
        buffer: stub.create(),
        memory_ptr: None,
    };
    staging.map_buffer_memory(0x9000);
    let copy = copy_buffer(staging.buffer, target.buffer, size);
    assert_eq!((copy.src_offset, copy.dst_offset, copy.size), (0, 0, size));
    assert_eq!(staging.release().len(), 3);
    target
}

fn quad_app(stub: &mut Stub) -> BaseApp {
    let instance = stub.create();
    let surface = stub.create();
    let logical_device = stub.create();
    let queue = stub.create();
    let parts = build_bundle(stub, &capabilities(1000, 1000));
    let command_pool = stub.create();
    // Four corners of two floats each; six 16-bit indices for two triangles.
    let vertex_buffer = upload(stub, 8, 4, false);
    let index_buffer = upload(stub, 2, 6, true);
    assert_eq!(vertex_buffer.memory_size, 32);
    assert_eq!(index_buffer.memory_size, 12);
    let command_buffers = stub.create_many(parts.image_views.len());
    let sync_handles = stub.create_many(sync_primitives_to_create().len());
    let sync = create_sync_primitives(&sync_handles).unwrap();
    let resources = Resources {
        instance,
        messenger: None,
        surface,
        logical_device,
        graphics_queue: queue,
        present_queue: queue,
        command_pool,
        sync,
        descriptor_pool: None,
        descriptor_sets: Vec::new(),
        vertex_buffer,
        index_buffer,
        uniform_buffers: Vec::new(),
        texture: None,
        texture_sampler: None,
    };
    BaseApp::new(resources, parts, command_buffers, false).unwrap()
}

#[test]
fn one_frame_of_a_quad() {
    let mut stub = Stub { next_handle: 100 };
    let mut app = quad_app(&mut stub);
    let slot = 0;
    let fence = app.resources().sync.in_flight[slot];

    assert_eq!(app.wait_for_in_flight_fence(slot), Ok(fence));
    let acquire = app.acquire_next_image(slot).unwrap();
    assert_eq!(acquire.swapchain, app.bundle().unwrap().swapchain);
    assert_eq!(acquire.semaphore, app.resources().sync.image_available[slot]);
    let image = 1;
    assert_eq!(app.image_acquired(slot, Ok((image, false))), Ok(FrameDecision::Proceed));
    assert_eq!(app.reset_in_flight_fence(slot), Ok(fence));

    let command_buffer = app.record_command_buffer(image as usize).unwrap();
    let commands = drawing_commands(&app, slot, image, 4, raw::INDEX_TYPE_UINT16).unwrap();
    assert_eq!(commands.command_buffer, command_buffer);
    assert_eq!(commands.before.len(), 5);
    assert_eq!(commands.after.len(), 1);

    let submit = app.submit_drawing_command_buffer(slot).unwrap();
    assert_eq!(submit.command_buffer, command_buffer);
    assert_eq!(submit.command_buffer, app.command_buffers()[image as usize]);
    assert_eq!(submit.wait_semaphore, acquire.semaphore);
    assert_eq!(submit.fence, fence);
    let present = app.present_image(slot).unwrap();
    assert_eq!(present.image_index, image);
    assert_eq!(present.wait_semaphore, submit.signal_semaphore);
    assert_eq!(app.image_presented(Ok(false)), FrameDecision::Proceed);

    assert_eq!(app.frames().phase(slot), Some(SlotPhase::Submitted { image }));
    assert_eq!(next_frame(slot), 1);
    assert_eq!(app.frames().status(), SwapchainStatus::Current);
    let calls = app.teardown();
    assert_eq!(calls.last(), Some(&ReleaseCall::DestroyInstance));
}

#[test]
fn many_frames_keep_one_submission_per_slot() {
    let mut stub = Stub { next_handle: 100 };
    let mut app = quad_app(&mut stub);
    let mut outstanding = [0u32; 2];
    let mut slot = 0;
    for frame in 0..50u32 {
        assert!(app.wait_for_in_flight_fence(slot).is_ok());
        outstanding[slot] = 0;
        assert!(app.acquire_next_image(slot).is_ok());
        let image = (frame * 7 + 1) % 3;
        assert_eq!(app.image_acquired(slot, Ok((image, false))), Ok(FrameDecision::Proceed));
        assert!(app.reset_in_flight_fence(slot).is_ok());
        assert!(app.record_command_buffer(image as usize).is_ok());
        assert!(app.submit_drawing_command_buffer(slot).is_ok());
        outstanding[slot] += 1;
        // A second submission is refused until the fence has been waited for.
        assert_eq!(app.submit_drawing_command_buffer(slot), Err(FrameError::OutOfTurn));
        assert!(outstanding.iter().all(|count| *count <= 1));
        assert!(app.present_image(slot).is_ok());
        assert_eq!(app.image_presented(Ok(false)), FrameDecision::Proceed);
        slot = next_frame(slot);
    }
}

#[test]
fn out_of_date_acquisition_rebuilds_the_bundle() {
    let mut stub = Stub { next_handle: 100 };
    let mut app = quad_app(&mut stub);
    let old_swapchain = app.bundle().unwrap().swapchain;
    assert_eq!(app.bundle().unwrap().extent, Extent2D { width: 1000, height: 1000 });

    // Slot 0 draws a frame; slot 1 finds the surface changed.
    assert!(app.wait_for_in_flight_fence(0).is_ok());
    assert!(app.acquire_next_image(0).is_ok());
    assert_eq!(app.image_acquired(0, Ok((0, false))), Ok(FrameDecision::Proceed));
    assert!(app.reset_in_flight_fence(0).is_ok());
    assert!(app.submit_drawing_command_buffer(0).is_ok());
    assert!(app.wait_for_in_flight_fence(1).is_ok());
    assert!(app.acquire_next_image(1).is_ok());
    assert_eq!(
        app.image_acquired(1, Err(raw::RESULT_ERROR_OUT_OF_DATE)),
        Ok(FrameDecision::Recreate)
    );

    // The fence of the abandoned frame was not reset.
    assert_eq!(app.frames().phase(1), Some(SlotPhase::Idle));
    assert_eq!(app.reset_in_flight_fence(1), Err(FrameError::OutOfTurn));
    // No image is acquired before the bundle has been rebuilt.
    assert!(app.wait_for_in_flight_fence(1).is_ok());
    assert_eq!(app.acquire_next_image(1), Err(FrameError::NoSwapchain));

    let calls = app.clean_swapchain_and_dependants().unwrap();
    assert_eq!(calls[0], ReleaseCall::DeviceWaitIdle);
    assert!(calls.contains(&ReleaseCall::DestroySwapchain(old_swapchain)));
    assert!(app.bundle().is_none());
    assert_eq!(app.acquire_next_image(1), Err(FrameError::NoSwapchain));

    let parts = build_bundle(&mut stub, &capabilities(640, 480));
    let (freed, allocate) = app.reallocate_command_buffers(parts.image_views.len() as u32);
    assert_eq!(freed.len(), 3);
    let command_buffers = stub.create_many(allocate.command_buffer_count as usize);
    assert_eq!(app.recreate_swapchain(parts, command_buffers), Ok(()));

    let bundle = app.bundle().unwrap();
    assert_ne!(bundle.swapchain, old_swapchain);
    assert_eq!(bundle.extent, Extent2D { width: 640, height: 480 });
    assert_eq!(bundle.framebuffers.len(), bundle.image_views.len());
    assert!(bundle.framebuffers.iter().all(|fb| (fb.width, fb.height) == (640, 480)));

    // Both slots are free: neither wait can block.
    for slot in [0, 1] {
        assert_eq!(app.frames().phase(slot), Some(SlotPhase::Idle));
        assert!(app.wait_for_in_flight_fence(slot).is_ok());
        assert!(app.acquire_next_image(slot).is_ok());
    }
}

#[test]
fn out_of_date_presentation_rebuilds_the_bundle() {
    let mut stub = Stub { next_handle: 100 };
    let mut app = quad_app(&mut stub);
    assert!(app.wait_for_in_flight_fence(0).is_ok());
    assert!(app.acquire_next_image(0).is_ok());
    assert_eq!(app.image_acquired(0, Ok((2, false))), Ok(FrameDecision::Proceed));
    assert!(app.reset_in_flight_fence(0).is_ok());
    assert!(app.submit_drawing_command_buffer(0).is_ok());
    assert!(app.present_image(0).is_ok());
    assert_eq!(
        app.image_presented(Err(raw::RESULT_ERROR_OUT_OF_DATE)),
        FrameDecision::Recreate
    );
    assert_eq!(app.frames().status(), SwapchainStatus::Stale);
    assert!(app.clean_swapchain_and_dependants().is_ok());
    let parts = build_bundle(&mut stub, &capabilities(300, 200));
    let command_buffers = stub.create_many(parts.image_views.len());
    assert_eq!(app.recreate_swapchain(parts, command_buffers), Ok(()));
    assert_eq!(app.bundle().unwrap().extent, Extent2D { width: 300, height: 200 });
    assert_eq!(app.frames().status(), SwapchainStatus::Current);
}

/// Plays the copy on memory that the test holds.
fn apply(region: &BufferCopy, src: &[u8], dst: &mut [u8]) {
    let size = region.size as usize;
    let from = region.src_offset as usize;
    let to = region.dst_offset as usize;
    dst[to..to + size].copy_from_slice(&src[from..from + size]);
}

fn bytes_of(floats: &[f32]) -> Vec<u8> {
    floats.iter().flat_map(|f| f.to_ne_bytes()).collect()
}

#[test]
fn uploaded_vertices_read_back_unchanged() {
    // Positions alone, then positions with texture coordinates.
    let corners = bytes_of(&[-1.0, -1.0, 1.0, -1.0, -1.0, 1.0, 1.0, 1.0]);
    let textured = bytes_of(&[
        -0.5, -0.5, -0.5, 0.0, 0.0, 0.5, -0.5, -0.5, 1.0, 0.0, -0.5, 0.5, -0.5, 0.0, 1.0,
    ]);
    for (payload, stride, count) in [(corners, 8usize, 4usize), (textured, 20, 3)] {
        let size = payload_size(stride, count).unwrap();
        assert_eq!(size as usize, payload.len());
        let staging_plan = create_staging_buffer(size);
        let target_plan = create_vertex_buffer(size);
        let staging = payload.clone();
        let mut device_local = vec![0xAAu8; target_plan.info.size as usize];
        assert_eq!(staging.len() as u64, staging_plan.info.size);
        apply(&copy_buffer(1, 2, size), &staging, &mut device_local);
        assert_eq!(device_local, payload);
    }
}

#[test]
fn memory_type_that_is_not_there_is_reported() {
    let types = stub_memory_types();
    // Host-cached memory is not among the stub's types.
    assert_eq!(
        find_memory_type(&types, u32::MAX, 0x8),
        Err(MemoryError::NoSuitableMemoryType)
    );
    assert_eq!(
        find_memory_type(
            &types,
            u32::MAX,
            raw::MEMORY_PROPERTY_DEVICE_LOCAL | raw::MEMORY_PROPERTY_HOST_VISIBLE
        ),
        Err(MemoryError::NoSuitableMemoryType)
    );
    let requirements = MemoryRequirements { size: 64, memory_type_bits: u32::MAX };
    assert_eq!(
        allocate_and_bind_buffer(requirements, &types, 0x8),
        Err(MemoryError::NoSuitableMemoryType)
    );
}
