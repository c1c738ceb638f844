//! Memory types, buffers, images and uploads on concrete values.

use vk_engine::engine_core::buffer::{
    allocate_and_bind_buffer, create_buffer, find_memory_type, map_buffer_memory,
    BufferCreateInfo, ManagedBuffer, MemoryAllocateInfo, MemoryError, MemoryMapInfo,
    MemoryRequirements, MemoryType,
};
use vk_engine::engine_core::calls::ReleaseCall;
use vk_engine::engine_core::textures::{
    allocate_and_bind_image, copy_buffer_to_image, create_image_view, create_texture_image,
    create_texture_image_view, map_image_memory, texture_staging_size, transition_image_layout,
    upload_texture, Extent3D, ManagedImage, Offset3D, TransitionError, UploadStep,
};
use vk_engine::engine_core::vk as raw;
use vk_engine::engine_core::{
    copy_buffer, create_image, create_index_buffer, create_staging_buffer,
    create_uniform_buffers, create_vertex_buffer, payload_size, BufferCopy,
};
use vk_engine::{load_image_as_rgba_samples, texels_from_samples};

const DEVICE_LOCAL: u32 = 0x1;
const HOST_VISIBLE: u32 = 0x2;
const HOST_COHERENT: u32 = 0x4;
const HOST_CACHED: u32 = 0x8;

fn memory_types() -> Vec<MemoryType> {
    vec![
        MemoryType { property_flags: DEVICE_LOCAL, heap_index: 0 },
        MemoryType { property_flags: HOST_VISIBLE | HOST_COHERENT, heap_index: 1 },
        MemoryType { property_flags: HOST_VISIBLE | HOST_COHERENT | HOST_CACHED, heap_index: 1 },
        MemoryType { property_flags: DEVICE_LOCAL | HOST_VISIBLE | HOST_COHERENT, heap_index: 0 },
    ]
}

#[test]
fn lowest_matching_memory_type_is_found() {
    let types = memory_types();
    assert_eq!(find_memory_type(&types, 0b1111, DEVICE_LOCAL), Ok((0, types[0])));
    assert_eq!(
        find_memory_type(&types, 0b1111, HOST_VISIBLE | HOST_COHERENT),
        Ok((1, types[1]))
    );
    assert_eq!(find_memory_type(&types, 0b1111, HOST_CACHED), Ok((2, types[2])));
    assert_eq!(
        find_memory_type(&types, 0b1111, DEVICE_LOCAL | HOST_VISIBLE),
        Ok((3, types[3]))
    );
    assert_eq!(find_memory_type(&types, 0b1111, 0), Ok((0, types[0])));
}

#[test]
fn type_filter_excludes_memory_types() {
    let types = memory_types();
    assert_eq!(find_memory_type(&types, 0b1000, DEVICE_LOCAL), Ok((3, types[3])));
    assert_eq!(find_memory_type(&types, 0b1100, HOST_VISIBLE), Ok((2, types[2])));
    assert_eq!(
        find_memory_type(&types, 0b0110, DEVICE_LOCAL),
        Err(MemoryError::NoSuitableMemoryType)
    );
    assert_eq!(find_memory_type(&types, 0, 0), Err(MemoryError::NoSuitableMemoryType));
}

#[test]
fn missing_properties_are_reported() {
    let types = memory_types();
    // Lazily allocated memory is not on offer.
    assert_eq!(find_memory_type(&types, u32::MAX, 0x10), Err(MemoryError::NoSuitableMemoryType));
    assert_eq!(
        find_memory_type(&types, u32::MAX, DEVICE_LOCAL | HOST_CACHED),
        Err(MemoryError::NoSuitableMemoryType)
    );
    assert_eq!(
        find_memory_type(&Vec::new(), u32::MAX, 0),
        Err(MemoryError::NoSuitableMemoryType)
    );
    assert_eq!(MemoryError::NoSuitableMemoryType.message(), "No suitable memory type found!");
}

#[test]
fn memory_types_past_the_filter_are_never_taken() {
    let mut types = vec![MemoryType { property_flags: 0, heap_index: 0 }; 40];
    types[31].property_flags = HOST_VISIBLE;
    types[35].property_flags = DEVICE_LOCAL;
    assert_eq!(find_memory_type(&types, u32::MAX, HOST_VISIBLE), Ok((31, types[31])));
    assert_eq!(
        find_memory_type(&types, u32::MAX, DEVICE_LOCAL),
        Err(MemoryError::NoSuitableMemoryType)
    );
}

#[test]
fn allocation_follows_the_requirements() {
    let types = memory_types();
    let requirements = MemoryRequirements { size: 4096, memory_type_bits: 0b1110 };
    assert_eq!(
        allocate_and_bind_buffer(requirements, &types, HOST_VISIBLE | HOST_COHERENT),
        Ok(MemoryAllocateInfo { allocation_size: 4096, memory_type_index: 1 })
    );
    assert_eq!(
        allocate_and_bind_buffer(requirements, &types, DEVICE_LOCAL),
        Ok(MemoryAllocateInfo { allocation_size: 4096, memory_type_index: 3 })
    );
    assert_eq!(
        allocate_and_bind_image(requirements, &types, DEVICE_LOCAL),
        Ok(MemoryAllocateInfo { allocation_size: 4096, memory_type_index: 3 })
    );
    assert_eq!(
        allocate_and_bind_buffer(requirements, &types, 0x20),
        Err(MemoryError::NoSuitableMemoryType)
    );
    assert_eq!(
        allocate_and_bind_image(requirements, &types, 0x20),
        Err(MemoryError::NoSuitableMemoryType)
    );
}

#[test]
fn buffer_parameters() {
    assert_eq!(
        create_buffer(64, raw::BUFFER_USAGE_TRANSFER_SRC),
        BufferCreateInfo { size: 64, usage: 0x1, sharing_mode: 0 }
    );
    let staging = create_staging_buffer(80);
    assert_eq!(staging.info, BufferCreateInfo { size: 80, usage: 0x1, sharing_mode: 0 });
    assert_eq!(staging.memory_properties, HOST_VISIBLE | HOST_COHERENT);
    assert!(!staging.persistently_mapped);
    let vertex = create_vertex_buffer(80);
    assert_eq!(vertex.info, BufferCreateInfo { size: 80, usage: 0x80 | 0x2, sharing_mode: 0 });
    assert_eq!(vertex.memory_properties, DEVICE_LOCAL);
    assert!(!vertex.persistently_mapped);
}

#[test]
fn index_buffer_size_goes_by_the_index_type() {
    let short = create_index_buffer::<u16>(6);
    assert_eq!(short.info, BufferCreateInfo { size: 12, usage: 0x40 | 0x2, sharing_mode: 0 });
    assert_eq!(short.memory_properties, DEVICE_LOCAL);
    let long = create_index_buffer::<u32>(6);
    assert_eq!(long.info.size, 24);
    assert_eq!(create_index_buffer::<u32>(0).info.size, 0);
}

#[test]
fn uniform_buffers_are_mapped_for_life() {
    let plans = create_uniform_buffers(192, 2);
    assert_eq!(plans.len(), 2);
    for plan in &plans {
        assert_eq!(plan.info, BufferCreateInfo { size: 192, usage: 0x10, sharing_mode: 0 });
        assert_eq!(plan.memory_properties, HOST_VISIBLE | HOST_COHERENT);
        assert!(plan.persistently_mapped);
    }
    assert!(create_uniform_buffers(192, 0).is_empty());
}

#[test]
fn upload_covers_the_whole_payload() {
    // Four vertices of two floats each, and four of three plus two floats.
    for stride in [8usize, 20] {
        let size = payload_size(stride, 4).unwrap();
        assert_eq!(size, 4 * stride as u64);
        let staging = create_staging_buffer(size);
        let target = create_vertex_buffer(size);
        let copy = copy_buffer(11, 12, size);
        assert_eq!(staging.info.size, target.info.size);
        assert_eq!(
            copy,
            BufferCopy { src_buffer: 11, dst_buffer: 12, src_offset: 0, dst_offset: 0, size }
        );
    }
}

#[test]
fn payload_size_reports_overflow() {
    assert_eq!(payload_size(20, 4), Some(80));
    assert_eq!(payload_size(0, usize::MAX), Some(0));
    assert_eq!(payload_size(1, usize::MAX), Some(usize::MAX as u64));
    assert_eq!(payload_size(usize::MAX, 2), None);
}

#[test]
fn whole_memory_is_mapped() {
    let whole = MemoryMapInfo { memory: 7, offset: 0, size: ash::vk::WHOLE_SIZE, flags: 0 };
    assert_eq!(map_buffer_memory(7), whole);
    assert_eq!(map_image_memory(7), whole);
}

#[test]
fn buffer_mapping_is_tracked() {
    let mut buffer =
        ManagedBuffer { memory_size: 64, buffer_memory: Some(21), buffer: 20, memory_ptr: None };
    buffer.map_buffer_memory(0x1000);
    assert_eq!(buffer.memory_ptr, Some(0x1000));
    assert_eq!(buffer.unmap_buffer_memory(), 21);
    assert_eq!(buffer.memory_ptr, None);
    assert_eq!(buffer.buffer_memory, Some(21));
    assert_eq!(buffer.buffer, 20);
}

#[test]
fn buffer_release_unmaps_frees_destroys() {
    let mapped = ManagedBuffer {
        memory_size: 64,
        buffer_memory: Some(21),
        buffer: 20,
        memory_ptr: Some(0x1000),
    };
    assert_eq!(
        mapped.release(),
        vec![
            ReleaseCall::UnmapMemory(21),
            ReleaseCall::FreeMemory(21),
            ReleaseCall::DestroyBuffer(20)
        ]
    );
    let unmapped =
        ManagedBuffer { memory_size: 64, buffer_memory: Some(21), buffer: 20, memory_ptr: None };
    assert_eq!(
        unmapped.release(),
        vec![ReleaseCall::FreeMemory(21), ReleaseCall::DestroyBuffer(20)]
    );
    let unbound =
        ManagedBuffer { memory_size: 64, buffer_memory: None, buffer: 20, memory_ptr: None };
    assert_eq!(unbound.release(), vec![ReleaseCall::DestroyBuffer(20)]);
}

#[test]
fn image_release_unmaps_frees_destroys() {
    let mut image =
        ManagedImage { image: 30, image_view: 31, image_memory: Some(32), memory_ptr: None };
    assert_eq!(
        image.release(),
        vec![
            ReleaseCall::FreeMemory(32),
            ReleaseCall::DestroyImageView(31),
            ReleaseCall::DestroyImage(30)
        ]
    );
    image.map_image_memory(0x2000);
    assert_eq!(image.memory_ptr, Some(0x2000));
    assert_eq!(
        image.release(),
        vec![
            ReleaseCall::UnmapMemory(32),
            ReleaseCall::FreeMemory(32),
            ReleaseCall::DestroyImageView(31),
            ReleaseCall::DestroyImage(30)
        ]
    );
    assert_eq!(image.unmap_image_memory(), 32);
    assert_eq!(image.memory_ptr, None);
}

#[test]
fn image_parameters() {
    let texture = create_texture_image(raw::FORMAT_R8G8B8A8_SRGB, (640, 480));
    assert_eq!(texture.image_type, raw::IMAGE_TYPE_2D);
    assert_eq!(texture.extent, Extent3D { width: 640, height: 480, depth: 1 });
    assert_eq!(texture.mip_levels, 1);
    assert_eq!(texture.array_layers, 1);
    assert_eq!(texture.format, 43);
    assert_eq!(texture.tiling, raw::IMAGE_TILING_OPTIMAL);
    assert_eq!(texture.initial_layout, raw::IMAGE_LAYOUT_UNDEFINED);
    assert_eq!(texture.usage, 0x2 | 0x4);
    assert_eq!(texture.sharing_mode, raw::SHARING_MODE_EXCLUSIVE);
    assert_eq!(texture.samples, 1);

    let depth = create_image(
        raw::FORMAT_D32_SFLOAT,
        raw::IMAGE_TILING_OPTIMAL,
        raw::IMAGE_USAGE_DEPTH_STENCIL_ATTACHMENT,
        raw::IMAGE_ASPECT_DEPTH,
        (800, 600),
    );
    assert_eq!(depth.info.format, 126);
    assert_eq!(depth.info.usage, 0x20);
    assert_eq!(depth.info.extent, Extent3D { width: 800, height: 600, depth: 1 });
    assert_eq!(depth.memory_properties, DEVICE_LOCAL);
    assert_eq!(depth.view_aspect, 0x2);
}

#[test]
fn image_view_parameters() {
    let view = create_texture_image_view(30, 43);
    assert_eq!(view.image, 30);
    assert_eq!(view.view_type, raw::IMAGE_VIEW_TYPE_2D);
    assert_eq!(view.format, 43);
    assert_eq!(view.subresource_range.aspect_mask, raw::IMAGE_ASPECT_COLOR);
    assert_eq!(view.subresource_range.base_mip_level, 0);
    assert_eq!(view.subresource_range.level_count, 1);
    assert_eq!(view.subresource_range.base_array_layer, 0);
    assert_eq!(view.subresource_range.layer_count, 1);
    assert_eq!(create_image_view(30, 126, 0x2).subresource_range.aspect_mask, 0x2);
}

#[test]
fn transition_to_transfer_destination() {
    let t = transition_image_layout(
        30,
        raw::IMAGE_LAYOUT_UNDEFINED,
        raw::IMAGE_LAYOUT_TRANSFER_DST_OPTIMAL,
    )
    .unwrap();
    assert_eq!(t.image, 30);
    assert_eq!(t.old_layout, 0);
    assert_eq!(t.new_layout, 7);
    assert_eq!(t.src_queue_family_index, u32::MAX);
    assert_eq!(t.dst_queue_family_index, u32::MAX);
    assert_eq!(t.subresource_range.aspect_mask, raw::IMAGE_ASPECT_COLOR);
    assert_eq!(t.subresource_range.level_count, 1);
    assert_eq!(t.subresource_range.layer_count, 1);
    assert_eq!(t.src_access_mask, 0);
    assert_eq!(t.dst_access_mask, raw::ACCESS_TRANSFER_WRITE);
    assert_eq!(t.src_stage, raw::PIPELINE_STAGE_TOP_OF_PIPE);
    assert_eq!(t.dst_stage, raw::PIPELINE_STAGE_TRANSFER);
}

#[test]
fn transition_to_shader_read() {
    let t = transition_image_layout(
        30,
        raw::IMAGE_LAYOUT_TRANSFER_DST_OPTIMAL,
        raw::IMAGE_LAYOUT_SHADER_READ_ONLY_OPTIMAL,
    )
    .unwrap();
    assert_eq!(t.old_layout, 7);
    assert_eq!(t.new_layout, 5);
    assert_eq!(t.src_access_mask, raw::ACCESS_TRANSFER_WRITE);
    assert_eq!(t.dst_access_mask, raw::ACCESS_SHADER_READ);
    assert_eq!(t.src_stage, raw::PIPELINE_STAGE_TRANSFER);
    assert_eq!(t.dst_stage, raw::PIPELINE_STAGE_FRAGMENT_SHADER);
}

#[test]
fn other_transitions_are_refused() {
    for (old, new) in [(0, 5), (7, 0), (5, 7), (0, 0), (7, 7), (2, 1000001002)] {
        assert_eq!(transition_image_layout(30, old, new), Err(TransitionError::Unsupported));
    }
    assert_eq!(TransitionError::Unsupported.message(), "Image layout transition not supported!");
}

#[test]
fn texture_upload_steps_in_order() {
    let steps = upload_texture(40, 30, 640, 480);
    assert_eq!(steps.len(), 3);
    assert_eq!(steps[0], UploadStep::Transition(transition_image_layout(30, 0, 7).unwrap()));
    let region = copy_buffer_to_image(40, 30, 640, 480);
    assert_eq!(steps[1], UploadStep::Copy(region));
    assert_eq!(steps[2], UploadStep::Transition(transition_image_layout(30, 7, 5).unwrap()));
    assert_eq!(region.buffer, 40);
    assert_eq!(region.image, 30);
    assert_eq!(region.image_layout, raw::IMAGE_LAYOUT_TRANSFER_DST_OPTIMAL);
    assert_eq!(region.buffer_offset, 0);
    assert_eq!(region.buffer_row_length, 0);
    assert_eq!(region.buffer_image_height, 0);
    assert_eq!(region.aspect_mask, raw::IMAGE_ASPECT_COLOR);
    assert_eq!(region.mip_level, 0);
    assert_eq!(region.base_array_layer, 0);
    assert_eq!(region.layer_count, 1);
    assert_eq!(region.image_offset, Offset3D { x: 0, y: 0, z: 0 });
    assert_eq!(region.image_extent, Extent3D { width: 640, height: 480, depth: 1 });
}

#[test]
fn staging_size_is_four_bytes_per_texel() {
    assert_eq!(texture_staging_size(640, 480), Some(1228800));
    assert_eq!(texture_staging_size(0, 480), Some(0));
    assert_eq!(texture_staging_size(65536, 65536), Some(17179869184));
    assert_eq!(texture_staging_size(u32::MAX, u32::MAX), None);
    assert_eq!(texture_staging_size(u32::MAX, 1 << 30), Some(4 * 4294967295 * (1 << 30)));
    assert_eq!(texture_staging_size(u32::MAX, (1 << 30) + 2), None);
}

#[test]
fn texels_need_four_samples_each() {
    let texels = texels_from_samples(vec![9; 24], 3, 2).unwrap();
    assert_eq!(texels.samples, vec![9; 24]);
    assert_eq!((texels.width, texels.height), (3, 2));
    assert_eq!(texels_from_samples(vec![9; 23], 3, 2), None);
    assert_eq!(texels_from_samples(vec![9; 25], 3, 2), None);
    assert_eq!(texels_from_samples(Vec::new(), 0, 7).unwrap().samples, Vec::<u8>::new());
    assert_eq!(texels_from_samples(Vec::new(), u32::MAX, u32::MAX), None);
}

fn encoded(width: u32, height: u32, samples: Vec<u8>, format: image::ImageOutputFormat) -> Vec<u8> {
    let picture = image::RgbaImage::from_raw(width, height, samples).unwrap();
    let mut bytes = std::io::Cursor::new(Vec::new());
    image::DynamicImage::ImageRgba8(picture).write_to(&mut bytes, format).unwrap();
    bytes.into_inner()
}

#[test]
fn png_is_decoded_to_its_samples() {
    let samples: Vec<u8> = (0..24).map(|i| i * 10).collect();
    let file = encoded(3, 2, samples.clone(), image::ImageOutputFormat::Png);
    let texels = load_image_as_rgba_samples("textures/wall.png", &file).unwrap();
    assert_eq!((texels.width, texels.height), (3, 2));
    assert_eq!(texels.samples, samples);
}

#[test]
fn jpeg_is_decoded_to_four_samples_per_texel() {
    let file = encoded(8, 8, vec![200; 256], image::ImageOutputFormat::Jpeg(90));
    let texels = load_image_as_rgba_samples("texture.jpg", &file).unwrap();
    assert_eq!((texels.width, texels.height), (8, 8));
    assert_eq!(texels.samples.len(), 256);
    // Every texel is opaque.
    assert!(texels.samples.chunks(4).all(|texel| texel[3] == 255));
}

#[test]
fn format_goes_by_the_extension() {
    let file = encoded(3, 2, vec![7; 24], image::ImageOutputFormat::Png);
    assert_eq!(load_image_as_rgba_samples("texture.jpg", &file), None);
    assert_eq!(load_image_as_rgba_samples("texture", &file), None);
    assert_eq!(load_image_as_rgba_samples("texture.xyz", &file), None);
}

#[test]
fn broken_image_is_refused() {
    assert_eq!(load_image_as_rgba_samples("texture.png", &vec![1, 2, 3, 4]), None);
    assert_eq!(load_image_as_rgba_samples("texture.jpg", &Vec::new()), None);
}
