//! Images and their views: creation parameters, the state of a managed image, and
//! the steps that bring texel data into a sampled image.

use vstd::prelude::*;
use crate::engine_core::buffer::{
    find_memory_type, is_allocation_for, memory_type_matches, MemoryAllocateInfo, MemoryError,
    MemoryMapInfo, MemoryRequirements, MemoryType,
};
use crate::engine_core::calls::{all_need_device, ReleaseCall};
use crate::engine_core::vk::{
    Handle, ACCESS_SHADER_READ, ACCESS_TRANSFER_WRITE, IMAGE_ASPECT_COLOR,
    IMAGE_LAYOUT_SHADER_READ_ONLY_OPTIMAL, IMAGE_LAYOUT_TRANSFER_DST_OPTIMAL,
    IMAGE_LAYOUT_UNDEFINED, IMAGE_TILING_OPTIMAL, IMAGE_TYPE_2D, IMAGE_USAGE_SAMPLED,
    IMAGE_USAGE_TRANSFER_DST, IMAGE_VIEW_TYPE_2D, PIPELINE_STAGE_FRAGMENT_SHADER,
    PIPELINE_STAGE_TOP_OF_PIPE, PIPELINE_STAGE_TRANSFER, QUEUE_FAMILY_IGNORED, SAMPLE_COUNT_1,
    SHARING_MODE_EXCLUSIVE,
};

verus! {

/// A position in an image, in texels.
#[derive(Clone, Copy, PartialEq, Eq, Structural, Debug)]
pub struct Offset3D {
    pub x: i32,
    pub y: i32,
    pub z: i32,
}

/// Width, height and depth in texels.
#[derive(Clone, Copy, PartialEq, Eq, Structural, Debug)]
pub struct Extent3D {
    pub width: u32,
    pub height: u32,
    pub depth: u32,
}

/// The parameters with which an image is created.
#[derive(Clone, Copy, PartialEq, Eq, Structural, Debug)]
pub struct ImageCreateInfo {
    pub image_type: i32,
    pub extent: Extent3D,
    pub mip_levels: u32,
    pub array_layers: u32,
    pub format: i32,
    pub tiling: i32,
    pub initial_layout: i32,
    pub usage: u32,
    pub sharing_mode: i32,
    pub samples: u32,
}

/// The part of an image that a view or a barrier covers.
#[derive(Clone, Copy, PartialEq, Eq, Structural, Debug)]
pub struct ImageSubresourceRange {
    pub aspect_mask: u32,
    pub base_mip_level: u32,
    pub level_count: u32,
    pub base_array_layer: u32,
    pub layer_count: u32,
}

/// The parameters with which an image view is created.
#[derive(Clone, Copy, PartialEq, Eq, Structural, Debug)]
pub struct ImageViewCreateInfo {
    pub image: Handle,
    pub view_type: i32,
    pub format: i32,
    pub subresource_range: ImageSubresourceRange,
}

/// The first mip level and array layer of an image, in the given aspect.
pub open spec fn whole_image(aspect_mask: u32) -> ImageSubresourceRange {
    ImageSubresourceRange {
        aspect_mask,
        base_mip_level: 0,
        level_count: 1,
        base_array_layer: 0,
        layer_count: 1,
    }
}

/// A two-dimensional image with one mip level, one layer and one sample per texel,
/// in undefined layout, owned by one queue family.
pub open spec fn plain_image(
    format: i32,
    tiling: i32,
    usage: u32,
    dimensions: (u32, u32),
) -> ImageCreateInfo {
    ImageCreateInfo {
        image_type: IMAGE_TYPE_2D,
        extent: Extent3D { width: dimensions.0, height: dimensions.1, depth: 1 },
        mip_levels: 1,
        array_layers: 1,
        format,
        tiling,
        initial_layout: IMAGE_LAYOUT_UNDEFINED,
        usage,
        sharing_mode: SHARING_MODE_EXCLUSIVE,
        samples: SAMPLE_COUNT_1,
    }
}

/// A two-dimensional view of the whole image in the given aspect.
pub open spec fn plain_image_view(
    image: Handle,
    format: i32,
    aspect_mask: u32,
) -> ImageViewCreateInfo {
    ImageViewCreateInfo {
        image,
        view_type: IMAGE_VIEW_TYPE_2D,
        format,
        subresource_range: whole_image(aspect_mask),
    }
}

/// The parameters of a two-dimensional image.
pub fn create_image(format: i32, tiling: i32, usage: u32, dimensions: (u32, u32)) -> (info:
    ImageCreateInfo)
    ensures
        info == plain_image(format, tiling, usage, dimensions),
{
    ImageCreateInfo {
        image_type: IMAGE_TYPE_2D,
        extent: Extent3D { width: dimensions.0, height: dimensions.1, depth: 1 },
        mip_levels: 1,
        array_layers: 1,
        format,
        tiling,
        initial_layout: IMAGE_LAYOUT_UNDEFINED,
        usage,
        sharing_mode: SHARING_MODE_EXCLUSIVE,
        samples: SAMPLE_COUNT_1,
    }
}

/// The parameters of a view of a whole two-dimensional image.
pub fn create_image_view(image: Handle, format: i32, aspect_mask: u32) -> (info:
    ImageViewCreateInfo)
    ensures
        info == plain_image_view(image, format, aspect_mask),
{
    ImageViewCreateInfo {
        image,
        view_type: IMAGE_VIEW_TYPE_2D,
        format,
        subresource_range: ImageSubresourceRange {
            aspect_mask,
            base_mip_level: 0,
            level_count: 1,
            base_array_layer: 0,
            layer_count: 1,
        },
    }
}

/// The parameters of an image that is filled by a transfer and then sampled.
pub fn create_texture_image(format: i32, dimensions: (u32, u32)) -> (info: ImageCreateInfo)
    ensures
        info == plain_image(
            format,
            IMAGE_TILING_OPTIMAL,
            IMAGE_USAGE_TRANSFER_DST | IMAGE_USAGE_SAMPLED,
            dimensions,
        ),
{
    create_image(
        format,
        IMAGE_TILING_OPTIMAL,
        IMAGE_USAGE_TRANSFER_DST | IMAGE_USAGE_SAMPLED,
        dimensions,
    )
}

/// The parameters of the colour view of a texture.
pub fn create_texture_image_view(image: Handle, format: i32) -> (info: ImageViewCreateInfo)
    ensures
        info == plain_image_view(image, format, IMAGE_ASPECT_COLOR),
{
    create_image_view(image, format, IMAGE_ASPECT_COLOR)
}

/// Works out the allocation that backs an image. The whole allocation is bound to
/// the image at offset zero.
pub fn allocate_and_bind_image(
    requirements: MemoryRequirements,
    memory_types: &Vec<MemoryType>,
    memory_properties: u32,
) -> (r: Result<MemoryAllocateInfo, MemoryError>)
    ensures
        match r {
            Ok(info) => is_allocation_for(info, requirements, memory_types@, memory_properties),
            Err(e) => {
                &&& e == MemoryError::NoSuitableMemoryType
                &&& forall|j: int|
                    !#[trigger] memory_type_matches(
                        memory_types@,
                        requirements.memory_type_bits,
                        memory_properties,
                        j,
                    )
            },
        },
{
    match find_memory_type(memory_types, requirements.memory_type_bits, memory_properties) {
        Ok((index, _)) => Ok(
            MemoryAllocateInfo { allocation_size: requirements.size, memory_type_index: index },
        ),
        Err(e) => Err(e),
    }
}

/// The mapping of a whole allocation.
pub fn map_image_memory(image_memory: Handle) -> (info: MemoryMapInfo)
    ensures
        info == (MemoryMapInfo { memory: image_memory, offset: 0, size: u64::MAX, flags: 0 }),
{
    MemoryMapInfo { memory: image_memory, offset: 0, size: u64::MAX, flags: 0 }
}

/// An image that owns its view and its memory.
#[derive(Clone, Copy, PartialEq, Eq, Structural, Debug)]
pub struct ManagedImage {
    pub image: Handle,
    pub image_view: Handle,
    /// Absent only until memory has been allocated and bound.
    pub image_memory: Option<Handle>,
    /// The address at which the memory is mapped, while it is.
    pub memory_ptr: Option<usize>,
}

impl ManagedImage {
    /// Only memory that exists can be mapped.
    pub open spec fn wf(&self) -> bool {
        self.memory_ptr is Some ==> self.image_memory is Some
    }

    /// Whether the image is in a valid state.
    pub fn check(&self) -> (r: bool)
        ensures
            r == self.wf(),
    {
        self.memory_ptr.is_none() || self.image_memory.is_some()
    }

    /// The calls that give the image back: unmap where mapped, free the memory
    /// where there is any, then destroy the view and, last, the image.
    pub open spec fn release_calls(&self) -> Seq<ReleaseCall> {
        (if self.memory_ptr is Some && self.image_memory is Some {
            seq![ReleaseCall::UnmapMemory(self.image_memory->0)]
        } else {
            Seq::empty()
        }) + (if self.image_memory is Some {
            seq![ReleaseCall::FreeMemory(self.image_memory->0)]
        } else {
            Seq::empty()
        }) + seq![
            ReleaseCall::DestroyImageView(self.image_view),
            ReleaseCall::DestroyImage(self.image),
        ]
    }

    /// Records that the whole memory has been mapped at `address`. Mapping memory
    /// that is absent or already mapped is an error of the caller.
    pub fn map_image_memory(&mut self, address: usize)
        requires
            old(self).image_memory is Some,
            old(self).memory_ptr is None,
        ensures
            *final(self) == (ManagedImage { memory_ptr: Some(address), ..*old(self) }),
            final(self).wf(),
    {
        self.memory_ptr = Some(address);
    }

    /// Ends the mapping and returns the memory to unmap. Unmapping memory that is
    /// not mapped is an error of the caller.
    pub fn unmap_image_memory(&mut self) -> (memory: Handle)
        requires
            old(self).wf(),
            old(self).memory_ptr is Some,
        ensures
            *final(self) == (ManagedImage { memory_ptr: None, ..*old(self) }),
            Some(memory) == old(self).image_memory,
            final(self).wf(),
    {
        self.memory_ptr = None;
        self.image_memory.unwrap()
    }

    /// Gives the image up and says how to release what it owned.
    pub fn release(self) -> (calls: Vec<ReleaseCall>)
        requires
            self.wf(),
        ensures
            calls@ == self.release_calls(),
            all_need_device(calls@),
    {
        let mut calls: Vec<ReleaseCall> = Vec::new();
        if let Some(memory) = self.image_memory {
            if self.memory_ptr.is_some() {
                calls.push(ReleaseCall::UnmapMemory(memory));
            }
            calls.push(ReleaseCall::FreeMemory(memory));
        }
        calls.push(ReleaseCall::DestroyImageView(self.image_view));
        calls.push(ReleaseCall::DestroyImage(self.image));
        calls
    }
}

/// A change of an image's layout, with the accesses and pipeline stages between
/// which it happens.
#[derive(Clone, Copy, PartialEq, Eq, Structural, Debug)]
pub struct LayoutTransition {
    pub image: Handle,
    pub old_layout: i32,
    pub new_layout: i32,
    pub src_queue_family_index: u32,
    pub dst_queue_family_index: u32,
    pub subresource_range: ImageSubresourceRange,
    pub src_access_mask: u32,
    pub dst_access_mask: u32,
    pub src_stage: u32,
    pub dst_stage: u32,
}

/// The library has no barrier for the requested change of layout.
#[derive(Clone, Copy, PartialEq, Eq, Structural, Debug)]
pub enum TransitionError {
    Unsupported,
}

impl TransitionError {
    pub fn message(&self) -> (r: String)
        ensures
            r@ == "Image layout transition not supported!"@,
    {
        "Image layout transition not supported!".to_owned()
    }
}

/// From undefined contents to the destination of a transfer.
pub open spec fn is_upload_start(old_layout: i32, new_layout: i32) -> bool {
    old_layout == IMAGE_LAYOUT_UNDEFINED && new_layout == IMAGE_LAYOUT_TRANSFER_DST_OPTIMAL
}

/// From the destination of a transfer to an image that shaders read.
pub open spec fn is_upload_end(old_layout: i32, new_layout: i32) -> bool {
    old_layout == IMAGE_LAYOUT_TRANSFER_DST_OPTIMAL && new_layout
        == IMAGE_LAYOUT_SHADER_READ_ONLY_OPTIMAL
}

/// The barrier for a supported change of layout of the colour aspect of `image`:
/// no wait before a transfer starts to write; fragment shaders read only after
/// the transfer has written.
pub open spec fn transition_for(
    image: Handle,
    old_layout: i32,
    new_layout: i32,
) -> LayoutTransition {
    LayoutTransition {
        image,
        old_layout,
        new_layout,
        src_queue_family_index: QUEUE_FAMILY_IGNORED,
        dst_queue_family_index: QUEUE_FAMILY_IGNORED,
        subresource_range: whole_image(IMAGE_ASPECT_COLOR),
        src_access_mask: if is_upload_start(old_layout, new_layout) {
            0
        } else {
            ACCESS_TRANSFER_WRITE
        },
        dst_access_mask: if is_upload_start(old_layout, new_layout) {
            ACCESS_TRANSFER_WRITE
        } else {
            ACCESS_SHADER_READ
        },
        src_stage: if is_upload_start(old_layout, new_layout) {
            PIPELINE_STAGE_TOP_OF_PIPE
        } else {
            PIPELINE_STAGE_TRANSFER
        },
        dst_stage: if is_upload_start(old_layout, new_layout) {
            PIPELINE_STAGE_TRANSFER
        } else {
            PIPELINE_STAGE_FRAGMENT_SHADER
        },
    }
}

fn upload_start(image: Handle) -> (t: LayoutTransition)
    ensures
        t == transition_for(image, IMAGE_LAYOUT_UNDEFINED, IMAGE_LAYOUT_TRANSFER_DST_OPTIMAL),
{
    LayoutTransition {
        image,
        old_layout: IMAGE_LAYOUT_UNDEFINED,
        new_layout: IMAGE_LAYOUT_TRANSFER_DST_OPTIMAL,
        src_queue_family_index: QUEUE_FAMILY_IGNORED,
        dst_queue_family_index: QUEUE_FAMILY_IGNORED,
        subresource_range: ImageSubresourceRange {
            aspect_mask: IMAGE_ASPECT_COLOR,
            base_mip_level: 0,
            level_count: 1,
            base_array_layer: 0,
            layer_count: 1,
        },
        src_access_mask: 0,
        dst_access_mask: ACCESS_TRANSFER_WRITE,
        src_stage: PIPELINE_STAGE_TOP_OF_PIPE,
        dst_stage: PIPELINE_STAGE_TRANSFER,
    }
}

fn upload_end(image: Handle) -> (t: LayoutTransition)
    ensures
        t == transition_for(
            image,
            IMAGE_LAYOUT_TRANSFER_DST_OPTIMAL,
            IMAGE_LAYOUT_SHADER_READ_ONLY_OPTIMAL,
        ),
{
    LayoutTransition {
        image,
        old_layout: IMAGE_LAYOUT_TRANSFER_DST_OPTIMAL,
        new_layout: IMAGE_LAYOUT_SHADER_READ_ONLY_OPTIMAL,
        src_queue_family_index: QUEUE_FAMILY_IGNORED,
        dst_queue_family_index: QUEUE_FAMILY_IGNORED,
        subresource_range: ImageSubresourceRange {
            aspect_mask: IMAGE_ASPECT_COLOR,
            base_mip_level: 0,
            level_count: 1,
            base_array_layer: 0,
            layer_count: 1,
        },
        src_access_mask: ACCESS_TRANSFER_WRITE,
        dst_access_mask: ACCESS_SHADER_READ,
        src_stage: PIPELINE_STAGE_TRANSFER,
        dst_stage: PIPELINE_STAGE_FRAGMENT_SHADER,
    }
}

/// Works out the barrier that changes the layout of a texture. Only the two changes
/// of an upload are supported.
pub fn transition_image_layout(image: Handle, old_layout: i32, new_layout: i32) -> (r: Result<
    LayoutTransition,
    TransitionError,
>)
    ensures
        r is Ok <==> is_upload_start(old_layout, new_layout) || is_upload_end(
            old_layout,
            new_layout,
        ),
        r matches Ok(t) ==> t == transition_for(image, old_layout, new_layout),
{
    if old_layout == IMAGE_LAYOUT_UNDEFINED && new_layout == IMAGE_LAYOUT_TRANSFER_DST_OPTIMAL {
        Ok(upload_start(image))
    } else if old_layout == IMAGE_LAYOUT_TRANSFER_DST_OPTIMAL && new_layout
        == IMAGE_LAYOUT_SHADER_READ_ONLY_OPTIMAL {
        Ok(upload_end(image))
    } else {
        Err(TransitionError::Unsupported)
    }
}

/// A copy from a tightly packed buffer into the whole of an image's first mip level.
#[derive(Clone, Copy, PartialEq, Eq, Structural, Debug)]
pub struct BufferImageCopy {
    pub buffer: Handle,
    pub image: Handle,
    pub image_layout: i32,
    pub buffer_offset: u64,
    pub buffer_row_length: u32,
    pub buffer_image_height: u32,
    pub aspect_mask: u32,
    pub mip_level: u32,
    pub base_array_layer: u32,
    pub layer_count: u32,
    pub image_offset: Offset3D,
    pub image_extent: Extent3D,
}

/// The copy that fills a `width` by `height` image, which is in transfer-destination
/// layout, from the start of `buffer`.
pub fn copy_buffer_to_image(buffer: Handle, image: Handle, width: u32, height: u32) -> (region:
    BufferImageCopy)
    ensures
        region == (BufferImageCopy {
            buffer,
            image,
            image_layout: IMAGE_LAYOUT_TRANSFER_DST_OPTIMAL,
            buffer_offset: 0,
            buffer_row_length: 0,
            buffer_image_height: 0,
            aspect_mask: IMAGE_ASPECT_COLOR,
            mip_level: 0,
            base_array_layer: 0,
            layer_count: 1,
            image_offset: Offset3D { x: 0, y: 0, z: 0 },
            image_extent: Extent3D { width, height, depth: 1 },
        }),
{
    BufferImageCopy {
        buffer,
        image,
        image_layout: IMAGE_LAYOUT_TRANSFER_DST_OPTIMAL,
        buffer_offset: 0,
        buffer_row_length: 0,
        buffer_image_height: 0,
        aspect_mask: IMAGE_ASPECT_COLOR,
        mip_level: 0,
        base_array_layer: 0,
        layer_count: 1,
        image_offset: Offset3D { x: 0, y: 0, z: 0 },
        image_extent: Extent3D { width, height, depth: 1 },
    }
}

/// One step of a texture upload. Each step is recorded into a command buffer of
/// its own, submitted at once and waited for before the next begins.
#[derive(Clone, Copy, PartialEq, Eq, Structural, Debug)]
pub enum UploadStep {
    Transition(LayoutTransition),
    Copy(BufferImageCopy),
}

/// The steps of an upload: make the image a transfer destination, copy the staged
/// texels into it, hand it to the fragment shaders.
pub open spec fn texture_upload_steps(
    staging_buffer: Handle,
    image: Handle,
    width: u32,
    height: u32,
) -> Seq<UploadStep> {
    seq![
        UploadStep::Transition(
            transition_for(image, IMAGE_LAYOUT_UNDEFINED, IMAGE_LAYOUT_TRANSFER_DST_OPTIMAL),
        ),
        UploadStep::Copy(
            BufferImageCopy {
                buffer: staging_buffer,
                image,
                image_layout: IMAGE_LAYOUT_TRANSFER_DST_OPTIMAL,
                buffer_offset: 0,
                buffer_row_length: 0,
                buffer_image_height: 0,
                aspect_mask: IMAGE_ASPECT_COLOR,
                mip_level: 0,
                base_array_layer: 0,
                layer_count: 1,
                image_offset: Offset3D { x: 0, y: 0, z: 0 },
                image_extent: Extent3D { width, height, depth: 1 },
            },
        ),
        UploadStep::Transition(
            transition_for(
                image,
                IMAGE_LAYOUT_TRANSFER_DST_OPTIMAL,
                IMAGE_LAYOUT_SHADER_READ_ONLY_OPTIMAL,
            ),
        ),
    ]
}

/// Lays out the upload of a texture from a staging buffer.
pub fn upload_texture(staging_buffer: Handle, image: Handle, width: u32, height: u32) -> (steps:
    Vec<UploadStep>)
    ensures
        steps@ == texture_upload_steps(staging_buffer, image, width, height),
{
    let mut steps: Vec<UploadStep> = Vec::new();
    steps.push(UploadStep::Transition(upload_start(image)));
    steps.push(UploadStep::Copy(copy_buffer_to_image(staging_buffer, image, width, height)));
    steps.push(UploadStep::Transition(upload_end(image)));
    steps
}

/// The number of bytes of a `width` by `height` image with four bytes per texel.
pub open spec fn rgba_size(width: u32, height: u32) -> int {
    4 * width * height
}

/// The size of the staging buffer for RGBA texels, where it can be expressed.
pub fn texture_staging_size(width: u32, height: u32) -> (r: Option<u64>)
    ensures
        r is Some <==> rgba_size(width, height) <= u64::MAX,
        r matches Some(size) ==> size == rgba_size(width, height),
{
    assert(width * height <= 0xFFFF_FFFF * 0xFFFF_FFFF) by (nonlinear_arith)
        requires
            width <= 0xFFFF_FFFF,
            height <= 0xFFFF_FFFF,
    ;
    assert(4 * width * height == 4 * (width * height)) by (nonlinear_arith);
    let texels: u64 = (width as u64) * (height as u64);
    if texels <= u64::MAX / 4 {
        Some(4 * texels)
    } else {
        None
    }
}

} // verus!
