//! The building blocks of the application: selection rules, creation parameters and
//! the state of managed resources.

use vstd::prelude::*;
use vstd::layout::size_of;

pub mod buffer;
pub mod bundle;
pub mod calls;
pub mod frame;
pub mod phys_device;
pub mod pipeline;
pub mod swapchain;
pub mod textures;
pub mod vk;

pub use buffer::ManagedBuffer;
pub use pipeline::VertexInputDescriptors;
pub use textures::ManagedImage;

use crate::engine_core::buffer::{create_buffer, BufferCreateInfo};
use crate::engine_core::phys_device::{
    check_device_extension_support, device_suitability, find_queue_families, is_first_graphics,
    is_first_present, Adapter, QueueFamilyIndices,
};
use crate::engine_core::pipeline::{
    default_pipeline, default_render_pass, is_default_pipeline, is_default_render_pass,
    DescriptorSetLayoutBinding, GraphicsPipelineCreateInfo, RenderPassCreateInfo,
};
use crate::engine_core::swapchain::Extent2D;
use crate::engine_core::textures::{
    plain_image, plain_image_view, ImageCreateInfo, ImageViewCreateInfo,
};
use crate::engine_core::vk::{
    swapchain_extension_name, Handle, BUFFER_USAGE_INDEX_BUFFER, BUFFER_USAGE_TRANSFER_DST,
    BUFFER_USAGE_TRANSFER_SRC, BUFFER_USAGE_UNIFORM_BUFFER, BUFFER_USAGE_VERTEX_BUFFER,
    COMMAND_BUFFER_LEVEL_PRIMARY, COMMAND_BUFFER_USAGE_ONE_TIME_SUBMIT, DEBUG_SEVERITY_ERROR,
    DEBUG_SEVERITY_WARNING, DEBUG_TYPE_GENERAL, DEBUG_TYPE_PERFORMANCE, DEBUG_TYPE_VALIDATION,
    FENCE_CREATE_SIGNALED, IMAGE_ASPECT_COLOR, MEMORY_PROPERTY_DEVICE_LOCAL,
    MEMORY_PROPERTY_HOST_COHERENT, MEMORY_PROPERTY_HOST_VISIBLE, NULL_HANDLE,
};
use crate::shaders::Shader;

verus! {

/// The types that an index buffer may hold.
pub trait ValidIndexBufferType {

}

impl ValidIndexBufferType for u16 {

}

impl ValidIndexBufferType for u32 {

}

/// Position of the graphics queue family in `QueueFamilyIndices::array`.
pub const GRAPHICS_Q_IDX: usize = 0;

/// Position of the present queue family in `QueueFamilyIndices::array`.
pub const PRESENT_Q_IDX: usize = 1;

/// The number of frames that the CPU may prepare while the GPU still draws.
pub const MAX_FRAMES_IN_FLIGHT: usize = 2;

/// The instance layers that diagnostics need.
pub fn validation_layers() -> (r: Vec<String>)
    ensures
        r@.len() == 1,
        r@[0]@ == "VK_LAYER_KHRONOS_validation"@,
{
    let mut r: Vec<String> = Vec::new();
    r.push("VK_LAYER_KHRONOS_validation".to_owned());
    r
}

/// The device extensions that an adapter must offer: presentation to a swapchain.
pub fn device_extensions() -> (r: Vec<String>)
    ensures
        r@.len() == 1,
        r@[0]@ == "VK_KHR_swapchain"@,
{
    let mut r: Vec<String> = Vec::new();
    r.push(swapchain_extension_name());
    r
}

/// Which messages of the validation layers are reported.
#[derive(Clone, Copy, PartialEq, Eq, Structural, Debug)]
pub struct DebugMessengerInfo {
    pub message_severity: u32,
    pub message_type: u32,
}

/// Warnings and errors of every type are reported.
pub fn init_debug_messenger_info() -> (info: DebugMessengerInfo)
    ensures
        info.message_severity == DEBUG_SEVERITY_WARNING | DEBUG_SEVERITY_ERROR,
        info.message_type == DEBUG_TYPE_GENERAL | DEBUG_TYPE_VALIDATION | DEBUG_TYPE_PERFORMANCE,
{
    DebugMessengerInfo {
        message_severity: DEBUG_SEVERITY_WARNING | DEBUG_SEVERITY_ERROR,
        message_type: DEBUG_TYPE_GENERAL | DEBUG_TYPE_VALIDATION | DEBUG_TYPE_PERFORMANCE,
    }
}

/// Whether every validation layer is among the instance layers on offer.
pub fn check_validation_layer_support(available_layers: &Vec<String>) -> (r: bool)
    ensures
        r == exists|j: int|
            0 <= j < available_layers@.len() && (#[trigger] available_layers@[j])@
                == "VK_LAYER_KHRONOS_validation"@,
{
    let required = validation_layers();
    let r = check_device_extension_support(available_layers, &required);
    proof {
        let wanted = phys_device::names(required@);
        if r {
            assert(phys_device::offers_extension(available_layers@, wanted[0]));
        }
    }
    r
}

/// Why no adapter was selected.
#[derive(Clone, Copy, PartialEq, Eq, Structural, Debug)]
pub enum SelectionError {
    /// There is no adapter at all.
    NoDevices,
    /// No adapter has a score above zero.
    NoSuitableDevice,
}

impl SelectionError {
    pub fn message(&self) -> (r: String)
        ensures
            r@ == match *self {
                SelectionError::NoDevices => "No devices with Vulkan support!"@,
                SelectionError::NoSuitableDevice => "No suitable GPU could be found!"@,
            },
    {
        match self {
            SelectionError::NoDevices => "No devices with Vulkan support!".to_owned(),
            SelectionError::NoSuitableDevice => "No suitable GPU could be found!".to_owned(),
        }
    }
}

/// The score of adapter `i` against the required device extensions.
pub open spec fn score(adapters: Seq<Adapter>, i: int) -> int {
    adapters[i].suitability(seq!["VK_KHR_swapchain"@])
}

/// Adapter `i` has the highest score, and every later adapter a lower one.
pub open spec fn is_best_adapter(adapters: Seq<Adapter>, i: int) -> bool {
    &&& 0 <= i < adapters.len()
    &&& forall|j: int|
        0 <= j < adapters.len() ==> #[trigger] score(adapters, j) <= score(adapters, i)
    &&& forall|j: int| i < j < adapters.len() ==> #[trigger] score(adapters, j) < score(adapters, i)
}

/// What `find_physical_device` needs of the adapters: queue family lists that a
/// 32-bit index can address.
pub open spec fn adapters_addressable(adapters: Seq<Adapter>) -> bool {
    forall|i: int|
        0 <= i < adapters.len() ==> (#[trigger] adapters[i]).queue_families@.len() <= u32::MAX
}

/// Picks the adapter with the highest score (the last of them, where several share
/// it) together with its queue families. An adapter with a score of zero is never
/// picked.
pub fn find_physical_device(adapters: &Vec<Adapter>) -> (r: Result<
    (usize, QueueFamilyIndices),
    SelectionError,
>)
    requires
        adapters_addressable(adapters@),
    ensures
        match r {
            Ok((index, families)) => {
                &&& is_best_adapter(adapters@, index as int)
                &&& score(adapters@, index as int) > 0
                &&& is_first_graphics(
                    adapters@[index as int].queue_families@,
                    families.graphics_queue as int,
                )
                &&& is_first_present(
                    adapters@[index as int].queue_families@,
                    families.present_queue as int,
                )
            },
            Err(SelectionError::NoDevices) => adapters@.len() == 0,
            Err(SelectionError::NoSuitableDevice) => {
                &&& adapters@.len() > 0
                &&& forall|j: int| 0 <= j < adapters@.len() ==> #[trigger] score(adapters@, j) == 0
            },
        },
{
    if adapters.len() == 0 {
        return Err(SelectionError::NoDevices);
    }
    let required = device_extensions();
    let mut best: usize = 0;
    let mut best_score: u64 = device_suitability(&adapters[0], &required);
    let mut i: usize = 1;
    while i < adapters.len()
        invariant
            1 <= i <= adapters@.len(),
            adapters_addressable(adapters@),
            phys_device::names(required@) == seq!["VK_KHR_swapchain"@],
            best < i,
            best_score == score(adapters@, best as int),
            forall|j: int| 0 <= j < i ==> #[trigger] score(adapters@, j) <= best_score,
            forall|j: int| best < j < i ==> #[trigger] score(adapters@, j) < best_score,
        decreases adapters@.len() - i,
    {
        let candidate = device_suitability(&adapters[i], &required);
        if candidate >= best_score {
            best = i;
            best_score = candidate;
        }
        i += 1;
    }
    if best_score == 0 {
        return Err(SelectionError::NoSuitableDevice);
    }
    match find_queue_families(&adapters[best].queue_families) {
        Some(families) => Ok((best, families)),
        None => {
            assert(!adapters@[best as int].qualifies(seq!["VK_KHR_swapchain"@]));
            Err(SelectionError::NoSuitableDevice)
        },
    }
}

/// The parameters of the logical device.
#[derive(Clone, PartialEq, Eq, Debug)]
pub struct DeviceCreateInfo {
    /// The families from each of which one queue is created; no family twice.
    pub queue_family_indices: Vec<u32>,
    pub sampler_anisotropy: bool,
    pub enabled_extension_names: Vec<String>,
}

/// The distinct families among the two chosen ones.
pub open spec fn unique_families(indices: QueueFamilyIndices) -> Seq<u32> {
    if indices.graphics_queue == indices.present_queue {
        seq![indices.graphics_queue]
    } else {
        seq![indices.graphics_queue, indices.present_queue]
    }
}

/// Works out the parameters of the logical device: one queue from each distinct
/// family, anisotropic sampling, and the swapchain extension.
pub fn create_logical_device(queue_family_indices: QueueFamilyIndices) -> (info: DeviceCreateInfo)
    ensures
        info.queue_family_indices@ == unique_families(queue_family_indices),
        info.sampler_anisotropy,
        info.enabled_extension_names@.len() == 1,
        info.enabled_extension_names@[0]@ == "VK_KHR_swapchain"@,
{
    let mut families: Vec<u32> = Vec::new();
    families.push(queue_family_indices.graphics_queue);
    if queue_family_indices.present_queue != queue_family_indices.graphics_queue {
        families.push(queue_family_indices.present_queue);
    }
    DeviceCreateInfo {
        queue_family_indices: families,
        sampler_anisotropy: true,
        enabled_extension_names: device_extensions(),
    }
}

/// Where a queue of the logical device is found.
#[derive(Clone, Copy, PartialEq, Eq, Structural, Debug)]
pub struct QueueLocation {
    pub queue_family_index: u32,
    pub queue_index: u32,
}

/// Says where the graphics queue and the present queue are found: each is the
/// first queue of its family.
pub fn get_queue_handles(queue_family_indices: QueueFamilyIndices) -> (r: (
    QueueLocation,
    QueueLocation,
))
    ensures
        r.0 == (QueueLocation {
            queue_family_index: queue_family_indices.graphics_queue,
            queue_index: 0,
        }),
        r.1 == (QueueLocation {
            queue_family_index: queue_family_indices.present_queue,
            queue_index: 0,
        }),
{
    (
        QueueLocation { queue_family_index: queue_family_indices.graphics_queue, queue_index: 0 },
        QueueLocation { queue_family_index: queue_family_indices.present_queue, queue_index: 0 },
    )
}

/// The parameters of the colour views of the swapchain images, one per image and
/// in the images' order.
pub fn create_swapchain_image_views(swapchain_images: &Vec<Handle>, image_format: i32) -> (views:
    Vec<ImageViewCreateInfo>)
    ensures
        views@.len() == swapchain_images@.len(),
        forall|i: int|
            0 <= i < views@.len() ==> #[trigger] views@[i] == plain_image_view(
                swapchain_images@[i],
                image_format,
                IMAGE_ASPECT_COLOR,
            ),
{
    let mut views: Vec<ImageViewCreateInfo> = Vec::new();
    let mut i: usize = 0;
    while i < swapchain_images.len()
        invariant
            i <= swapchain_images@.len(),
            views@.len() == i,
            forall|k: int|
                0 <= k < i ==> #[trigger] views@[k] == plain_image_view(
                    swapchain_images@[k],
                    image_format,
                    IMAGE_ASPECT_COLOR,
                ),
        decreases swapchain_images@.len() - i,
    {
        views.push(
            textures::create_image_view(swapchain_images[i], image_format, IMAGE_ASPECT_COLOR),
        );
        i += 1;
    }
    views
}

/// Works out the parameters of the render pass and of the graphics pipeline that
/// draws in it. Depth is tested and written exactly when a depth format is given.
pub fn create_graphics_pipeline(
    swapchain_extent: Extent2D,
    image_format: i32,
    depth_format: Option<i32>,
    shaders: &Vec<Shader>,
    vertex_input_descriptors: &VertexInputDescriptors,
    descriptor_set_bindings: Option<Vec<DescriptorSetLayoutBinding>>,
    push_constant_size: u32,
) -> (r: (GraphicsPipelineCreateInfo, RenderPassCreateInfo))
    ensures
        is_default_render_pass(r.1, image_format, depth_format),
        is_default_pipeline(
            r.0,
            swapchain_extent,
            shaders@,
            *vertex_input_descriptors,
            descriptor_set_bindings,
            push_constant_size,
            depth_format is Some,
        ),
{
    let render_pass = default_render_pass(image_format, depth_format);
    let pipeline = default_pipeline(
        swapchain_extent,
        shaders,
        vertex_input_descriptors,
        descriptor_set_bindings,
        push_constant_size,
        depth_format.is_some(),
    );
    (pipeline, render_pass)
}

/// The parameters of one framebuffer.
#[derive(Clone, PartialEq, Eq, Debug)]
pub struct FramebufferCreateInfo {
    pub render_pass: Handle,
    pub attachments: Vec<Handle>,
    pub width: u32,
    pub height: u32,
    pub layers: u32,
}

/// The views that a framebuffer binds: the swapchain image's, then the depth
/// image's where there is one.
pub open spec fn framebuffer_attachments(
    image_view: Handle,
    depth_image_view: Option<Handle>,
) -> Seq<Handle> {
    match depth_image_view {
        Some(depth) => seq![image_view, depth],
        None => seq![image_view],
    }
}

/// The framebuffers are made for `image_views`: one for each view and in the same
/// order, every one of the extent's size and with one layer.
pub open spec fn framebuffers_cover(
    infos: Seq<FramebufferCreateInfo>,
    render_pass: Handle,
    swapchain_extent: Extent2D,
    image_views: Seq<Handle>,
    depth_image_view: Option<Handle>,
) -> bool {
    &&& infos.len() == image_views.len()
    &&& forall|i: int|
        0 <= i < infos.len() ==> {
            &&& (#[trigger] infos[i]).render_pass == render_pass
            &&& infos[i].attachments@ == framebuffer_attachments(image_views[i], depth_image_view)
            &&& infos[i].width == swapchain_extent.width
            &&& infos[i].height == swapchain_extent.height
            &&& infos[i].layers == 1
        }
}

/// Works out the parameters of the framebuffers of a swapchain.
pub fn create_framebuffers(
    render_pass: Handle,
    swapchain_extent: Extent2D,
    image_views: &Vec<Handle>,
    depth_image_view: Option<Handle>,
) -> (infos: Vec<FramebufferCreateInfo>)
    ensures
        framebuffers_cover(infos@, render_pass, swapchain_extent, image_views@, depth_image_view),
{
    let mut infos: Vec<FramebufferCreateInfo> = Vec::new();
    let mut i: usize = 0;
    while i < image_views.len()
        invariant
            i <= image_views@.len(),
            framebuffers_cover(
                infos@,
                render_pass,
                swapchain_extent,
                image_views@.take(i as int),
                depth_image_view,
            ),
        decreases image_views@.len() - i,
    {
        let mut attachments: Vec<Handle> = Vec::new();
        attachments.push(image_views[i]);
        if let Some(depth) = depth_image_view {
            attachments.push(depth);
        }
        assert(attachments@ =~= framebuffer_attachments(image_views@[i as int], depth_image_view));
        infos.push(
            FramebufferCreateInfo {
                render_pass,
                attachments,
                width: swapchain_extent.width,
                height: swapchain_extent.height,
                layers: 1,
            },
        );
        i += 1;
    }
    infos
}

/// An object of frame synchronization that is to be created.
#[derive(Clone, Copy, PartialEq, Eq, Structural, Debug)]
pub enum SyncObject {
    Semaphore,
    Fence { flags: u32 },
}

/// The semaphores and fences of the frame slots. Entry `f` of each list belongs to
/// slot `f`.
#[derive(Clone, PartialEq, Eq, Debug)]
pub struct SyncPrims {
    pub image_available: Vec<Handle>,
    pub render_finished: Vec<Handle>,
    pub in_flight: Vec<Handle>,
}

impl SyncPrims {
    /// There is one semaphore pair and one fence for every frame slot.
    pub open spec fn wf(&self) -> bool {
        &&& self.image_available@.len() == MAX_FRAMES_IN_FLIGHT
        &&& self.render_finished@.len() == MAX_FRAMES_IN_FLIGHT
        &&& self.in_flight@.len() == MAX_FRAMES_IN_FLIGHT
    }

    /// The calls that destroy the objects, slot by slot.
    pub open spec fn release_calls(&self) -> Seq<calls::ReleaseCall>
        recommends
            self.wf(),
    {
        Seq::new(
            (3 * MAX_FRAMES_IN_FLIGHT) as nat,
            |i: int|
                if i % 3 == 0 {
                    calls::ReleaseCall::DestroySemaphore(self.image_available@[i / 3])
                } else if i % 3 == 1 {
                    calls::ReleaseCall::DestroySemaphore(self.render_finished@[i / 3])
                } else {
                    calls::ReleaseCall::DestroyFence(self.in_flight@[i / 3])
                },
        )
    }

    /// Says how to destroy the objects.
    pub fn destroy(&self) -> (r: Vec<calls::ReleaseCall>)
        requires
            self.wf(),
        ensures
            r@ == self.release_calls(),
            calls::all_need_device(r@),
    {
        let mut r: Vec<calls::ReleaseCall> = Vec::new();
        let mut f: usize = 0;
        while f < MAX_FRAMES_IN_FLIGHT
            invariant
                self.wf(),
                f <= MAX_FRAMES_IN_FLIGHT,
                r@.len() == 3 * f,
                forall|i: int| 0 <= i < r@.len() ==> #[trigger] r@[i] == self.release_calls()[i],
            decreases MAX_FRAMES_IN_FLIGHT - f,
        {
            r.push(calls::ReleaseCall::DestroySemaphore(self.image_available[f]));
            r.push(calls::ReleaseCall::DestroySemaphore(self.render_finished[f]));
            r.push(calls::ReleaseCall::DestroyFence(self.in_flight[f]));
            f += 1;
        }
        r
    }
}

/// The objects to create for frame synchronization, in order: for every frame slot
/// a semaphore for "image available", a semaphore for "render finished", and a
/// fence that starts out signaled, so that the first wait on it returns.
pub open spec fn sync_objects() -> Seq<SyncObject> {
    Seq::new(
        (3 * MAX_FRAMES_IN_FLIGHT) as nat,
        |i: int|
            if i % 3 == 2 {
                SyncObject::Fence { flags: FENCE_CREATE_SIGNALED }
            } else {
                SyncObject::Semaphore
            },
    )
}

/// Says which synchronization objects to create.
pub fn sync_primitives_to_create() -> (r: Vec<SyncObject>)
    ensures
        r@ == sync_objects(),
{
    let mut r: Vec<SyncObject> = Vec::new();
    let mut f: usize = 0;
    while f < MAX_FRAMES_IN_FLIGHT
        invariant
            f <= MAX_FRAMES_IN_FLIGHT,
            r@.len() == 3 * f,
            forall|i: int| 0 <= i < r@.len() ==> #[trigger] r@[i] == sync_objects()[i],
        decreases MAX_FRAMES_IN_FLIGHT - f,
    {
        r.push(SyncObject::Semaphore);
        r.push(SyncObject::Semaphore);
        r.push(SyncObject::Fence { flags: FENCE_CREATE_SIGNALED });
        f += 1;
    }
    r
}

/// Slot `f` has the three handles from position `3 * f` on: the semaphore for
/// "image available", the semaphore for "render finished", the fence.
pub open spec fn sorted_into_slots(sync: SyncPrims, handles: Seq<Handle>) -> bool {
    forall|f: int|
        0 <= f < MAX_FRAMES_IN_FLIGHT ==> {
            &&& #[trigger] sync.image_available@[f] == handles[3 * f]
            &&& sync.render_finished@[f] == handles[3 * f + 1]
            &&& sync.in_flight@[f] == handles[3 * f + 2]
        }
}

/// Sorts the handles of the objects created for `sync_primitives_to_create`, given
/// in that order, into the lists of the frame slots. Any other number of handles
/// is refused.
pub fn create_sync_primitives(handles: &Vec<Handle>) -> (r: Option<SyncPrims>)
    ensures
        match r {
            Some(sync) => {
                &&& handles@.len() == 3 * MAX_FRAMES_IN_FLIGHT
                &&& sync.wf()
                &&& sorted_into_slots(sync, handles@)
            },
            None => handles@.len() != 3 * MAX_FRAMES_IN_FLIGHT,
        },
{
    if handles.len() != 3 * MAX_FRAMES_IN_FLIGHT {
        return None;
    }
    let mut image_available: Vec<Handle> = Vec::new();
    let mut render_finished: Vec<Handle> = Vec::new();
    let mut in_flight: Vec<Handle> = Vec::new();
    let mut f: usize = 0;
    while f < MAX_FRAMES_IN_FLIGHT
        invariant
            handles@.len() == 3 * MAX_FRAMES_IN_FLIGHT,
            f <= MAX_FRAMES_IN_FLIGHT,
            image_available@.len() == f,
            render_finished@.len() == f,
            in_flight@.len() == f,
            forall|k: int|
                0 <= k < f ==> {
                    &&& #[trigger] image_available@[k] == handles@[3 * k]
                    &&& render_finished@[k] == handles@[3 * k + 1]
                    &&& in_flight@[k] == handles@[3 * k + 2]
                },
        decreases MAX_FRAMES_IN_FLIGHT - f,
    {
        image_available.push(handles[3 * f]);
        render_finished.push(handles[3 * f + 1]);
        in_flight.push(handles[3 * f + 2]);
        f += 1;
    }
    let sync = SyncPrims { image_available, render_finished, in_flight };
    Some(sync)
}

/// The parameters of an allocation of command buffers.
#[derive(Clone, Copy, PartialEq, Eq, Structural, Debug)]
pub struct CommandBufferAllocateInfo {
    pub command_pool: Handle,
    pub level: i32,
    pub command_buffer_count: u32,
}

/// `amount` primary command buffers from a pool.
pub open spec fn command_buffer_allocation(
    command_pool: Handle,
    amount: u32,
) -> CommandBufferAllocateInfo {
    CommandBufferAllocateInfo {
        command_pool,
        level: COMMAND_BUFFER_LEVEL_PRIMARY,
        command_buffer_count: amount,
    }
}

/// The allocation of `amount` primary command buffers from a pool.
pub fn allocate_command_buffers(command_pool: Handle, amount: u32) -> (info:
    CommandBufferAllocateInfo)
    ensures
        info == command_buffer_allocation(command_pool, amount),
{
    CommandBufferAllocateInfo {
        command_pool,
        level: COMMAND_BUFFER_LEVEL_PRIMARY,
        command_buffer_count: amount,
    }
}

/// How commands are run at once: recorded into one fresh primary command buffer
/// that is submitted a single time, without a fence, after which the queue is
/// waited for and the command buffer freed.
#[derive(Clone, Copy, PartialEq, Eq, Structural, Debug)]
pub struct ImmediateSubmit {
    pub allocate: CommandBufferAllocateInfo,
    pub begin_flags: u32,
    pub fence: Handle,
}

/// The parameters of commands that are submitted at once and waited for.
pub fn immediate_commands(command_pool: Handle) -> (r: ImmediateSubmit)
    ensures
        r == (ImmediateSubmit {
            allocate: command_buffer_allocation(command_pool, 1),
            begin_flags: COMMAND_BUFFER_USAGE_ONE_TIME_SUBMIT,
            fence: NULL_HANDLE,
        }),
{
    ImmediateSubmit {
        allocate: allocate_command_buffers(command_pool, 1),
        begin_flags: COMMAND_BUFFER_USAGE_ONE_TIME_SUBMIT,
        fence: NULL_HANDLE,
    }
}

/// How a buffer is created: its parameters, the properties of the memory that
/// backs it, and whether the memory is mapped for the buffer's whole life.
#[derive(Clone, Copy, PartialEq, Eq, Structural, Debug)]
pub struct BufferPlan {
    pub info: BufferCreateInfo,
    pub memory_properties: u32,
    pub persistently_mapped: bool,
}

/// A buffer that the host fills and a transfer reads: host-visible and coherent.
pub fn create_staging_buffer(memory_size: u64) -> (plan: BufferPlan)
    ensures
        plan.info == buffer::buffer_info(memory_size, BUFFER_USAGE_TRANSFER_SRC),
        plan.memory_properties == MEMORY_PROPERTY_HOST_VISIBLE | MEMORY_PROPERTY_HOST_COHERENT,
        !plan.persistently_mapped,
{
    BufferPlan {
        info: create_buffer(memory_size, BUFFER_USAGE_TRANSFER_SRC),
        memory_properties: MEMORY_PROPERTY_HOST_VISIBLE | MEMORY_PROPERTY_HOST_COHERENT,
        persistently_mapped: false,
    }
}

/// A vertex buffer in device-local memory, filled by a transfer.
pub fn create_vertex_buffer(memory_size: u64) -> (plan: BufferPlan)
    ensures
        plan.info == buffer::buffer_info(
            memory_size,
            BUFFER_USAGE_VERTEX_BUFFER | BUFFER_USAGE_TRANSFER_DST,
        ),
        plan.memory_properties == MEMORY_PROPERTY_DEVICE_LOCAL,
        !plan.persistently_mapped,
{
    BufferPlan {
        info: create_buffer(memory_size, BUFFER_USAGE_VERTEX_BUFFER | BUFFER_USAGE_TRANSFER_DST),
        memory_properties: MEMORY_PROPERTY_DEVICE_LOCAL,
        persistently_mapped: false,
    }
}

/// An index buffer for `count` indices of type `IndexType` in device-local memory,
/// filled by a transfer.
pub fn create_index_buffer<IndexType: ValidIndexBufferType>(count: usize) -> (plan: BufferPlan)
    requires
        size_of::<IndexType>() * count <= u64::MAX,
    ensures
        plan.info == buffer::buffer_info(
            (size_of::<IndexType>() * count) as u64,
            BUFFER_USAGE_INDEX_BUFFER | BUFFER_USAGE_TRANSFER_DST,
        ),
        plan.memory_properties == MEMORY_PROPERTY_DEVICE_LOCAL,
        !plan.persistently_mapped,
{
    let width = core::mem::size_of::<IndexType>() as u64;
    let memory_size = width * (count as u64);
    BufferPlan {
        info: create_buffer(memory_size, BUFFER_USAGE_INDEX_BUFFER | BUFFER_USAGE_TRANSFER_DST),
        memory_properties: MEMORY_PROPERTY_DEVICE_LOCAL,
        persistently_mapped: false,
    }
}

/// The uniform buffer of one frame slot: host-visible and coherent, mapped when it
/// is created and never unmapped, because it is rewritten every frame.
pub open spec fn uniform_buffer_plan(memory_size: u64) -> BufferPlan {
    BufferPlan {
        info: buffer::buffer_info(memory_size, BUFFER_USAGE_UNIFORM_BUFFER),
        memory_properties: MEMORY_PROPERTY_HOST_VISIBLE | MEMORY_PROPERTY_HOST_COHERENT,
        persistently_mapped: true,
    }
}

/// `count` uniform buffers of `memory_size` bytes each.
pub fn create_uniform_buffers(memory_size: u64, count: usize) -> (plans: Vec<BufferPlan>)
    ensures
        plans@.len() == count,
        forall|i: int| 0 <= i < count ==> #[trigger] plans@[i] == uniform_buffer_plan(memory_size),
{
    let mut plans: Vec<BufferPlan> = Vec::new();
    let mut i: usize = 0;
    while i < count
        invariant
            i <= count,
            plans@.len() == i,
            forall|k: int| 0 <= k < i ==> #[trigger] plans@[k] == uniform_buffer_plan(memory_size),
        decreases count - i,
    {
        plans.push(
            BufferPlan {
                info: create_buffer(memory_size, BUFFER_USAGE_UNIFORM_BUFFER),
                memory_properties: MEMORY_PROPERTY_HOST_VISIBLE | MEMORY_PROPERTY_HOST_COHERENT,
                persistently_mapped: true,
            },
        );
        i += 1;
    }
    plans
}

/// How an image is created: its parameters, the properties of the memory that
/// backs it, and the aspect that its view shows.
#[derive(Clone, Copy, PartialEq, Eq, Structural, Debug)]
pub struct ImagePlan {
    pub info: ImageCreateInfo,
    pub memory_properties: u32,
    pub view_aspect: u32,
}

/// An image in device-local memory with a view of the given aspect.
pub fn create_image(
    format: i32,
    tiling: i32,
    usage: u32,
    aspect_flags: u32,
    dimensions: (u32, u32),
) -> (plan: ImagePlan)
    ensures
        plan.info == plain_image(format, tiling, usage, dimensions),
        plan.memory_properties == MEMORY_PROPERTY_DEVICE_LOCAL,
        plan.view_aspect == aspect_flags,
{
    ImagePlan {
        info: textures::create_image(format, tiling, usage, dimensions),
        memory_properties: MEMORY_PROPERTY_DEVICE_LOCAL,
        view_aspect: aspect_flags,
    }
}

/// A copy between two buffers.
#[derive(Clone, Copy, PartialEq, Eq, Structural, Debug)]
pub struct BufferCopy {
    pub src_buffer: Handle,
    pub dst_buffer: Handle,
    pub src_offset: u64,
    pub dst_offset: u64,
    pub size: u64,
}

impl BufferCopy {
    /// The bytes of the destination after the copy, where the two buffers held
    /// `src` and `dst` before it: the copied range comes from the source, the
    /// rest stays.
    pub open spec fn applied(&self, src: Seq<u8>, dst: Seq<u8>) -> Seq<u8>
        recommends
            self.src_offset + self.size <= src.len(),
            self.dst_offset + self.size <= dst.len(),
    {
        Seq::new(
            dst.len(),
            |i: int|
                if self.dst_offset <= i < self.dst_offset + self.size {
                    src[i - self.dst_offset + self.src_offset]
                } else {
                    dst[i]
                },
        )
    }
}

/// The copy of the first `memory_size` bytes of one buffer to the start of another.
pub open spec fn whole_copy(
    src_buffer: Handle,
    dst_buffer: Handle,
    memory_size: u64,
) -> BufferCopy {
    BufferCopy { src_buffer, dst_buffer, src_offset: 0, dst_offset: 0, size: memory_size }
}

/// An upload carries the whole payload: where the staging buffer holds the
/// payload and the destination is as large, the destination holds the payload,
/// byte for byte, once the copy of an upload has been applied.
pub proof fn lemma_upload_carries_payload(
    payload: Seq<u8>,
    destination: Seq<u8>,
    src_buffer: Handle,
    dst_buffer: Handle,
)
    requires
        payload.len() <= u64::MAX,
        destination.len() == payload.len(),
    ensures
        whole_copy(src_buffer, dst_buffer, payload.len() as u64).applied(payload, destination)
            == payload,
{
    let region = whole_copy(src_buffer, dst_buffer, payload.len() as u64);
}

/// The copy of the first `memory_size` bytes of one buffer to the start of another.
pub fn copy_buffer(src_buffer: Handle, dst_buffer: Handle, memory_size: u64) -> (region:
    BufferCopy)
    ensures
        region == whole_copy(src_buffer, dst_buffer, memory_size),
{
    BufferCopy { src_buffer, dst_buffer, src_offset: 0, dst_offset: 0, size: memory_size }
}

/// The number of bytes that `count` elements of `element_size` bytes take, where a
/// buffer size can express it.
pub fn payload_size(element_size: usize, count: usize) -> (r: Option<u64>)
    ensures
        r is Some <==> element_size * count <= u64::MAX,
        r matches Some(size) ==> size == element_size * count,
{
    (element_size as u64).checked_mul(count as u64)
}

} // verus!
