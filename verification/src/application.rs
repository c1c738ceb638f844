//! The application core: every long-lived object, the swapchain bundle, the command
//! buffers and the pacing of the frame slots, behind one set of calls.
//!
//! The core makes no call to the driver. Each call says what the program has to do
//! next and takes what the driver answered.

use vstd::prelude::*;
use crate::engine_core::buffer::ManagedBuffer;
use crate::engine_core::bundle::{BundleParts, SwapchainBundle};
use crate::engine_core::calls::{all_need_device, ReleaseCall};
use crate::engine_core::frame::{
    acquisition_decision, presentation_decision, FrameCall, FrameDecision, FrameError,
    FrameOrchestrator, FrameState, SlotPhase, SwapchainStatus,
};
use crate::engine_core::phys_device::QueueFamilyIndices;
use crate::engine_core::pipeline::{
    is_default_pipeline, is_default_render_pass, DescriptorSetLayoutBinding,
    GraphicsPipelineCreateInfo, RenderPassCreateInfo, VertexInputDescriptors,
};
use crate::engine_core::swapchain::{
    create_swapchain, is_swapchain_for, swapchain_inputs_valid, Extent2D, SurfaceCapabilities,
    SurfaceFormat, SwapchainCreateInfo,
};
use crate::engine_core::textures::{plain_image, ManagedImage};
use crate::engine_core::vk::{
    Handle, COMMAND_POOL_CREATE_RESET_COMMAND_BUFFER, DESCRIPTOR_TYPE_COMBINED_IMAGE_SAMPLER,
    DESCRIPTOR_TYPE_UNIFORM_BUFFER, FORMAT_D32_SFLOAT, FORMAT_R8G8B8A8_SRGB, IMAGE_ASPECT_COLOR,
    IMAGE_ASPECT_DEPTH, IMAGE_LAYOUT_SHADER_READ_ONLY_OPTIMAL, IMAGE_TILING_OPTIMAL,
    IMAGE_USAGE_DEPTH_STENCIL_ATTACHMENT, IMAGE_USAGE_SAMPLED, IMAGE_USAGE_TRANSFER_DST,
    MEMORY_PROPERTY_DEVICE_LOCAL, NULL_HANDLE, PIPELINE_STAGE_COLOR_ATTACHMENT_OUTPUT,
};
use crate::engine_core::{
    allocate_command_buffers, command_buffer_allocation, create_graphics_pipeline, create_image,
    CommandBufferAllocateInfo, ImagePlan, SyncPrims, MAX_FRAMES_IN_FLIGHT,
};
use crate::shaders::Shader;

verus! {

/// The objects that live as long as the application does.
#[derive(Clone, PartialEq, Eq, Debug)]
pub struct Resources {
    pub instance: Handle,
    /// The debug messenger, where validation is on.
    pub messenger: Option<Handle>,
    pub surface: Handle,
    pub logical_device: Handle,
    pub graphics_queue: Handle,
    pub present_queue: Handle,
    pub command_pool: Handle,
    pub sync: SyncPrims,
    pub descriptor_pool: Option<Handle>,
    /// One descriptor set per frame slot, or none.
    pub descriptor_sets: Vec<Handle>,
    pub vertex_buffer: ManagedBuffer,
    pub index_buffer: ManagedBuffer,
    /// One uniform buffer per frame slot, or none.
    pub uniform_buffers: Vec<ManagedBuffer>,
    pub texture: Option<ManagedImage>,
    pub texture_sampler: Option<Handle>,
}

/// The calls that release the buffers, one buffer after the other.
pub open spec fn buffer_releases(buffers: Seq<ManagedBuffer>) -> Seq<ReleaseCall>
    decreases buffers.len(),
{
    if buffers.len() == 0 {
        Seq::empty()
    } else {
        buffer_releases(buffers.drop_last()) + buffers.last().release_calls()
    }
}

impl Resources {
    /// What is per frame slot has one entry per slot (or is absent), and every
    /// managed resource is in a valid state.
    pub open spec fn wf(&self) -> bool {
        &&& self.sync.wf()
        &&& self.descriptor_sets@.len() == 0 || self.descriptor_sets@.len()
            == MAX_FRAMES_IN_FLIGHT
        &&& self.uniform_buffers@.len() == 0 || self.uniform_buffers@.len()
            == MAX_FRAMES_IN_FLIGHT
        &&& self.vertex_buffer.wf()
        &&& self.index_buffer.wf()
        &&& forall|i: int|
            0 <= i < self.uniform_buffers@.len() ==> (#[trigger] self.uniform_buffers@[i]).wf()
        &&& self.texture matches Some(texture) ==> texture.wf()
    }

    /// Whether the resources are well-formed.
    pub fn check(&self) -> (r: bool)
        ensures
            r == self.wf(),
    {
        if self.sync.image_available.len() != MAX_FRAMES_IN_FLIGHT
            || self.sync.render_finished.len() != MAX_FRAMES_IN_FLIGHT
            || self.sync.in_flight.len() != MAX_FRAMES_IN_FLIGHT {
            return false;
        }
        if self.descriptor_sets.len() != 0 && self.descriptor_sets.len()
            != MAX_FRAMES_IN_FLIGHT {
            return false;
        }
        if self.uniform_buffers.len() != 0 && self.uniform_buffers.len()
            != MAX_FRAMES_IN_FLIGHT {
            return false;
        }
        if !self.vertex_buffer.check() || !self.index_buffer.check() {
            return false;
        }
        if let Some(texture) = self.texture {
            if !texture.check() {
                return false;
            }
        }
        let mut i: usize = 0;
        while i < self.uniform_buffers.len()
            invariant
                i <= self.uniform_buffers@.len(),
                forall|k: int| 0 <= k < i ==> (#[trigger] self.uniform_buffers@[k]).wf(),
            decreases self.uniform_buffers@.len() - i,
        {
            if !self.uniform_buffers[i].check() {
                return false;
            }
            i += 1;
        }
        true
    }

    /// The calls that release the resources, children before parents: the
    /// synchronization objects, the descriptor pool, the sampler, the vertex,
    /// index and uniform buffers, the texture, and the command pool.
    pub open spec fn release_calls(&self) -> Seq<ReleaseCall> {
        self.sync.release_calls() + (match self.descriptor_pool {
            Some(pool) => seq![ReleaseCall::DestroyDescriptorPool(pool)],
            None => Seq::empty(),
        }) + (match self.texture_sampler {
            Some(sampler) => seq![ReleaseCall::DestroySampler(sampler)],
            None => Seq::empty(),
        }) + self.vertex_buffer.release_calls() + self.index_buffer.release_calls()
            + buffer_releases(self.uniform_buffers@) + (match self.texture {
            Some(texture) => texture.release_calls(),
            None => Seq::empty(),
        }) + seq![ReleaseCall::DestroyCommandPool(self.command_pool)]
    }
}

fn release_buffers(buffers: &Vec<ManagedBuffer>) -> (calls: Vec<ReleaseCall>)
    requires
        forall|i: int| 0 <= i < buffers@.len() ==> (#[trigger] buffers@[i]).wf(),
    ensures
        calls@ == buffer_releases(buffers@),
        all_need_device(calls@),
{
    let mut calls: Vec<ReleaseCall> = Vec::new();
    let mut i: usize = 0;
    while i < buffers.len()
        invariant
            forall|k: int| 0 <= k < buffers@.len() ==> (#[trigger] buffers@[k]).wf(),
            i <= buffers@.len(),
            calls@ == buffer_releases(buffers@.take(i as int)),
            all_need_device(calls@),
        decreases buffers@.len() - i,
    {
        let mut more = buffers[i].release();
        calls.append(&mut more);
        proof {
            let taken = buffers@.take(i + 1);
            assert(taken.drop_last() =~= buffers@.take(i as int));
        }
        i += 1;
    }
    assert(buffers@.take(buffers@.len() as int) =~= buffers@);
    calls
}

impl Resources {
    /// Says how to release the resources.
    pub fn release(&self) -> (calls: Vec<ReleaseCall>)
        requires
            self.wf(),
        ensures
            calls@ == self.release_calls(),
            all_need_device(calls@),
    {
        let mut calls = self.sync.destroy();
        if let Some(pool) = self.descriptor_pool {
            calls.push(ReleaseCall::DestroyDescriptorPool(pool));
        }
        if let Some(sampler) = self.texture_sampler {
            calls.push(ReleaseCall::DestroySampler(sampler));
        }
        let mut vertex_calls = self.vertex_buffer.release();
        calls.append(&mut vertex_calls);
        let mut index_calls = self.index_buffer.release();
        calls.append(&mut index_calls);
        let mut uniform_calls = release_buffers(&self.uniform_buffers);
        calls.append(&mut uniform_calls);
        if let Some(texture) = self.texture {
            let mut texture_calls = texture.release();
            calls.append(&mut texture_calls);
        }
        calls.push(ReleaseCall::DestroyCommandPool(self.command_pool));
        calls
    }
}

/// A teardown that is made of calls that need the device, the destruction of the
/// device, and calls that do not need it, destroys the device exactly once and
/// at the right moment.
pub proof fn lemma_device_destroyed_between(head: Seq<ReleaseCall>, tail: Seq<ReleaseCall>)
    requires
        all_need_device(head),
        forall|i: int|
            0 <= i < tail.len() ==> !(#[trigger] tail[i]).needs_device() && tail[i]
                != ReleaseCall::DestroyDevice,
    ensures
        device_destroyed_at(head + seq![ReleaseCall::DestroyDevice] + tail, head.len() as int),
{
    let calls = head + seq![ReleaseCall::DestroyDevice] + tail;
    let at = head.len() as int;
    assert forall|i: int| 0 <= i < at implies (#[trigger] calls[i]).needs_device() by {
    }
    assert forall|i: int| at < i < calls.len() implies !(#[trigger] calls[i]).needs_device()
        && calls[i] != ReleaseCall::DestroyDevice by {
    }
}

/// What to ask of the driver to acquire the next image.
#[derive(Clone, Copy, PartialEq, Eq, Structural, Debug)]
pub struct AcquireInfo {
    pub swapchain: Handle,
    pub timeout: u64,
    /// Signaled once the image can be drawn to.
    pub semaphore: Handle,
    pub fence: Handle,
}

/// What to submit to the graphics queue to draw a frame.
#[derive(Clone, Copy, PartialEq, Eq, Structural, Debug)]
pub struct SubmitInfo {
    pub queue: Handle,
    pub wait_semaphore: Handle,
    pub wait_stage: u32,
    pub command_buffer: Handle,
    pub signal_semaphore: Handle,
    /// Signaled once the GPU is done with the command buffer.
    pub fence: Handle,
}

/// What to hand to the present queue to show a frame.
#[derive(Clone, Copy, PartialEq, Eq, Structural, Debug)]
pub struct PresentInfo {
    pub queue: Handle,
    pub swapchain: Handle,
    pub image_index: u32,
    pub wait_semaphore: Handle,
}

/// Why a rebuilt swapchain was not taken over. Nothing has changed then.
#[derive(Clone, Copy, PartialEq, Eq, Structural, Debug)]
pub enum RecreateError {
    /// The previous swapchain has not been destroyed.
    NotCleaned,
    /// The parts of the bundle do not fit together.
    Inconsistent,
    /// There is not exactly one command buffer per swapchain image.
    CommandBufferCount,
}

/// The application core as contracts see it.
pub struct BaseAppView {
    pub resources: Resources,
    pub bundle: Option<SwapchainBundle>,
    pub command_buffers: Seq<Handle>,
    pub frames: FrameState,
}

impl BaseAppView {
    /// The bundle is there exactly while the swapchain is not destroyed; it is
    /// well-formed; and there is one command buffer per swapchain image.
    pub open spec fn wf(&self) -> bool {
        &&& self.resources.wf()
        &&& self.frames.wf()
        &&& self.bundle is Some <==> !(self.frames.status is Destroyed)
        &&& self.bundle matches Some(bundle) ==> {
            &&& bundle.wf()
            &&& self.command_buffers.len() == bundle.image_views@.len()
            &&& self.frames.image_count == bundle.image_views@.len()
        }
    }

    /// The state after `call` on the frame slots, all else unchanged.
    pub open spec fn after(&self, call: FrameCall) -> BaseAppView {
        BaseAppView { frames: self.frames.next(call), ..*self }
    }

    /// Some slot holds `image` with its fence reset and nothing submitted yet.
    pub open spec fn is_recording(&self, image: int) -> bool {
        exists|f: int|
            0 <= f < self.frames.phases.len() && #[trigger] self.frames.phases[f] is Recording
                && self.frames.phases[f]->Recording_image == image
    }

    /// The submission of the frame that `slot` is recording.
    pub open spec fn submission(&self, slot: int) -> SubmitInfo {
        SubmitInfo {
            queue: self.resources.graphics_queue,
            wait_semaphore: self.resources.sync.image_available@[slot],
            wait_stage: PIPELINE_STAGE_COLOR_ATTACHMENT_OUTPUT,
            command_buffer: self.command_buffers[self.frames.phases[slot]->Recording_image as int],
            signal_semaphore: self.resources.sync.render_finished@[slot],
            fence: self.resources.sync.in_flight@[slot],
        }
    }

    /// The presentation of the frame that `slot` has submitted.
    pub open spec fn presentation(&self, slot: int) -> PresentInfo {
        PresentInfo {
            queue: self.resources.present_queue,
            swapchain: self.bundle->0.swapchain,
            image_index: self.frames.phases[slot]->Submitted_image,
            wait_semaphore: self.resources.sync.render_finished@[slot],
        }
    }

    /// The calls of a teardown: wait for the device, release the resources and
    /// the bundle, destroy the device, and only then the messenger, the surface
    /// and the instance.
    pub open spec fn teardown_calls(&self) -> Seq<ReleaseCall> {
        self.device_level_calls() + seq![ReleaseCall::DestroyDevice] + self.instance_level_calls()
    }

    /// The calls of a teardown that need the logical device.
    pub open spec fn device_level_calls(&self) -> Seq<ReleaseCall> {
        seq![ReleaseCall::DeviceWaitIdle] + self.resources.release_calls() + (match self.bundle {
            Some(bundle) => bundle.release_calls(),
            None => Seq::empty(),
        })
    }

    /// The calls of a teardown that follow the destruction of the device.
    pub open spec fn instance_level_calls(&self) -> Seq<ReleaseCall> {
        (match self.resources.messenger {
            Some(messenger) => seq![ReleaseCall::DestroyDebugMessenger(messenger)],
            None => Seq::empty(),
        }) + seq![
            ReleaseCall::DestroySurface(self.resources.surface),
            ReleaseCall::DestroyInstance,
        ]
    }
}

/// The device is destroyed exactly once, at position `at`: every call before it
/// needs the device, and no call after it does.
pub open spec fn device_destroyed_at(calls: Seq<ReleaseCall>, at: int) -> bool {
    &&& 0 <= at < calls.len()
    &&& calls[at] == ReleaseCall::DestroyDevice
    &&& forall|i: int| 0 <= i < at ==> (#[trigger] calls[i]).needs_device()
    &&& forall|i: int|
        at < i < calls.len() ==> !(#[trigger] calls[i]).needs_device() && calls[i]
            != ReleaseCall::DestroyDevice
}

/// The core of the application.
#[derive(Debug)]
pub struct BaseApp {
    resources: Resources,
    bundle: Option<SwapchainBundle>,
    command_buffers: Vec<Handle>,
    frames: FrameOrchestrator,
}

impl View for BaseApp {
    type V = BaseAppView;

    closed spec fn view(&self) -> BaseAppView {
        BaseAppView {
            resources: self.resources,
            bundle: self.bundle,
            command_buffers: self.command_buffers@,
            frames: self.frames@,
        }
    }
}

/// What `BaseApp::new` accepts: well-formed resources, bundle parts that fit
/// together, and one command buffer per swapchain image.
pub open spec fn setup_consistent(
    resources: Resources,
    parts: BundleParts,
    command_buffers: Seq<Handle>,
) -> bool {
    &&& resources.wf()
    &&& parts.consistent()
    &&& command_buffers.len() == parts.image_views@.len()
}

impl BaseApp {
    /// Takes over everything that has been created. The frame slots start idle,
    /// with their fences signaled. A setup that does not fit together is refused.
    pub fn new(
        resources: Resources,
        parts: BundleParts,
        command_buffers: Vec<Handle>,
        recreate_on_suboptimal: bool,
    ) -> (r: Option<BaseApp>)
        ensures
            r is Some <==> setup_consistent(resources, parts, command_buffers@),
            r matches Some(app) ==> {
                &&& app@.wf()
                &&& app@.resources == resources
                &&& app@.bundle is Some
                &&& app@.bundle->0.made_of(parts)
                &&& app@.command_buffers == command_buffers@
                &&& app@.frames == (FrameState {
                    phases: Seq::new(MAX_FRAMES_IN_FLIGHT as nat, |f: int| SlotPhase::Idle),
                    image_count: parts.image_views@.len(),
                    status: SwapchainStatus::Current,
                    strict: recreate_on_suboptimal,
                })
            },
    {
        if !resources.check() {
            return None;
        }
        if command_buffers.len() != parts.image_views.len() {
            return None;
        }
        match SwapchainBundle::new(parts) {
            Some(bundle) => {
                let frames = FrameOrchestrator::new(
                    bundle.image_views.len() as u32,
                    recreate_on_suboptimal,
                );
                Some(BaseApp { resources, bundle: Some(bundle), command_buffers, frames })
            },
            None => None,
        }
    }

    pub fn resources(&self) -> (r: &Resources)
        ensures
            *r == self@.resources,
    {
        &self.resources
    }

    pub fn bundle(&self) -> (r: Option<&SwapchainBundle>)
        ensures
            match r {
                Some(bundle) => self@.bundle == Some(*bundle),
                None => self@.bundle is None,
            },
    {
        self.bundle.as_ref()
    }

    pub fn command_buffers(&self) -> (r: &Vec<Handle>)
        ensures
            r@ == self@.command_buffers,
    {
        &self.command_buffers
    }

    pub fn frames(&self) -> (r: &FrameOrchestrator)
        ensures
            r@ == self@.frames,
    {
        &self.frames
    }

    /// Begins a frame on a slot: says which fence to wait for, without a timeout.
    /// After the wait the slot's earlier submission is known to be done.
    pub fn wait_for_in_flight_fence(&mut self, fence_index: usize) -> (r: Result<
        Handle,
        FrameError,
    >)
        requires
            old(self)@.wf(),
        ensures
            final(self)@.wf(),
            final(self)@ == old(self)@.after(FrameCall::Wait { slot: fence_index as int }),
            match old(self)@.frames.refusal(FrameCall::Wait { slot: fence_index as int }) {
                Some(e) => r == Err::<Handle, FrameError>(e),
                None => r == Ok::<Handle, FrameError>(
                    old(self)@.resources.sync.in_flight@[fence_index as int],
                ),
            },
    {
        proof {
            crate::engine_core::frame::lemma_next_preserves_wf(
                self@.frames,
                FrameCall::Wait { slot: fence_index as int },
            );
        }
        match self.frames.wait_for_fence(fence_index) {
            Ok(()) => Ok(self.resources.sync.in_flight[fence_index]),
            Err(e) => Err(e),
        }
    }

    /// Says how to acquire the next image for a slot whose fence has been waited
    /// for. The driver's answer goes to `image_acquired`.
    pub fn acquire_next_image(&mut self, framebuffer_index: usize) -> (r: Result<
        AcquireInfo,
        FrameError,
    >)
        requires
            old(self)@.wf(),
        ensures
            final(self)@.wf(),
            final(self)@ == old(self)@.after(FrameCall::Acquire { slot: framebuffer_index as int }),
            match old(self)@.frames.refusal(FrameCall::Acquire { slot: framebuffer_index as int }) {
                Some(e) => r == Err::<AcquireInfo, FrameError>(e),
                None => r == Ok::<AcquireInfo, FrameError>(
                    AcquireInfo {
                        swapchain: old(self)@.bundle->0.swapchain,
                        timeout: u64::MAX,
                        semaphore: old(self)@.resources.sync.image_available@[framebuffer_index
                            as int],
                        fence: NULL_HANDLE,
                    },
                ),
            },
    {
        proof {
            crate::engine_core::frame::lemma_next_preserves_wf(
                self@.frames,
                FrameCall::Acquire { slot: framebuffer_index as int },
            );
        }
        match self.frames.acquire(framebuffer_index) {
            Ok(()) => match &self.bundle {
                Some(bundle) => Ok(
                    AcquireInfo {
                        swapchain: bundle.swapchain,
                        timeout: u64::MAX,
                        semaphore: self.resources.sync.image_available[framebuffer_index],
                        fence: NULL_HANDLE,
                    },
                ),
                None => Err(FrameError::NoSwapchain),
            },
            Err(e) => Err(e),
        }
    }

    /// Takes the driver's answer to the acquisition and decides how the frame goes
    /// on. A frame that is given up leaves the slot idle and its fence signaled.
    pub fn image_acquired(
        &mut self,
        framebuffer_index: usize,
        result: Result<(u32, bool), i32>,
    ) -> (r: Result<FrameDecision, FrameError>)
        requires
            old(self)@.wf(),
        ensures
            final(self)@.wf(),
            final(self)@ == old(self)@.after(
                FrameCall::Acquired { slot: framebuffer_index as int, result },
            ),
            match old(self)@.frames.refusal(
                FrameCall::Acquired { slot: framebuffer_index as int, result },
            ) {
                Some(e) => r == Err::<FrameDecision, FrameError>(e),
                None => r == Ok::<FrameDecision, FrameError>(
                    acquisition_decision(
                        result,
                        old(self)@.frames.strict,
                        old(self)@.frames.image_count,
                    ),
                ),
            },
    {
        proof {
            crate::engine_core::frame::lemma_next_preserves_wf(
                self@.frames,
                FrameCall::Acquired { slot: framebuffer_index as int, result },
            );
        }
        self.frames.acquired(framebuffer_index, result)
    }

    /// Says which fence to reset, once a valid image has been acquired for the
    /// slot. From here on the frame has to be submitted.
    pub fn reset_in_flight_fence(&mut self, fence_index: usize) -> (r: Result<Handle, FrameError>)
        requires
            old(self)@.wf(),
        ensures
            final(self)@.wf(),
            final(self)@ == old(self)@.after(FrameCall::ResetFence { slot: fence_index as int }),
            match old(self)@.frames.refusal(FrameCall::ResetFence { slot: fence_index as int }) {
                Some(e) => r == Err::<Handle, FrameError>(e),
                None => r == Ok::<Handle, FrameError>(
                    old(self)@.resources.sync.in_flight@[fence_index as int],
                ),
            },
    {
        proof {
            crate::engine_core::frame::lemma_next_preserves_wf(
                self@.frames,
                FrameCall::ResetFence { slot: fence_index as int },
            );
        }
        match self.frames.reset_fence(fence_index) {
            Ok(_) => Ok(self.resources.sync.in_flight[fence_index]),
            Err(e) => Err(e),
        }
    }

    /// Says which command buffer to record into for a swapchain image: the one
    /// that belongs to the image, whatever the frame slot. Recording is in turn
    /// only while a slot holds the image with its fence reset.
    pub fn record_command_buffer(&self, buffer_index: usize) -> (r: Result<Handle, FrameError>)
        requires
            self@.wf(),
        ensures
            match r {
                Ok(command_buffer) => {
                    &&& self@.is_recording(buffer_index as int)
                    &&& buffer_index < self@.command_buffers.len()
                    &&& command_buffer == self@.command_buffers[buffer_index as int]
                },
                Err(e) => e == FrameError::OutOfTurn && !self@.is_recording(buffer_index as int),
            },
    {
        if buffer_index > u32::MAX as usize {
            return Err(FrameError::OutOfTurn);
        }
        if self.frames.is_recording(buffer_index as u32) {
            Ok(self.command_buffers[buffer_index])
        } else {
            Err(FrameError::OutOfTurn)
        }
    }

    /// Says what to submit for a slot: the command buffer of the acquired image,
    /// waiting at colour output for the slot's "image available" semaphore,
    /// signaling its "render finished" semaphore, and its in-flight fence.
    pub fn submit_drawing_command_buffer(&mut self, buffer_index: usize) -> (r: Result<
        SubmitInfo,
        FrameError,
    >)
        requires
            old(self)@.wf(),
        ensures
            final(self)@.wf(),
            final(self)@ == old(self)@.after(FrameCall::Submit { slot: buffer_index as int }),
            match old(self)@.frames.refusal(FrameCall::Submit { slot: buffer_index as int }) {
                Some(e) => r == Err::<SubmitInfo, FrameError>(e),
                None => r == Ok::<SubmitInfo, FrameError>(
                    old(self)@.submission(buffer_index as int),
                ),
            },
    {
        proof {
            crate::engine_core::frame::lemma_next_preserves_wf(
                self@.frames,
                FrameCall::Submit { slot: buffer_index as int },
            );
        }
        match self.frames.submit(buffer_index) {
            Ok(image) => {
                Ok(
                    SubmitInfo {
                        queue: self.resources.graphics_queue,
                        wait_semaphore: self.resources.sync.image_available[buffer_index],
                        wait_stage: PIPELINE_STAGE_COLOR_ATTACHMENT_OUTPUT,
                        command_buffer: self.command_buffers[image as usize],
                        signal_semaphore: self.resources.sync.render_finished[buffer_index],
                        fence: self.resources.sync.in_flight[buffer_index],
                    },
                )
            },
            Err(e) => Err(e),
        }
    }

    /// Says what to present for a slot whose frame has been submitted: the
    /// acquired image, once the slot's "render finished" semaphore is signaled.
    pub fn present_image(&self, slot: usize) -> (r: Result<PresentInfo, FrameError>)
        requires
            self@.wf(),
        ensures
            r == if !self@.frames.has_slot(slot as int) {
                Err::<PresentInfo, FrameError>(FrameError::NoSuchSlot)
            } else if !(self@.frames.phases[slot as int] is Submitted) {
                Err::<PresentInfo, FrameError>(FrameError::OutOfTurn)
            } else {
                Ok::<PresentInfo, FrameError>(self@.presentation(slot as int))
            },
    {
        match self.frames.phase(slot) {
            None => Err(FrameError::NoSuchSlot),
            Some(SlotPhase::Submitted { image }) => match &self.bundle {
                Some(bundle) => Ok(
                    PresentInfo {
                        queue: self.resources.present_queue,
                        swapchain: bundle.swapchain,
                        image_index: image,
                        wait_semaphore: self.resources.sync.render_finished[slot],
                    },
                ),
                None => Err(FrameError::OutOfTurn),
            },
            Some(_) => Err(FrameError::OutOfTurn),
        }
    }

    /// Takes the driver's answer to a presentation and decides how to go on.
    pub fn image_presented(&mut self, result: Result<bool, i32>) -> (r: FrameDecision)
        requires
            old(self)@.wf(),
        ensures
            final(self)@.wf(),
            final(self)@ == old(self)@.after(FrameCall::Presented { result }),
            r == presentation_decision(result),
    {
        proof {
            crate::engine_core::frame::lemma_next_preserves_wf(
                self@.frames,
                FrameCall::Presented { result },
            );
        }
        self.frames.presented(result)
    }

    /// Destroys the swapchain bundle as a whole: says to wait for the device to go
    /// idle and then to destroy every part. Refused while a slot holds an image
    /// or a reset fence, and when there is no bundle.
    pub fn clean_swapchain_and_dependants(&mut self) -> (r: Result<Vec<ReleaseCall>, FrameError>)
        requires
            old(self)@.wf(),
        ensures
            final(self)@.wf(),
            match old(self)@.frames.refusal(FrameCall::Clean) {
                Some(e) => r == Err::<Vec<ReleaseCall>, FrameError>(e) && final(self)@ == old(
                    self,
                )@,
                None => {
                    &&& r matches Ok(calls)
                    &&& calls@ == seq![ReleaseCall::DeviceWaitIdle] + old(
                        self,
                    )@.bundle->0.release_calls()
                    &&& all_need_device(calls@)
                    &&& final(self)@ == (BaseAppView {
                        bundle: None,
                        frames: old(self)@.frames.next(FrameCall::Clean),
                        ..old(self)@
                    })
                },
            },
    {
        proof {
            crate::engine_core::frame::lemma_next_preserves_wf(self@.frames, FrameCall::Clean);
        }
        match self.frames.clean() {
            Ok(()) => {
                let mut calls: Vec<ReleaseCall> = Vec::new();
                calls.push(ReleaseCall::DeviceWaitIdle);
                match self.bundle.take() {
                    Some(bundle) => {
                        let mut rest = bundle.destroy();
                        calls.append(&mut rest);
                    },
                    None => {},
                }
                Ok(calls)
            },
            Err(e) => Err(e),
        }
    }

    /// Says how to replace the command buffers for a swapchain of `image_count`
    /// images: the buffers to free, and the allocation of one primary command
    /// buffer per image. The new handles go to `recreate_swapchain`.
    pub fn reallocate_command_buffers(&self, image_count: u32) -> (r: (
        Vec<Handle>,
        CommandBufferAllocateInfo,
    ))
        ensures
            r.0@ == self@.command_buffers,
            r.1 == command_buffer_allocation(self@.resources.command_pool, image_count),
    {
        let mut free: Vec<Handle> = Vec::new();
        let mut i: usize = 0;
        while i < self.command_buffers.len()
            invariant
                i <= self.command_buffers@.len(),
                free@ == self.command_buffers@.take(i as int),
            decreases self.command_buffers@.len() - i,
        {
            free.push(self.command_buffers[i]);
            i += 1;
        }
        (free, allocate_command_buffers(self.resources.command_pool, image_count))
    }

    /// Takes over a rebuilt swapchain bundle and its command buffers, all or
    /// nothing: either the whole bundle is in place, well-formed, or nothing has
    /// changed. Every frame slot is idle afterwards.
    pub fn recreate_swapchain(&mut self, parts: BundleParts, command_buffers: Vec<Handle>) -> (r:
        Result<(), RecreateError>)
        requires
            old(self)@.wf(),
        ensures
            final(self)@.wf(),
            r == if !(old(self)@.frames.status is Destroyed) {
                Err::<(), RecreateError>(RecreateError::NotCleaned)
            } else if command_buffers@.len() != parts.image_views@.len() {
                Err::<(), RecreateError>(RecreateError::CommandBufferCount)
            } else if !parts.consistent() {
                Err::<(), RecreateError>(RecreateError::Inconsistent)
            } else {
                Ok::<(), RecreateError>(())
            },
            r is Err ==> final(self)@ == old(self)@,
            r is Ok ==> {
                &&& final(self)@.bundle is Some
                &&& final(self)@.bundle->0.wf()
                &&& final(self)@.bundle->0.made_of(parts)
                &&& final(self)@.command_buffers == command_buffers@
                &&& final(self)@.resources == old(self)@.resources
                &&& final(self)@.frames == old(self)@.frames.next(
                    FrameCall::Recreate { image_count: parts.image_views@.len() },
                )
            },
    {
        match self.frames.status() {
            SwapchainStatus::Destroyed => {},
            _ => {
                return Err(RecreateError::NotCleaned);
            },
        }
        if command_buffers.len() != parts.image_views.len() {
            return Err(RecreateError::CommandBufferCount);
        }
        match SwapchainBundle::new(parts) {
            Some(bundle) => {
                proof {
                    crate::engine_core::frame::lemma_next_preserves_wf(
                        self@.frames,
                        FrameCall::Recreate { image_count: bundle.image_views@.len() },
                    );
                }
                let accepted = self.frames.recreate(bundle.image_views.len() as u32);
                self.bundle = Some(bundle);
                self.command_buffers = command_buffers;
                Ok(())
            },
            None => Err(RecreateError::Inconsistent),
        }
    }

    /// Ends the application and says how to release everything, in an order in
    /// which nothing is destroyed before something that depends on it: the
    /// logical device after all that was created from it, then the debug
    /// messenger, the surface and, last of all, the instance.
    pub fn teardown(self) -> (calls: Vec<ReleaseCall>)
        requires
            self@.wf(),
        ensures
            calls@ == self@.teardown_calls(),
            device_destroyed_at(calls@, self@.device_level_calls().len() as int),
            calls@.last() == ReleaseCall::DestroyInstance,
    {
        let ghost view = self@;
        let mut calls: Vec<ReleaseCall> = Vec::new();
        calls.push(ReleaseCall::DeviceWaitIdle);
        let mut resource_calls = self.resources.release();
        calls.append(&mut resource_calls);
        let surface = self.resources.surface;
        let messenger = self.resources.messenger;
        if let Some(bundle) = self.bundle {
            let mut bundle_calls = bundle.destroy();
            calls.append(&mut bundle_calls);
        }
        let ghost head = calls@;
        calls.push(ReleaseCall::DestroyDevice);
        if let Some(handle) = messenger {
            calls.push(ReleaseCall::DestroyDebugMessenger(handle));
        }
        calls.push(ReleaseCall::DestroySurface(surface));
        calls.push(ReleaseCall::DestroyInstance);
        proof {
            let tail = view.instance_level_calls();
            lemma_device_destroyed_between(head, tail);
        }
        calls
    }
}

/// The parameters of the command pool.
#[derive(Clone, Copy, PartialEq, Eq, Structural, Debug)]
pub struct CommandPoolCreateInfo {
    pub queue_family_index: u32,
    pub flags: u32,
}

/// The command pool serves the graphics family, and its buffers can be recorded
/// anew one by one.
pub fn command_pool_info(queue_family_indices: QueueFamilyIndices) -> (info: CommandPoolCreateInfo)
    ensures
        info == (CommandPoolCreateInfo {
            queue_family_index: queue_family_indices.graphics_queue,
            flags: COMMAND_POOL_CREATE_RESET_COMMAND_BUFFER,
        }),
{
    CommandPoolCreateInfo {
        queue_family_index: queue_family_indices.graphics_queue,
        flags: COMMAND_POOL_CREATE_RESET_COMMAND_BUFFER,
    }
}

/// The depth image of a swapchain: 32-bit float depth, of the swapchain's extent.
pub fn depth_image(swapchain_extent: Extent2D) -> (plan: ImagePlan)
    ensures
        plan.info == plain_image(
            FORMAT_D32_SFLOAT,
            IMAGE_TILING_OPTIMAL,
            IMAGE_USAGE_DEPTH_STENCIL_ATTACHMENT,
            (swapchain_extent.width, swapchain_extent.height),
        ),
        plan.memory_properties == MEMORY_PROPERTY_DEVICE_LOCAL,
        plan.view_aspect == IMAGE_ASPECT_DEPTH,
{
    create_image(
        FORMAT_D32_SFLOAT,
        IMAGE_TILING_OPTIMAL,
        IMAGE_USAGE_DEPTH_STENCIL_ATTACHMENT,
        IMAGE_ASPECT_DEPTH,
        (swapchain_extent.width, swapchain_extent.height),
    )
}

/// The image of a texture of RGBA texels: filled by a transfer, then sampled.
pub fn texture_image(width: u32, height: u32) -> (plan: ImagePlan)
    ensures
        plan.info == plain_image(
            FORMAT_R8G8B8A8_SRGB,
            IMAGE_TILING_OPTIMAL,
            IMAGE_USAGE_TRANSFER_DST | IMAGE_USAGE_SAMPLED,
            (width, height),
        ),
        plan.memory_properties == MEMORY_PROPERTY_DEVICE_LOCAL,
        plan.view_aspect == IMAGE_ASPECT_COLOR,
{
    create_image(
        FORMAT_R8G8B8A8_SRGB,
        IMAGE_TILING_OPTIMAL,
        IMAGE_USAGE_TRANSFER_DST | IMAGE_USAGE_SAMPLED,
        IMAGE_ASPECT_COLOR,
        (width, height),
    )
}

/// The parameters of everything in a swapchain bundle that can be worked out
/// before anything is created.
#[derive(Clone, PartialEq, Eq, Debug)]
pub struct BundlePlan {
    pub swapchain: SwapchainCreateInfo,
    pub render_pass: RenderPassCreateInfo,
    pub pipeline: GraphicsPipelineCreateInfo,
    pub depth_image: ImagePlan,
}

impl BundlePlan {
    /// The parts of the plan agree: the render pass draws in the swapchain's
    /// format, with 32-bit float depth; the pipeline covers the swapchain's
    /// extent and tests depth; and the depth image has the swapchain's extent.
    pub open spec fn coherent(
        &self,
        shaders: Seq<Shader>,
        vertex_input_descriptors: VertexInputDescriptors,
        descriptor_set_bindings: Option<Vec<DescriptorSetLayoutBinding>>,
        push_constant_size: u32,
    ) -> bool {
        &&& is_default_render_pass(
            self.render_pass,
            self.swapchain.image_format,
            Some(FORMAT_D32_SFLOAT),
        )
        &&& is_default_pipeline(
            self.pipeline,
            self.swapchain.image_extent,
            shaders,
            vertex_input_descriptors,
            descriptor_set_bindings,
            push_constant_size,
            true,
        )
        &&& self.depth_image.info == plain_image(
            FORMAT_D32_SFLOAT,
            IMAGE_TILING_OPTIMAL,
            IMAGE_USAGE_DEPTH_STENCIL_ATTACHMENT,
            (self.swapchain.image_extent.width, self.swapchain.image_extent.height),
        )
        &&& self.depth_image.memory_properties == MEMORY_PROPERTY_DEVICE_LOCAL
        &&& self.depth_image.view_aspect == IMAGE_ASPECT_DEPTH
    }
}

/// Works out a swapchain bundle from scratch for the surface as it is now: the
/// swapchain, and the render pass, pipeline and depth image that follow from its
/// format and extent. Image views and framebuffers, which need the handles of
/// what is created first, follow with `create_swapchain_image_views` and
/// `create_framebuffers`.
pub fn plan_swapchain_bundle(
    window_size: Extent2D,
    capabilities: &SurfaceCapabilities,
    formats: &Vec<SurfaceFormat>,
    present_modes: &Vec<i32>,
    queue_family_indices: QueueFamilyIndices,
    shaders: &Vec<Shader>,
    vertex_input_descriptors: &VertexInputDescriptors,
    descriptor_set_bindings: Option<Vec<DescriptorSetLayoutBinding>>,
    push_constant_size: u32,
) -> (plan: BundlePlan)
    requires
        swapchain_inputs_valid(*capabilities, formats@),
    ensures
        is_swapchain_for(
            plan.swapchain,
            window_size,
            *capabilities,
            formats@,
            present_modes@,
            queue_family_indices,
        ),
        plan.coherent(
            shaders@,
            *vertex_input_descriptors,
            descriptor_set_bindings,
            push_constant_size,
        ),
{
    let swapchain = create_swapchain(
        window_size,
        capabilities,
        formats,
        present_modes,
        queue_family_indices,
    );
    let (pipeline, render_pass) = create_graphics_pipeline(
        swapchain.image_extent,
        swapchain.image_format,
        Some(FORMAT_D32_SFLOAT),
        shaders,
        vertex_input_descriptors,
        descriptor_set_bindings,
        push_constant_size,
    );
    let depth = depth_image(swapchain.image_extent);
    BundlePlan { swapchain, render_pass, pipeline, depth_image: depth }
}

/// How many descriptors of one type a pool holds.
#[derive(Clone, Copy, PartialEq, Eq, Structural, Debug)]
pub struct DescriptorPoolSize {
    pub descriptor_type: i32,
    pub descriptor_count: u32,
}

/// The parameters of the descriptor pool.
#[derive(Clone, PartialEq, Eq, Debug)]
pub struct DescriptorPoolCreateInfo {
    pub pool_sizes: Vec<DescriptorPoolSize>,
    pub max_sets: u32,
}

/// The descriptor pool holds one set per frame slot, each with a uniform buffer
/// and a combined image sampler.
pub fn descriptor_pool_info() -> (info: DescriptorPoolCreateInfo)
    ensures
        info.max_sets == MAX_FRAMES_IN_FLIGHT,
        info.pool_sizes@ == seq![
            DescriptorPoolSize {
                descriptor_type: DESCRIPTOR_TYPE_UNIFORM_BUFFER,
                descriptor_count: MAX_FRAMES_IN_FLIGHT as u32,
            },
            DescriptorPoolSize {
                descriptor_type: DESCRIPTOR_TYPE_COMBINED_IMAGE_SAMPLER,
                descriptor_count: MAX_FRAMES_IN_FLIGHT as u32,
            },
        ],
{
    let mut pool_sizes: Vec<DescriptorPoolSize> = Vec::new();
    pool_sizes.push(
        DescriptorPoolSize {
            descriptor_type: DESCRIPTOR_TYPE_UNIFORM_BUFFER,
            descriptor_count: MAX_FRAMES_IN_FLIGHT as u32,
        },
    );
    pool_sizes.push(
        DescriptorPoolSize {
            descriptor_type: DESCRIPTOR_TYPE_COMBINED_IMAGE_SAMPLER,
            descriptor_count: MAX_FRAMES_IN_FLIGHT as u32,
        },
    );
    DescriptorPoolCreateInfo { pool_sizes, max_sets: MAX_FRAMES_IN_FLIGHT as u32 }
}

/// What a descriptor is made to refer to.
#[derive(Clone, Copy, PartialEq, Eq, Structural, Debug)]
pub enum DescriptorResource {
    Buffer { buffer: Handle, offset: u64, range: u64 },
    Image { image_layout: i32, image_view: Handle, sampler: Handle },
}

/// One update of a descriptor set.
#[derive(Clone, Copy, PartialEq, Eq, Structural, Debug)]
pub struct DescriptorWrite {
    pub dst_set: Handle,
    pub dst_binding: u32,
    pub dst_array_element: u32,
    pub descriptor_type: i32,
    pub resource: DescriptorResource,
}

/// The updates of the descriptor sets: binding 0 of set `i` is the whole of
/// uniform buffer `i`, binding 1 of every set is the texture with its sampler.
pub open spec fn descriptor_writes_for(
    descriptor_sets: Seq<Handle>,
    uniform_buffers: Seq<ManagedBuffer>,
    uniform_size: u64,
    texture_view: Handle,
    texture_sampler: Handle,
) -> Seq<DescriptorWrite> {
    Seq::new(
        2 * descriptor_sets.len(),
        |k: int|
            if k % 2 == 0 {
                DescriptorWrite {
                    dst_set: descriptor_sets[k / 2],
                    dst_binding: 0,
                    dst_array_element: 0,
                    descriptor_type: DESCRIPTOR_TYPE_UNIFORM_BUFFER,
                    resource: DescriptorResource::Buffer {
                        buffer: uniform_buffers[k / 2].buffer,
                        offset: 0,
                        range: uniform_size,
                    },
                }
            } else {
                DescriptorWrite {
                    dst_set: descriptor_sets[k / 2],
                    dst_binding: 1,
                    dst_array_element: 0,
                    descriptor_type: DESCRIPTOR_TYPE_COMBINED_IMAGE_SAMPLER,
                    resource: DescriptorResource::Image {
                        image_layout: IMAGE_LAYOUT_SHADER_READ_ONLY_OPTIMAL,
                        image_view: texture_view,
                        sampler: texture_sampler,
                    },
                }
            },
    )
}

/// Works out the updates that point the descriptor sets at the uniform buffers
/// and the texture. There has to be a uniform buffer for every set.
pub fn descriptor_writes(
    descriptor_sets: &Vec<Handle>,
    uniform_buffers: &Vec<ManagedBuffer>,
    uniform_size: u64,
    texture_view: Handle,
    texture_sampler: Handle,
) -> (writes: Vec<DescriptorWrite>)
    requires
        descriptor_sets@.len() <= uniform_buffers@.len(),
    ensures
        writes@ == descriptor_writes_for(
            descriptor_sets@,
            uniform_buffers@,
            uniform_size,
            texture_view,
            texture_sampler,
        ),
{
    let ghost wanted = descriptor_writes_for(
        descriptor_sets@,
        uniform_buffers@,
        uniform_size,
        texture_view,
        texture_sampler,
    );
    let mut writes: Vec<DescriptorWrite> = Vec::new();
    let mut i: usize = 0;
    while i < descriptor_sets.len()
        invariant
            descriptor_sets@.len() <= uniform_buffers@.len(),
            i <= descriptor_sets@.len(),
            writes@.len() == 2 * i,
            wanted == descriptor_writes_for(
                descriptor_sets@,
                uniform_buffers@,
                uniform_size,
                texture_view,
                texture_sampler,
            ),
            forall|k: int| 0 <= k < writes@.len() ==> writes@[k] == wanted[k],
        decreases descriptor_sets@.len() - i,
    {
        writes.push(
            DescriptorWrite {
                dst_set: descriptor_sets[i],
                dst_binding: 0,
                dst_array_element: 0,
                descriptor_type: DESCRIPTOR_TYPE_UNIFORM_BUFFER,
                resource: DescriptorResource::Buffer {
                    buffer: uniform_buffers[i].buffer,
                    offset: 0,
                    range: uniform_size,
                },
            },
        );
        writes.push(
            DescriptorWrite {
                dst_set: descriptor_sets[i],
                dst_binding: 1,
                dst_array_element: 0,
                descriptor_type: DESCRIPTOR_TYPE_COMBINED_IMAGE_SAMPLER,
                resource: DescriptorResource::Image {
                    image_layout: IMAGE_LAYOUT_SHADER_READ_ONLY_OPTIMAL,
                    image_view: texture_view,
                    sampler: texture_sampler,
                },
            },
        );
        i += 1;
    }
    writes
}

} // verus!
