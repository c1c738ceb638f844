//! Release calls that the library asks the program to make, in the order given.

use vstd::prelude::*;
use crate::engine_core::vk::Handle;

verus! {

/// One call that gives a Vulkan object back. The program makes the call; the
/// library decides which calls are made and in what order.
#[derive(Clone, Copy, PartialEq, Eq, Structural, Debug)]
pub enum ReleaseCall {
    DeviceWaitIdle,
    UnmapMemory(Handle),
    FreeMemory(Handle),
    DestroyBuffer(Handle),
    DestroyImageView(Handle),
    DestroyImage(Handle),
    DestroySemaphore(Handle),
    DestroyFence(Handle),
    DestroyDescriptorPool(Handle),
    DestroySampler(Handle),
    DestroyCommandPool(Handle),
    DestroyFramebuffer(Handle),
    DestroyPipeline(Handle),
    DestroyPipelineLayout(Handle),
    DestroyDescriptorSetLayout(Handle),
    DestroyRenderPass(Handle),
    DestroySwapchain(Handle),
    DestroyDevice,
    DestroyDebugMessenger(Handle),
    DestroySurface(Handle),
    DestroyInstance,
}

impl ReleaseCall {
    /// The call is issued against the logical device, which therefore has to be
    /// alive when it is made.
    pub open spec fn needs_device(&self) -> bool {
        match *self {
            ReleaseCall::DestroyDevice => false,
            ReleaseCall::DestroyDebugMessenger(_) => false,
            ReleaseCall::DestroySurface(_) => false,
            ReleaseCall::DestroyInstance => false,
            _ => true,
        }
    }
}

/// Every call of `calls` is issued against the logical device.
pub open spec fn all_need_device(calls: Seq<ReleaseCall>) -> bool {
    forall|i: int| 0 <= i < calls.len() ==> (#[trigger] calls[i]).needs_device()
}

} // verus!
