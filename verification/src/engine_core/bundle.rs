//! The swapchain bundle: the swapchain and everything whose shape follows from its
//! format and extent. It is built as a whole and destroyed as a whole.

use vstd::prelude::*;
use crate::engine_core::calls::{all_need_device, ReleaseCall};
use crate::engine_core::swapchain::Extent2D;
use crate::engine_core::textures::ManagedImage;
use crate::engine_core::vk::Handle;

verus! {

/// A framebuffer and the size that it was created with.
#[derive(Clone, Copy, PartialEq, Eq, Structural, Debug)]
pub struct Framebuffer {
    pub handle: Handle,
    pub width: u32,
    pub height: u32,
}

/// The handles of the objects that make up a bundle, as the driver returned them.
#[derive(Clone, PartialEq, Eq, Debug)]
pub struct BundleParts {
    pub swapchain: Handle,
    pub image_format: i32,
    pub extent: Extent2D,
    /// One view per swapchain image, in the images' order.
    pub image_views: Vec<Handle>,
    pub depth_image: Option<ManagedImage>,
    pub render_pass: Handle,
    pub pipeline: Handle,
    pub pipeline_layout: Handle,
    pub descriptor_set_layout: Option<Handle>,
    /// The framebuffers created for the views, in the views' order.
    pub framebuffers: Vec<Handle>,
}

impl BundleParts {
    /// The parts fit together: a framebuffer for every view, no more images than a
    /// 32-bit index can address, and a depth image in a valid state.
    pub open spec fn consistent(&self) -> bool {
        &&& self.framebuffers@.len() == self.image_views@.len()
        &&& self.image_views@.len() <= u32::MAX
        &&& self.depth_image matches Some(depth) ==> depth.wf()
    }
}

/// The swapchain with its dependants.
#[derive(Clone, PartialEq, Eq, Debug)]
pub struct SwapchainBundle {
    pub swapchain: Handle,
    pub image_format: i32,
    pub extent: Extent2D,
    pub image_views: Vec<Handle>,
    pub depth_image: Option<ManagedImage>,
    pub render_pass: Handle,
    pub pipeline: Handle,
    pub pipeline_layout: Handle,
    pub descriptor_set_layout: Option<Handle>,
    pub framebuffers: Vec<Framebuffer>,
}

/// The calls that destroy the framebuffers, in order.
pub open spec fn framebuffer_releases(framebuffers: Seq<Framebuffer>) -> Seq<ReleaseCall> {
    framebuffers.map_values(|fb: Framebuffer| ReleaseCall::DestroyFramebuffer(fb.handle))
}

/// The calls that destroy the image views, in order.
pub open spec fn image_view_releases(image_views: Seq<Handle>) -> Seq<ReleaseCall> {
    image_views.map_values(|view: Handle| ReleaseCall::DestroyImageView(view))
}

impl SwapchainBundle {
    /// There is one framebuffer per image view, and every framebuffer has the size
    /// of the swapchain's images.
    pub open spec fn wf(&self) -> bool {
        &&& self.framebuffers@.len() == self.image_views@.len()
        &&& self.image_views@.len() <= u32::MAX
        &&& forall|i: int|
            0 <= i < self.framebuffers@.len() ==> (#[trigger] self.framebuffers@[i]).width
                == self.extent.width && self.framebuffers@[i].height == self.extent.height
        &&& self.depth_image matches Some(depth) ==> depth.wf()
    }

    /// The bundle holds exactly the given parts, its framebuffers sized by its
    /// extent.
    pub open spec fn made_of(&self, parts: BundleParts) -> bool {
        &&& self.swapchain == parts.swapchain
        &&& self.image_format == parts.image_format
        &&& self.extent == parts.extent
        &&& self.image_views@ == parts.image_views@
        &&& self.depth_image == parts.depth_image
        &&& self.render_pass == parts.render_pass
        &&& self.pipeline == parts.pipeline
        &&& self.pipeline_layout == parts.pipeline_layout
        &&& self.descriptor_set_layout == parts.descriptor_set_layout
        &&& self.framebuffers@ == parts.framebuffers@.map_values(
            |handle: Handle|
                Framebuffer { handle, width: parts.extent.width, height: parts.extent.height },
        )
    }

    /// Puts a bundle together. Parts that do not fit are refused as a whole.
    pub fn new(parts: BundleParts) -> (r: Option<SwapchainBundle>)
        ensures
            r is Some <==> parts.consistent(),
            r matches Some(bundle) ==> bundle.wf() && bundle.made_of(parts),
    {
        if parts.framebuffers.len() != parts.image_views.len() {
            return None;
        }
        if parts.image_views.len() > u32::MAX as usize {
            return None;
        }
        if let Some(depth) = parts.depth_image {
            if !depth.check() {
                return None;
            }
        }
        let ghost sized = parts.framebuffers@.map_values(
            |handle: Handle|
                Framebuffer { handle, width: parts.extent.width, height: parts.extent.height },
        );
        let mut framebuffers: Vec<Framebuffer> = Vec::new();
        let mut i: usize = 0;
        while i < parts.framebuffers.len()
            invariant
                i <= parts.framebuffers@.len(),
                framebuffers@.len() == i,
                sized == parts.framebuffers@.map_values(
                    |handle: Handle|
                        Framebuffer {
                            handle,
                            width: parts.extent.width,
                            height: parts.extent.height,
                        },
                ),
                forall|k: int| 0 <= k < i ==> framebuffers@[k] == sized[k],
            decreases parts.framebuffers@.len() - i,
        {
            framebuffers.push(
                Framebuffer {
                    handle: parts.framebuffers[i],
                    width: parts.extent.width,
                    height: parts.extent.height,
                },
            );
            i += 1;
        }
        assert(framebuffers@ =~= sized);
        Some(
            SwapchainBundle {
                swapchain: parts.swapchain,
                image_format: parts.image_format,
                extent: parts.extent,
                image_views: parts.image_views,
                depth_image: parts.depth_image,
                render_pass: parts.render_pass,
                pipeline: parts.pipeline,
                pipeline_layout: parts.pipeline_layout,
                descriptor_set_layout: parts.descriptor_set_layout,
                framebuffers,
            },
        )
    }

    /// Whether the bundle is well-formed.
    pub fn check(&self) -> (r: bool)
        ensures
            r == self.wf(),
    {
        if self.framebuffers.len() != self.image_views.len() {
            return false;
        }
        if self.image_views.len() > u32::MAX as usize {
            return false;
        }
        if let Some(depth) = self.depth_image {
            if !depth.check() {
                return false;
            }
        }
        let mut i: usize = 0;
        while i < self.framebuffers.len()
            invariant
                i <= self.framebuffers@.len(),
                forall|k: int|
                    0 <= k < i ==> (#[trigger] self.framebuffers@[k]).width == self.extent.width
                        && self.framebuffers@[k].height == self.extent.height,
            decreases self.framebuffers@.len() - i,
        {
            let framebuffer = self.framebuffers[i];
            if framebuffer.width != self.extent.width || framebuffer.height
                != self.extent.height {
                return false;
            }
            i += 1;
        }
        true
    }

    /// The calls that destroy the bundle: the framebuffers, the pipeline, its
    /// layout, the descriptor set layout, the render pass, the image views, the
    /// swapchain, and the depth image.
    pub open spec fn release_calls(&self) -> Seq<ReleaseCall> {
        framebuffer_releases(self.framebuffers@) + seq![
            ReleaseCall::DestroyPipeline(self.pipeline),
            ReleaseCall::DestroyPipelineLayout(self.pipeline_layout),
        ] + (match self.descriptor_set_layout {
            Some(layout) => seq![ReleaseCall::DestroyDescriptorSetLayout(layout)],
            None => Seq::empty(),
        }) + seq![ReleaseCall::DestroyRenderPass(self.render_pass)] + image_view_releases(
            self.image_views@,
        ) + seq![ReleaseCall::DestroySwapchain(self.swapchain)] + (match self.depth_image {
            Some(depth) => depth.release_calls(),
            None => Seq::empty(),
        })
    }

    /// Gives the bundle up and says how to destroy it.
    pub fn destroy(self) -> (calls: Vec<ReleaseCall>)
        requires
            self.wf(),
        ensures
            calls@ == self.release_calls(),
            all_need_device(calls@),
    {
        let mut calls: Vec<ReleaseCall> = Vec::new();
        let mut i: usize = 0;
        while i < self.framebuffers.len()
            invariant
                i <= self.framebuffers@.len(),
                calls@ == framebuffer_releases(self.framebuffers@.take(i as int)),
                all_need_device(calls@),
            decreases self.framebuffers@.len() - i,
        {
            calls.push(ReleaseCall::DestroyFramebuffer(self.framebuffers[i].handle));
            i += 1;
        }
        calls.push(ReleaseCall::DestroyPipeline(self.pipeline));
        calls.push(ReleaseCall::DestroyPipelineLayout(self.pipeline_layout));
        if let Some(layout) = self.descriptor_set_layout {
            calls.push(ReleaseCall::DestroyDescriptorSetLayout(layout));
        }
        calls.push(ReleaseCall::DestroyRenderPass(self.render_pass));
        let ghost head = calls@;
        let mut j: usize = 0;
        while j < self.image_views.len()
            invariant
                j <= self.image_views@.len(),
                calls@ == head + image_view_releases(self.image_views@.take(j as int)),
                all_need_device(calls@),
            decreases self.image_views@.len() - j,
        {
            calls.push(ReleaseCall::DestroyImageView(self.image_views[j]));
            j += 1;
        }
        calls.push(ReleaseCall::DestroySwapchain(self.swapchain));
        if let Some(depth) = self.depth_image {
            let mut depth_calls = depth.release();
            calls.append(&mut depth_calls);
        }
        calls
    }
}

} // verus!
