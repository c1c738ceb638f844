//! Verified decision core of a small framework for Vulkan applications.
//!
//! The library decides; the program around it talks to the driver. Every rule of
//! device selection, swapchain configuration, memory placement, frame pacing and
//! teardown is a function on plain values with a contract.

use vstd::prelude::*;

pub mod application;
pub mod engine_core;
pub mod shaders;

pub use application::BaseApp;
pub use engine_core::VertexInputDescriptors;

use crate::application::BaseAppView;
use crate::engine_core::pipeline::DescriptorSetLayoutBinding;
use crate::engine_core::swapchain::Extent2D;
use crate::engine_core::textures::rgba_size;
use crate::engine_core::vk::{
    Handle, DESCRIPTOR_TYPE_COMBINED_IMAGE_SAMPLER, DESCRIPTOR_TYPE_UNIFORM_BUFFER,
    PIPELINE_BIND_POINT_GRAPHICS, SHADER_STAGE_FRAGMENT, SHADER_STAGE_VERTEX,
};

verus! {

/// One command of the fixed part of a frame's command buffer.
#[derive(Clone, Copy, PartialEq, Eq, Structural, Debug)]
pub enum DrawCommand {
    /// Begins the render pass on the whole of the framebuffer, clearing colour to
    /// opaque black and depth to the far plane.
    BeginRenderPass { render_pass: Handle, framebuffer: Handle, render_area: Extent2D },
    BindPipeline { bind_point: i32, pipeline: Handle },
    /// Sets `size` bytes of push constants for the vertex stage.
    PushConstants { layout: Handle, stage_flags: u32, offset: u32, size: u32 },
    BindVertexBuffer { first_binding: u32, buffer: Handle, offset: u64 },
    BindIndexBuffer { buffer: Handle, offset: u64, index_type: i32 },
    BindDescriptorSet { bind_point: i32, layout: Handle, first_set: u32, descriptor_set: Handle },
    EndRenderPass,
}

/// The commands that frame the caller's draw calls, and the command buffer that
/// all of them are recorded into.
#[derive(Clone, PartialEq, Eq, Debug)]
pub struct DrawingCommands {
    pub command_buffer: Handle,
    /// Recorded before the caller's commands.
    pub before: Vec<DrawCommand>,
    /// Recorded after the caller's commands.
    pub after: Vec<DrawCommand>,
}

impl BaseAppView {
    /// Frame slot `slot` can draw to swapchain image `image`: there is a bundle,
    /// the image is one of its images, and the slot is one of the slots.
    pub open spec fn can_draw(&self, slot: int, image: int) -> bool {
        &&& self.bundle is Some
        &&& 0 <= image < self.bundle->0.framebuffers@.len()
        &&& 0 <= slot < engine_core::MAX_FRAMES_IN_FLIGHT
    }

    /// The commands before the caller's: begin the render pass on the image's
    /// framebuffer over the whole extent, bind the pipeline, set the push
    /// constants, bind the vertex and the index buffer, and bind the slot's
    /// descriptor set where there are descriptor sets.
    pub open spec fn commands_before(
        &self,
        slot: int,
        image: int,
        push_constant_size: u32,
        index_type: i32,
    ) -> Seq<DrawCommand> {
        let bundle = self.bundle->0;
        seq![
            DrawCommand::BeginRenderPass {
                render_pass: bundle.render_pass,
                framebuffer: bundle.framebuffers@[image].handle,
                render_area: bundle.extent,
            },
            DrawCommand::BindPipeline {
                bind_point: PIPELINE_BIND_POINT_GRAPHICS,
                pipeline: bundle.pipeline,
            },
            DrawCommand::PushConstants {
                layout: bundle.pipeline_layout,
                stage_flags: SHADER_STAGE_VERTEX,
                offset: 0,
                size: push_constant_size,
            },
            DrawCommand::BindVertexBuffer {
                first_binding: 0,
                buffer: self.resources.vertex_buffer.buffer,
                offset: 0,
            },
            DrawCommand::BindIndexBuffer {
                buffer: self.resources.index_buffer.buffer,
                offset: 0,
                index_type,
            },
        ] + (if self.resources.descriptor_sets@.len() > 0 {
            seq![
                DrawCommand::BindDescriptorSet {
                    bind_point: PIPELINE_BIND_POINT_GRAPHICS,
                    layout: bundle.pipeline_layout,
                    first_set: 0,
                    descriptor_set: self.resources.descriptor_sets@[slot],
                },
            ]
        } else {
            Seq::empty()
        })
    }
}

/// Lays out the fixed part of the command buffer of one frame, for use between
/// the begin and the end of its recording: everything that a draw call needs
/// before it, and the end of the render pass after it. The commands go into the
/// command buffer of the acquired image, not of the frame slot.
pub fn drawing_commands(
    app: &BaseApp,
    buffer_index: usize,
    swapchain_image_index: u32,
    push_constant_size: u32,
    index_type: i32,
) -> (r: Option<DrawingCommands>)
    requires
        app@.wf(),
    ensures
        r is Some <==> app@.can_draw(buffer_index as int, swapchain_image_index as int),
        r matches Some(commands) ==> {
            &&& commands.command_buffer == app@.command_buffers[swapchain_image_index as int]
            &&& commands.before@ == app@.commands_before(
                buffer_index as int,
                swapchain_image_index as int,
                push_constant_size,
                index_type,
            )
            &&& commands.after@ == seq![DrawCommand::EndRenderPass]
        },
{
    if buffer_index >= engine_core::MAX_FRAMES_IN_FLIGHT {
        return None;
    }
    let image = swapchain_image_index as usize;
    match app.bundle() {
        Some(bundle) => {
            if image >= bundle.framebuffers.len() {
                return None;
            }
            let resources = app.resources();
            let mut before: Vec<DrawCommand> = Vec::new();
            before.push(
                DrawCommand::BeginRenderPass {
                    render_pass: bundle.render_pass,
                    framebuffer: bundle.framebuffers[image].handle,
                    render_area: bundle.extent,
                },
            );
            before.push(
                DrawCommand::BindPipeline {
                    bind_point: PIPELINE_BIND_POINT_GRAPHICS,
                    pipeline: bundle.pipeline,
                },
            );
            before.push(
                DrawCommand::PushConstants {
                    layout: bundle.pipeline_layout,
                    stage_flags: SHADER_STAGE_VERTEX,
                    offset: 0,
                    size: push_constant_size,
                },
            );
            before.push(
                DrawCommand::BindVertexBuffer {
                    first_binding: 0,
                    buffer: resources.vertex_buffer.buffer,
                    offset: 0,
                },
            );
            before.push(
                DrawCommand::BindIndexBuffer {
                    buffer: resources.index_buffer.buffer,
                    offset: 0,
                    index_type,
                },
            );
            if resources.descriptor_sets.len() > 0 {
                before.push(
                    DrawCommand::BindDescriptorSet {
                        bind_point: PIPELINE_BIND_POINT_GRAPHICS,
                        layout: bundle.pipeline_layout,
                        first_set: 0,
                        descriptor_set: resources.descriptor_sets[buffer_index],
                    },
                );
            }
            let mut after: Vec<DrawCommand> = Vec::new();
            after.push(DrawCommand::EndRenderPass);
            Some(
                DrawingCommands {
                    command_buffer: app.command_buffers()[image],
                    before,
                    after,
                },
            )
        },
        None => None,
    }
}

/// The bindings of the default descriptor set layout.
pub open spec fn default_bindings() -> Seq<DescriptorSetLayoutBinding> {
    seq![
        DescriptorSetLayoutBinding {
            binding: 0,
            descriptor_type: DESCRIPTOR_TYPE_UNIFORM_BUFFER,
            descriptor_count: 1,
            stage_flags: SHADER_STAGE_VERTEX,
        },
        DescriptorSetLayoutBinding {
            binding: 1,
            descriptor_type: DESCRIPTOR_TYPE_COMBINED_IMAGE_SAMPLER,
            descriptor_count: 1,
            stage_flags: SHADER_STAGE_FRAGMENT,
        },
    ]
}

/// The default descriptor set layout: binding 0 is a uniform buffer for the
/// vertex stage, binding 1 an image sampler for the fragment stage.
pub fn default_descriptor_set_layout_bindings() -> (r: Vec<DescriptorSetLayoutBinding>)
    ensures
        r@ == default_bindings(),
{
    let mut r: Vec<DescriptorSetLayoutBinding> = Vec::new();
    r.push(
        DescriptorSetLayoutBinding {
            binding: 0,
            descriptor_type: DESCRIPTOR_TYPE_UNIFORM_BUFFER,
            descriptor_count: 1,
            stage_flags: SHADER_STAGE_VERTEX,
        },
    );
    r.push(
        DescriptorSetLayoutBinding {
            binding: 1,
            descriptor_type: DESCRIPTOR_TYPE_COMBINED_IMAGE_SAMPLER,
            descriptor_count: 1,
            stage_flags: SHADER_STAGE_FRAGMENT,
        },
    );
    r
}

/// The texels of an image: four bytes (red, green, blue, alpha) for each, row by
/// row.
#[derive(Clone, PartialEq, Eq, Debug)]
pub struct Texels {
    pub samples: Vec<u8>,
    pub width: u32,
    pub height: u32,
}

impl Texels {
    /// There are exactly four bytes for every texel.
    pub open spec fn wf(&self) -> bool {
        self.samples@.len() == rgba_size(self.width, self.height)
    }
}

/// Decodes an image file held in memory to RGBA samples, as
/// `image::io::Reader::decode` does for a file whose format is told from the
/// extension of `img_path`; `None` where the format is unknown or the contents
/// cannot be decoded. Nothing is claimed of what comes back: the JPEG decoder
/// behind `image` picks its arithmetic by the processor that it runs on.
#[verifier::external_body]
fn decode_rgba(img_path: &str, contents: &Vec<u8>) -> (r: Option<(Vec<u8>, u32, u32)>)
{
    let format = image::ImageFormat::from_path(img_path).ok()?;
    let reader = image::io::Reader::with_format(std::io::Cursor::new(contents.as_slice()), format);
    let img = reader.decode().ok()?;
    let (width, height) = (img.width(), img.height());
    Some((img.into_rgba8().into_flat_samples().samples, width, height))
}

/// Takes decoded samples as the texels of a `width` by `height` image, provided
/// that there are exactly four of them for every texel.
pub fn texels_from_samples(samples: Vec<u8>, width: u32, height: u32) -> (r: Option<Texels>)
    ensures
        r is Some <==> samples@.len() == rgba_size(width, height),
        r matches Some(texels) ==> texels.samples@ == samples@ && texels.width == width
            && texels.height == height,
{
    let held = samples.len() as u64;
    match engine_core::textures::texture_staging_size(width, height) {
        Some(size) => {
            if size == held {
                Some(Texels { samples, width, height })
            } else {
                None
            }
        },
        None => None,
    }
}

/// Decodes the contents of an image file to RGBA texels. The format is told from
/// the extension of `img_path`. What is returned has four bytes per texel.
pub fn load_image_as_rgba_samples(img_path: &str, contents: &Vec<u8>) -> (r: Option<Texels>)
    ensures
        r matches Some(texels) ==> texels.wf(),
{
    match decode_rgba(img_path, contents) {
        Some((samples, width, height)) => texels_from_samples(samples, width, height),
        None => None,
    }
}

} // verus!
