//! The render pass and the fixed-function state of the graphics pipeline.

use vstd::prelude::*;
use crate::engine_core::swapchain::Extent2D;
use crate::engine_core::vk::{
    ACCESS_COLOR_ATTACHMENT_WRITE, ATTACHMENT_LOAD_OP_CLEAR, ATTACHMENT_LOAD_OP_DONT_CARE,
    ATTACHMENT_STORE_OP_DONT_CARE, ATTACHMENT_STORE_OP_STORE, COLOR_COMPONENT_RGBA,
    COMPARE_OP_LESS, CULL_MODE_BACK, FRONT_FACE_COUNTER_CLOCKWISE,
    IMAGE_LAYOUT_COLOR_ATTACHMENT_OPTIMAL, IMAGE_LAYOUT_DEPTH_STENCIL_ATTACHMENT_OPTIMAL,
    IMAGE_LAYOUT_PRESENT_SRC, IMAGE_LAYOUT_UNDEFINED, PIPELINE_BIND_POINT_GRAPHICS,
    PIPELINE_STAGE_COLOR_ATTACHMENT_OUTPUT, POLYGON_MODE_FILL, PRIMITIVE_TOPOLOGY_TRIANGLE_LIST,
    SAMPLE_COUNT_1, SHADER_STAGE_FRAGMENT, SHADER_STAGE_VERTEX, SUBPASS_EXTERNAL,
};
use crate::shaders::{Shader, ShaderType};

verus! {

/// How one vertex buffer binding is stepped through.
#[derive(Clone, Copy, PartialEq, Eq, Structural, Debug)]
pub struct VertexInputBindingDescription {
    pub binding: u32,
    pub stride: u32,
    pub input_rate: i32,
}

/// Where one vertex attribute lies within its binding.
#[derive(Clone, Copy, PartialEq, Eq, Structural, Debug)]
pub struct VertexInputAttributeDescription {
    pub location: u32,
    pub binding: u32,
    pub format: i32,
    pub offset: u32,
}

/// The layout of the vertex data that the pipeline reads.
#[derive(Clone, PartialEq, Eq, Debug)]
pub struct VertexInputDescriptors {
    pub bindings: Vec<VertexInputBindingDescription>,
    pub attributes: Vec<VertexInputAttributeDescription>,
}

/// One binding of a descriptor set layout.
#[derive(Clone, Copy, PartialEq, Eq, Structural, Debug)]
pub struct DescriptorSetLayoutBinding {
    pub binding: u32,
    pub descriptor_type: i32,
    pub descriptor_count: u32,
    pub stage_flags: u32,
}

/// One attachment of a render pass.
#[derive(Clone, Copy, PartialEq, Eq, Structural, Debug)]
pub struct AttachmentDescription {
    pub format: i32,
    pub samples: u32,
    pub load_op: i32,
    pub store_op: i32,
    pub stencil_load_op: i32,
    pub stencil_store_op: i32,
    pub initial_layout: i32,
    pub final_layout: i32,
}

/// The use of one attachment in a subpass.
#[derive(Clone, Copy, PartialEq, Eq, Structural, Debug)]
pub struct AttachmentReference {
    pub attachment: u32,
    pub layout: i32,
}

/// An execution and memory dependency between two subpasses.
#[derive(Clone, Copy, PartialEq, Eq, Structural, Debug)]
pub struct SubpassDependency {
    pub src_subpass: u32,
    pub dst_subpass: u32,
    pub src_stage_mask: u32,
    pub dst_stage_mask: u32,
    pub src_access_mask: u32,
    pub dst_access_mask: u32,
}

/// The parameters of a render pass with one graphics subpass.
#[derive(Clone, PartialEq, Eq, Debug)]
pub struct RenderPassCreateInfo {
    /// The colour attachment, followed by the depth attachment where there is one.
    pub attachments: Vec<AttachmentDescription>,
    pub pipeline_bind_point: i32,
    pub color_attachment: AttachmentReference,
    pub depth_attachment: Option<AttachmentReference>,
    pub dependencies: Vec<SubpassDependency>,
}

/// The colour attachment: cleared when the pass begins, stored when it ends, and
/// left ready for presentation.
pub open spec fn color_attachment(image_format: i32) -> AttachmentDescription {
    AttachmentDescription {
        format: image_format,
        samples: SAMPLE_COUNT_1,
        load_op: ATTACHMENT_LOAD_OP_CLEAR,
        store_op: ATTACHMENT_STORE_OP_STORE,
        stencil_load_op: ATTACHMENT_LOAD_OP_DONT_CARE,
        stencil_store_op: ATTACHMENT_STORE_OP_DONT_CARE,
        initial_layout: IMAGE_LAYOUT_UNDEFINED,
        final_layout: IMAGE_LAYOUT_PRESENT_SRC,
    }
}

/// The depth attachment: cleared when the pass begins, its contents not kept.
pub open spec fn depth_attachment(depth_format: i32) -> AttachmentDescription {
    AttachmentDescription {
        format: depth_format,
        samples: SAMPLE_COUNT_1,
        load_op: ATTACHMENT_LOAD_OP_CLEAR,
        store_op: ATTACHMENT_STORE_OP_DONT_CARE,
        stencil_load_op: ATTACHMENT_LOAD_OP_DONT_CARE,
        stencil_store_op: ATTACHMENT_STORE_OP_DONT_CARE,
        initial_layout: IMAGE_LAYOUT_UNDEFINED,
        final_layout: IMAGE_LAYOUT_DEPTH_STENCIL_ATTACHMENT_OPTIMAL,
    }
}

/// The one dependency of the pass: colour output of the subpass waits for colour
/// output of whatever used the image before, so that an image is not written
/// before it has been acquired.
pub open spec fn acquire_dependency() -> SubpassDependency {
    SubpassDependency {
        src_subpass: SUBPASS_EXTERNAL,
        dst_subpass: 0,
        src_stage_mask: PIPELINE_STAGE_COLOR_ATTACHMENT_OUTPUT,
        dst_stage_mask: PIPELINE_STAGE_COLOR_ATTACHMENT_OUTPUT,
        src_access_mask: 0,
        dst_access_mask: ACCESS_COLOR_ATTACHMENT_WRITE,
    }
}

/// The attachments of the default render pass.
pub open spec fn default_attachments(image_format: i32, depth_format: Option<i32>) -> Seq<
    AttachmentDescription,
> {
    match depth_format {
        Some(format) => seq![color_attachment(image_format), depth_attachment(format)],
        None => seq![color_attachment(image_format)],
    }
}

/// `info` describes the default render pass: one graphics subpass that draws to
/// the colour attachment and, where there is a depth format, tests against the
/// depth attachment; and the one dependency on the acquisition of the image.
pub open spec fn is_default_render_pass(
    info: RenderPassCreateInfo,
    image_format: i32,
    depth_format: Option<i32>,
) -> bool {
    &&& info.attachments@ == default_attachments(image_format, depth_format)
    &&& info.pipeline_bind_point == PIPELINE_BIND_POINT_GRAPHICS
    &&& info.color_attachment == (AttachmentReference {
        attachment: 0,
        layout: IMAGE_LAYOUT_COLOR_ATTACHMENT_OPTIMAL,
    })
    &&& info.depth_attachment == match depth_format {
        Some(_) => Some(
            AttachmentReference {
                attachment: 1,
                layout: IMAGE_LAYOUT_DEPTH_STENCIL_ATTACHMENT_OPTIMAL,
            },
        ),
        None => None::<AttachmentReference>,
    }
    &&& info.dependencies@ == seq![acquire_dependency()]
}

/// The parameters of the render pass that draws into swapchain images of
/// `image_format`, with a depth attachment where a depth format is given.
pub fn default_render_pass(image_format: i32, depth_format: Option<i32>) -> (info:
    RenderPassCreateInfo)
    ensures
        is_default_render_pass(info, image_format, depth_format),
{
    let mut attachments: Vec<AttachmentDescription> = Vec::new();
    attachments.push(
        AttachmentDescription {
            format: image_format,
            samples: SAMPLE_COUNT_1,
            load_op: ATTACHMENT_LOAD_OP_CLEAR,
            store_op: ATTACHMENT_STORE_OP_STORE,
            stencil_load_op: ATTACHMENT_LOAD_OP_DONT_CARE,
            stencil_store_op: ATTACHMENT_STORE_OP_DONT_CARE,
            initial_layout: IMAGE_LAYOUT_UNDEFINED,
            final_layout: IMAGE_LAYOUT_PRESENT_SRC,
        },
    );
    let mut depth_reference: Option<AttachmentReference> = None;
    if let Some(format) = depth_format {
        attachments.push(
            AttachmentDescription {
                format,
                samples: SAMPLE_COUNT_1,
                load_op: ATTACHMENT_LOAD_OP_CLEAR,
                store_op: ATTACHMENT_STORE_OP_DONT_CARE,
                stencil_load_op: ATTACHMENT_LOAD_OP_DONT_CARE,
                stencil_store_op: ATTACHMENT_STORE_OP_DONT_CARE,
                initial_layout: IMAGE_LAYOUT_UNDEFINED,
                final_layout: IMAGE_LAYOUT_DEPTH_STENCIL_ATTACHMENT_OPTIMAL,
            },
        );
        depth_reference =
        Some(
            AttachmentReference {
                attachment: 1,
                layout: IMAGE_LAYOUT_DEPTH_STENCIL_ATTACHMENT_OPTIMAL,
            },
        );
    }
    let mut dependencies: Vec<SubpassDependency> = Vec::new();
    dependencies.push(
        SubpassDependency {
            src_subpass: SUBPASS_EXTERNAL,
            dst_subpass: 0,
            src_stage_mask: PIPELINE_STAGE_COLOR_ATTACHMENT_OUTPUT,
            dst_stage_mask: PIPELINE_STAGE_COLOR_ATTACHMENT_OUTPUT,
            src_access_mask: 0,
            dst_access_mask: ACCESS_COLOR_ATTACHMENT_WRITE,
        },
    );
    assert(attachments@ =~= default_attachments(image_format, depth_format));
    RenderPassCreateInfo {
        attachments,
        pipeline_bind_point: PIPELINE_BIND_POINT_GRAPHICS,
        color_attachment: AttachmentReference {
            attachment: 0,
            layout: IMAGE_LAYOUT_COLOR_ATTACHMENT_OPTIMAL,
        },
        depth_attachment: depth_reference,
        dependencies,
    }
}

/// One programmable stage of a pipeline. Stage `i` of a pipeline runs shader `i` of
/// the list that the pipeline was made for.
#[derive(Clone, PartialEq, Eq, Debug)]
pub struct ShaderStageInfo {
    pub stage: u32,
    pub entry_point: String,
}

/// The stage bit of a shader type.
pub open spec fn stage_flag(shader_type: ShaderType) -> u32 {
    match shader_type {
        ShaderType::Vertex => SHADER_STAGE_VERTEX,
        ShaderType::Fragment => SHADER_STAGE_FRAGMENT,
    }
}

/// The stage that a shader's module is bound to, entered at `main`.
pub fn create_shader_module(shader: &Shader) -> (info: ShaderStageInfo)
    ensures
        info.stage == stage_flag(shader.shader_type),
        info.entry_point@ == "main"@,
{
    let stage = match shader.shader_type {
        ShaderType::Vertex => SHADER_STAGE_VERTEX,
        ShaderType::Fragment => SHADER_STAGE_FRAGMENT,
    };
    ShaderStageInfo { stage, entry_point: "main".to_owned() }
}

/// The range of push constants that a pipeline layout declares.
#[derive(Clone, Copy, PartialEq, Eq, Structural, Debug)]
pub struct PushConstantRange {
    pub stage_flags: u32,
    pub offset: u32,
    pub size: u32,
}

/// Depth test and depth write, both on, nearer fragments winning.
#[derive(Clone, Copy, PartialEq, Eq, Structural, Debug)]
pub struct DepthState {
    pub depth_test_enable: bool,
    pub depth_write_enable: bool,
    pub depth_compare_op: i32,
}

/// The state of the graphics pipeline that is fixed when it is created.
#[derive(Clone, Copy, PartialEq, Eq, Structural, Debug)]
pub struct FixedFunctionState {
    pub topology: i32,
    pub primitive_restart_enable: bool,
    /// The viewport spans this extent from the origin, with depth from zero to one.
    pub viewport: Extent2D,
    /// The scissor rectangle spans this extent from the origin.
    pub scissor: Extent2D,
    pub depth_clamp_enable: bool,
    pub rasterizer_discard_enable: bool,
    pub polygon_mode: i32,
    pub cull_mode: u32,
    pub front_face: i32,
    pub depth_bias_enable: bool,
    pub sample_shading_enable: bool,
    pub rasterization_samples: u32,
    pub blend_enable: bool,
    pub color_write_mask: u32,
    pub logic_op_enable: bool,
    pub depth: Option<DepthState>,
    pub subpass: u32,
}

/// The parameters of the graphics pipeline and of its layout.
#[derive(Clone, PartialEq, Eq, Debug)]
pub struct GraphicsPipelineCreateInfo {
    pub stages: Vec<ShaderStageInfo>,
    pub vertex_bindings: Vec<VertexInputBindingDescription>,
    pub vertex_attributes: Vec<VertexInputAttributeDescription>,
    pub fixed: FixedFunctionState,
    /// The bindings of the one descriptor set layout, where there is one.
    pub descriptor_set_bindings: Option<Vec<DescriptorSetLayoutBinding>>,
    pub push_constant_range: PushConstantRange,
}

/// Triangle lists, filled, back faces culled, one sample per pixel, no blending, the
/// whole extent drawn to; depth test and write where there is a depth attachment.
pub open spec fn default_fixed_state(
    swapchain_extent: Extent2D,
    with_depth: bool,
) -> FixedFunctionState {
    FixedFunctionState {
        topology: PRIMITIVE_TOPOLOGY_TRIANGLE_LIST,
        primitive_restart_enable: false,
        viewport: swapchain_extent,
        scissor: swapchain_extent,
        depth_clamp_enable: false,
        rasterizer_discard_enable: false,
        polygon_mode: POLYGON_MODE_FILL,
        cull_mode: CULL_MODE_BACK,
        front_face: FRONT_FACE_COUNTER_CLOCKWISE,
        depth_bias_enable: false,
        sample_shading_enable: false,
        rasterization_samples: SAMPLE_COUNT_1,
        blend_enable: false,
        color_write_mask: COLOR_COMPONENT_RGBA,
        logic_op_enable: false,
        depth: if with_depth {
            Some(
                DepthState {
                    depth_test_enable: true,
                    depth_write_enable: true,
                    depth_compare_op: COMPARE_OP_LESS,
                },
            )
        } else {
            None
        },
        subpass: 0,
    }
}

/// Stage `i` runs shader `i`, entered at `main`, in the stage that the shader is
/// tagged with.
pub open spec fn stages_match(stages: Seq<ShaderStageInfo>, shaders: Seq<Shader>) -> bool {
    &&& stages.len() == shaders.len()
    &&& forall|i: int|
        0 <= i < stages.len() ==> (#[trigger] stages[i]).stage == stage_flag(
            shaders[i].shader_type,
        ) && stages[i].entry_point@ == "main"@
}

/// `info` describes the default pipeline for the given shaders and vertex layout.
pub open spec fn is_default_pipeline(
    info: GraphicsPipelineCreateInfo,
    swapchain_extent: Extent2D,
    shaders: Seq<Shader>,
    vertex_input_descriptors: VertexInputDescriptors,
    descriptor_set_bindings: Option<Vec<DescriptorSetLayoutBinding>>,
    push_constant_size: u32,
    with_depth: bool,
) -> bool {
    &&& stages_match(info.stages@, shaders)
    &&& info.vertex_bindings@ == vertex_input_descriptors.bindings@
    &&& info.vertex_attributes@ == vertex_input_descriptors.attributes@
    &&& info.fixed == default_fixed_state(swapchain_extent, with_depth)
    &&& info.descriptor_set_bindings == descriptor_set_bindings
    &&& info.push_constant_range == (PushConstantRange {
        stage_flags: SHADER_STAGE_VERTEX,
        offset: 0,
        size: push_constant_size,
    })
}

fn copy_of<T: Copy>(items: &Vec<T>) -> (r: Vec<T>)
    ensures
        r@ == items@,
{
    let mut r: Vec<T> = Vec::new();
    let mut i: usize = 0;
    while i < items.len()
        invariant
            i <= items@.len(),
            r@ == items@.take(i as int),
        decreases items@.len() - i,
    {
        r.push(items[i]);
        i += 1;
    }
    r
}

/// The parameters of the default graphics pipeline: the given shaders in order,
/// the given vertex layout, a descriptor set layout only where bindings are given,
/// and one range of `push_constant_size` bytes of push constants for the vertex
/// stage.
pub fn default_pipeline(
    swapchain_extent: Extent2D,
    shaders: &Vec<Shader>,
    vertex_input_descriptors: &VertexInputDescriptors,
    descriptor_set_bindings: Option<Vec<DescriptorSetLayoutBinding>>,
    push_constant_size: u32,
    with_depth: bool,
) -> (info: GraphicsPipelineCreateInfo)
    ensures
        is_default_pipeline(
            info,
            swapchain_extent,
            shaders@,
            *vertex_input_descriptors,
            descriptor_set_bindings,
            push_constant_size,
            with_depth,
        ),
{
    let mut stages: Vec<ShaderStageInfo> = Vec::new();
    let mut i: usize = 0;
    while i < shaders.len()
        invariant
            i <= shaders@.len(),
            stages_match(stages@, shaders@.take(i as int)),
        decreases shaders@.len() - i,
    {
        stages.push(create_shader_module(&shaders[i]));
        i += 1;
    }
    let depth = if with_depth {
        Some(
            DepthState {
                depth_test_enable: true,
                depth_write_enable: true,
                depth_compare_op: COMPARE_OP_LESS,
            },
        )
    } else {
        None
    };
    GraphicsPipelineCreateInfo {
        stages,
        vertex_bindings: copy_of(&vertex_input_descriptors.bindings),
        vertex_attributes: copy_of(&vertex_input_descriptors.attributes),
        fixed: FixedFunctionState {
            topology: PRIMITIVE_TOPOLOGY_TRIANGLE_LIST,
            primitive_restart_enable: false,
            viewport: swapchain_extent,
            scissor: swapchain_extent,
            depth_clamp_enable: false,
            rasterizer_discard_enable: false,
            polygon_mode: POLYGON_MODE_FILL,
            cull_mode: CULL_MODE_BACK,
            front_face: FRONT_FACE_COUNTER_CLOCKWISE,
            depth_bias_enable: false,
            sample_shading_enable: false,
            rasterization_samples: SAMPLE_COUNT_1,
            blend_enable: false,
            color_write_mask: COLOR_COMPONENT_RGBA,
            logic_op_enable: false,
            depth,
            subpass: 0,
        },
        descriptor_set_bindings,
        push_constant_range: PushConstantRange {
            stage_flags: SHADER_STAGE_VERTEX,
            offset: 0,
            size: push_constant_size,
        },
    }
}

} // verus!
