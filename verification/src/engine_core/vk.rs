//! Raw Vulkan values that the library's rules mention, and the flag tests of `ash`.
//!
//! Handles, enumerants and bit masks travel through the library as the integers
//! that Vulkan defines for them.

use vstd::prelude::*;

verus! {

/// A Vulkan object handle as an integer; zero is the null handle.
pub type Handle = u64;

pub const NULL_HANDLE: u64 = 0;

// VkFormat
pub const FORMAT_R8G8B8A8_SRGB: i32 = 43;
pub const FORMAT_D32_SFLOAT: i32 = 126;

// VkColorSpaceKHR
pub const COLOR_SPACE_SRGB_NONLINEAR: i32 = 0;

// VkPresentModeKHR
pub const PRESENT_MODE_MAILBOX: i32 = 1;
pub const PRESENT_MODE_FIFO: i32 = 2;

// VkResult
pub const RESULT_SUBOPTIMAL: i32 = 1000001003;
pub const RESULT_ERROR_OUT_OF_DATE: i32 = -1000001004;

// VkPhysicalDeviceType
pub const PHYSICAL_DEVICE_TYPE_DISCRETE_GPU: i32 = 2;

// VkQueueFlagBits
pub const QUEUE_GRAPHICS: u32 = 0x1;

// VkMemoryPropertyFlagBits
pub const MEMORY_PROPERTY_DEVICE_LOCAL: u32 = 0x1;
pub const MEMORY_PROPERTY_HOST_VISIBLE: u32 = 0x2;
pub const MEMORY_PROPERTY_HOST_COHERENT: u32 = 0x4;

// VkBufferUsageFlagBits
pub const BUFFER_USAGE_TRANSFER_SRC: u32 = 0x1;
pub const BUFFER_USAGE_TRANSFER_DST: u32 = 0x2;
pub const BUFFER_USAGE_UNIFORM_BUFFER: u32 = 0x10;
pub const BUFFER_USAGE_INDEX_BUFFER: u32 = 0x40;
pub const BUFFER_USAGE_VERTEX_BUFFER: u32 = 0x80;

// VkImageUsageFlagBits
pub const IMAGE_USAGE_TRANSFER_DST: u32 = 0x2;
pub const IMAGE_USAGE_SAMPLED: u32 = 0x4;
pub const IMAGE_USAGE_COLOR_ATTACHMENT: u32 = 0x10;
pub const IMAGE_USAGE_DEPTH_STENCIL_ATTACHMENT: u32 = 0x20;

// VkImageAspectFlagBits
pub const IMAGE_ASPECT_COLOR: u32 = 0x1;
pub const IMAGE_ASPECT_DEPTH: u32 = 0x2;

// VkImageTiling, VkImageType, VkImageViewType
pub const IMAGE_TILING_OPTIMAL: i32 = 0;
pub const IMAGE_TYPE_2D: i32 = 1;
pub const IMAGE_VIEW_TYPE_2D: i32 = 1;

// VkImageLayout
pub const IMAGE_LAYOUT_UNDEFINED: i32 = 0;
pub const IMAGE_LAYOUT_COLOR_ATTACHMENT_OPTIMAL: i32 = 2;
pub const IMAGE_LAYOUT_DEPTH_STENCIL_ATTACHMENT_OPTIMAL: i32 = 3;
pub const IMAGE_LAYOUT_SHADER_READ_ONLY_OPTIMAL: i32 = 5;
pub const IMAGE_LAYOUT_TRANSFER_DST_OPTIMAL: i32 = 7;
pub const IMAGE_LAYOUT_PRESENT_SRC: i32 = 1000001002;

// VkAccessFlagBits
pub const ACCESS_SHADER_READ: u32 = 0x20;
pub const ACCESS_COLOR_ATTACHMENT_WRITE: u32 = 0x100;
pub const ACCESS_TRANSFER_WRITE: u32 = 0x1000;

// VkPipelineStageFlagBits
pub const PIPELINE_STAGE_TOP_OF_PIPE: u32 = 0x1;
pub const PIPELINE_STAGE_FRAGMENT_SHADER: u32 = 0x80;
pub const PIPELINE_STAGE_COLOR_ATTACHMENT_OUTPUT: u32 = 0x400;
pub const PIPELINE_STAGE_TRANSFER: u32 = 0x1000;

// VkShaderStageFlagBits
pub const SHADER_STAGE_VERTEX: u32 = 0x1;
pub const SHADER_STAGE_FRAGMENT: u32 = 0x10;

// VkDescriptorType
pub const DESCRIPTOR_TYPE_COMBINED_IMAGE_SAMPLER: i32 = 1;
pub const DESCRIPTOR_TYPE_UNIFORM_BUFFER: i32 = 6;

// VkSharingMode
pub const SHARING_MODE_EXCLUSIVE: i32 = 0;
pub const SHARING_MODE_CONCURRENT: i32 = 1;

// VkCompositeAlphaFlagBitsKHR
pub const COMPOSITE_ALPHA_OPAQUE: u32 = 0x1;

// VkAttachmentLoadOp, VkAttachmentStoreOp
pub const ATTACHMENT_LOAD_OP_CLEAR: i32 = 1;
pub const ATTACHMENT_LOAD_OP_DONT_CARE: i32 = 2;
pub const ATTACHMENT_STORE_OP_STORE: i32 = 0;
pub const ATTACHMENT_STORE_OP_DONT_CARE: i32 = 1;

// VkSampleCountFlagBits
pub const SAMPLE_COUNT_1: u32 = 0x1;

// Fixed-function pipeline state
pub const PRIMITIVE_TOPOLOGY_TRIANGLE_LIST: i32 = 3;
pub const POLYGON_MODE_FILL: i32 = 0;
pub const CULL_MODE_BACK: u32 = 0x2;
pub const FRONT_FACE_COUNTER_CLOCKWISE: i32 = 0;
pub const COLOR_COMPONENT_RGBA: u32 = 0xF;
pub const COMPARE_OP_LESS: i32 = 1;
pub const PIPELINE_BIND_POINT_GRAPHICS: i32 = 0;

// VkIndexType
pub const INDEX_TYPE_UINT16: i32 = 0;
pub const INDEX_TYPE_UINT32: i32 = 1;

// VkCommandPoolCreateFlagBits, VkCommandBufferLevel, VkCommandBufferUsageFlagBits
pub const COMMAND_POOL_CREATE_RESET_COMMAND_BUFFER: u32 = 0x2;
pub const COMMAND_BUFFER_LEVEL_PRIMARY: i32 = 0;
pub const COMMAND_BUFFER_USAGE_ONE_TIME_SUBMIT: u32 = 0x1;

// VkFenceCreateFlagBits
pub const FENCE_CREATE_SIGNALED: u32 = 0x1;

// VkDebugUtilsMessageSeverityFlagBitsEXT, VkDebugUtilsMessageTypeFlagBitsEXT
pub const DEBUG_SEVERITY_WARNING: u32 = 0x100;
pub const DEBUG_SEVERITY_ERROR: u32 = 0x1000;
pub const DEBUG_TYPE_GENERAL: u32 = 0x1;
pub const DEBUG_TYPE_VALIDATION: u32 = 0x2;
pub const DEBUG_TYPE_PERFORMANCE: u32 = 0x4;

// Special indices
pub const SUBPASS_EXTERNAL: u32 = 0xFFFF_FFFF;
pub const QUEUE_FAMILY_IGNORED: u32 = 0xFFFF_FFFF;

/// Whether every bit of `required` is set in `flags`.
pub open spec fn flags_contain(flags: u32, required: u32) -> bool {
    flags & required == required
}

/// `ash::vk::MemoryPropertyFlags::contains`, on raw bit masks. The contract is the
/// method's body in `ash`: `other` is a subset of `self`.
#[verifier::external_body]
pub(crate) fn memory_flags_contain(flags: u32, required: u32) -> (r: bool)
    ensures
        r == flags_contain(flags, required),
{
    ash::vk::MemoryPropertyFlags::from_raw(flags).contains(
        ash::vk::MemoryPropertyFlags::from_raw(required),
    )
}

/// `ash::vk::QueueFlags::contains`, on raw bit masks. The contract is the method's
/// body in `ash`: `other` is a subset of `self`.
#[verifier::external_body]
pub(crate) fn queue_flags_contain(flags: u32, required: u32) -> (r: bool)
    ensures
        r == flags_contain(flags, required),
{
    ash::vk::QueueFlags::from_raw(flags).contains(ash::vk::QueueFlags::from_raw(required))
}

/// `ash::extensions::khr::Swapchain::name`, as a string: the name of the device
/// extension for presentation, which `ash` spells `VK_KHR_swapchain`.
#[verifier::external_body]
pub(crate) fn swapchain_extension_name() -> (r: String)
    ensures
        r@ == "VK_KHR_swapchain"@,
{
    ash::extensions::khr::Swapchain::name().to_string_lossy().into_owned()
}

} // verus!
