//! Choice of surface format, present mode, extent and image count, and the
//! parameters of the swapchain that follow from them.

use vstd::prelude::*;
use crate::engine_core::phys_device::QueueFamilyIndices;
use crate::engine_core::vk::{
    COLOR_SPACE_SRGB_NONLINEAR, COMPOSITE_ALPHA_OPAQUE, FORMAT_R8G8B8A8_SRGB,
    IMAGE_USAGE_COLOR_ATTACHMENT, PRESENT_MODE_FIFO, PRESENT_MODE_MAILBOX,
    SHARING_MODE_CONCURRENT, SHARING_MODE_EXCLUSIVE,
};

verus! {

/// A pixel format together with its colour space.
#[derive(Clone, Copy, PartialEq, Eq, Structural, Debug)]
pub struct SurfaceFormat {
    pub format: i32,
    pub color_space: i32,
}

/// Width and height in pixels.
#[derive(Clone, Copy, PartialEq, Eq, Structural, Debug)]
pub struct Extent2D {
    pub width: u32,
    pub height: u32,
}

/// What the swapchain rules read of a surface's capabilities.
#[derive(Clone, Copy, PartialEq, Eq, Structural, Debug)]
pub struct SurfaceCapabilities {
    pub min_image_count: u32,
    /// Zero means that there is no upper limit.
    pub max_image_count: u32,
    /// A width of `u32::MAX` means that the surface leaves the extent to the swapchain.
    pub current_extent: Extent2D,
    pub min_image_extent: Extent2D,
    pub max_image_extent: Extent2D,
    pub current_transform: u32,
}

impl SurfaceFormat {
    /// The pair that is taken whenever the surface offers it.
    pub open spec fn is_preferred(&self) -> bool {
        self.format == FORMAT_R8G8B8A8_SRGB && self.color_space == COLOR_SPACE_SRGB_NONLINEAR
    }
}

pub open spec fn offers_preferred_format(formats: Seq<SurfaceFormat>) -> bool {
    exists|i: int| 0 <= i < formats.len() && (#[trigger] formats[i]).is_preferred()
}

/// The format that the rule picks: the preferred pair where it is on offer, the
/// first entry otherwise.
pub open spec fn chosen_format(formats: Seq<SurfaceFormat>) -> SurfaceFormat
    recommends
        formats.len() > 0,
{
    if offers_preferred_format(formats) {
        SurfaceFormat { format: FORMAT_R8G8B8A8_SRGB, color_space: COLOR_SPACE_SRGB_NONLINEAR }
    } else {
        formats[0]
    }
}

/// Picks the surface format of the swapchain images.
pub fn choose_swap_surface_format(formats: &Vec<SurfaceFormat>) -> (r: SurfaceFormat)
    requires
        formats@.len() > 0,
    ensures
        r == chosen_format(formats@),
{
    let mut i: usize = 0;
    while i < formats.len()
        invariant
            i <= formats@.len(),
            forall|j: int| 0 <= j < i ==> !(#[trigger] formats@[j]).is_preferred(),
        decreases formats@.len() - i,
    {
        let available = formats[i];
        if available.format == FORMAT_R8G8B8A8_SRGB && available.color_space
            == COLOR_SPACE_SRGB_NONLINEAR {
            return available;
        }
        i += 1;
    }
    formats[0]
}

/// The choice depends on the contents of the list alone, it is one of the entries,
/// and choosing again among the chosen entry alone changes nothing.
pub proof fn lemma_format_choice_is_stable(a: Seq<SurfaceFormat>, b: Seq<SurfaceFormat>)
    requires
        a.len() > 0,
        a =~= b,
    ensures
        chosen_format(a) == chosen_format(b),
        a.contains(chosen_format(a)),
        chosen_format(seq![chosen_format(a)]) == chosen_format(a),
{
}

/// The present mode that the rule picks: the preferred one where the surface
/// offers it, FIFO (which every surface offers) otherwise.
pub open spec fn chosen_present_mode(present_modes: Seq<i32>, preferred_mode: i32) -> i32 {
    if present_modes.contains(preferred_mode) {
        preferred_mode
    } else {
        PRESENT_MODE_FIFO
    }
}

/// Picks how images are handed to the surface.
pub fn choose_swap_present_mode(present_modes: &Vec<i32>, preferred_mode: i32) -> (r: i32)
    ensures
        r == chosen_present_mode(present_modes@, preferred_mode),
{
    let mut i: usize = 0;
    while i < present_modes.len()
        invariant
            i <= present_modes@.len(),
            forall|j: int| 0 <= j < i ==> present_modes@[j] != preferred_mode,
        decreases present_modes@.len() - i,
    {
        if present_modes[i] == preferred_mode {
            return preferred_mode;
        }
        i += 1;
    }
    PRESENT_MODE_FIFO
}

/// `value` moved into `[low, high]`.
pub open spec fn clamped(value: u32, low: u32, high: u32) -> u32 {
    if value < low {
        low
    } else if value > high {
        high
    } else {
        value
    }
}

impl SurfaceCapabilities {
    /// The surface dictates the extent of its swapchain.
    pub open spec fn has_fixed_extent(&self) -> bool {
        self.current_extent.width != u32::MAX
    }

    /// The smallest allowed extent is no larger than the largest, in both directions.
    pub open spec fn extent_bounds_ordered(&self) -> bool {
        &&& self.min_image_extent.width <= self.max_image_extent.width
        &&& self.min_image_extent.height <= self.max_image_extent.height
    }

    /// `extent` lies between the smallest and the largest allowed extent.
    pub open spec fn admits(&self, extent: Extent2D) -> bool {
        &&& self.min_image_extent.width <= extent.width <= self.max_image_extent.width
        &&& self.min_image_extent.height <= extent.height <= self.max_image_extent.height
    }

    /// One image more than the minimum, capped by the maximum where there is one.
    pub open spec fn image_count(&self) -> int {
        if self.max_image_count > 0 && self.min_image_count + 1 > self.max_image_count {
            self.max_image_count as int
        } else {
            self.min_image_count + 1
        }
    }
}

/// The extent that the rule picks for a window of size `window_size`.
pub open spec fn chosen_extent(
    window_size: Extent2D,
    capabilities: SurfaceCapabilities,
) -> Extent2D {
    if capabilities.has_fixed_extent() {
        capabilities.current_extent
    } else {
        Extent2D {
            width: clamped(
                window_size.width,
                capabilities.min_image_extent.width,
                capabilities.max_image_extent.width,
            ),
            height: clamped(
                window_size.height,
                capabilities.min_image_extent.height,
                capabilities.max_image_extent.height,
            ),
        }
    }
}

fn clamp(value: u32, low: u32, high: u32) -> (r: u32)
    requires
        low <= high,
    ensures
        r == clamped(value, low, high),
        low <= r <= high,
{
    if value < low {
        low
    } else if value > high {
        high
    } else {
        value
    }
}

/// Picks the extent of the swapchain images. A surface with a fixed extent gets
/// exactly that one, whatever the window's size.
pub fn choose_swap_extent(window_size: Extent2D, capabilities: &SurfaceCapabilities) -> (r:
    Extent2D)
    requires
        !capabilities.has_fixed_extent() ==> capabilities.extent_bounds_ordered(),
    ensures
        r == chosen_extent(window_size, *capabilities),
        capabilities.has_fixed_extent() ==> r == capabilities.current_extent,
        !capabilities.has_fixed_extent() ==> capabilities.admits(r),
        !capabilities.has_fixed_extent() && capabilities.admits(window_size) ==> r == window_size,
{
    if capabilities.current_extent.width != u32::MAX {
        capabilities.current_extent
    } else {
        Extent2D {
            width: clamp(
                window_size.width,
                capabilities.min_image_extent.width,
                capabilities.max_image_extent.width,
            ),
            height: clamp(
                window_size.height,
                capabilities.min_image_extent.height,
                capabilities.max_image_extent.height,
            ),
        }
    }
}

/// The number of images to ask for.
pub fn choose_image_count(capabilities: &SurfaceCapabilities) -> (r: u32)
    requires
        capabilities.image_count() <= u32::MAX,
    ensures
        r == capabilities.image_count(),
{
    if capabilities.max_image_count > 0 && capabilities.min_image_count
        >= capabilities.max_image_count {
        capabilities.max_image_count
    } else {
        capabilities.min_image_count + 1
    }
}

/// The parameters with which the swapchain is created.
#[derive(Clone, PartialEq, Eq, Debug)]
pub struct SwapchainCreateInfo {
    pub min_image_count: u32,
    pub image_format: i32,
    pub image_color_space: i32,
    pub image_extent: Extent2D,
    pub present_mode: i32,
    pub image_array_layers: u32,
    pub pre_transform: u32,
    pub composite_alpha: u32,
    pub clipped: bool,
    pub image_usage: u32,
    pub image_sharing_mode: i32,
    /// The families that share the images; empty under exclusive sharing.
    pub queue_family_indices: Vec<u32>,
}

/// Images are shared between two queue families exactly when graphics and
/// presentation use different ones.
pub open spec fn sharing_mode(indices: QueueFamilyIndices) -> i32 {
    if indices.graphics_queue != indices.present_queue {
        SHARING_MODE_CONCURRENT
    } else {
        SHARING_MODE_EXCLUSIVE
    }
}

/// The families named in the creation parameters.
pub open spec fn sharing_families(indices: QueueFamilyIndices) -> Seq<u32> {
    if indices.graphics_queue != indices.present_queue {
        seq![indices.graphics_queue, indices.present_queue]
    } else {
        Seq::empty()
    }
}

/// What `create_swapchain` needs of its inputs: a format to choose from, ordered
/// extent bounds where the extent is open, and an image count that fits.
pub open spec fn swapchain_inputs_valid(
    capabilities: SurfaceCapabilities,
    formats: Seq<SurfaceFormat>,
) -> bool {
    &&& formats.len() > 0
    &&& !capabilities.has_fixed_extent() ==> capabilities.extent_bounds_ordered()
    &&& capabilities.image_count() <= u32::MAX
}

/// `info` holds the parameters of the swapchain for the surface and the window:
/// the chosen format, extent and image count, mailbox presentation where the
/// surface offers it, one layer, opaque, clipped, used as colour attachment, and
/// shared between the queue families only where there are two.
pub open spec fn is_swapchain_for(
    info: SwapchainCreateInfo,
    window_size: Extent2D,
    capabilities: SurfaceCapabilities,
    formats: Seq<SurfaceFormat>,
    present_modes: Seq<i32>,
    queue_family_indices: QueueFamilyIndices,
) -> bool {
    &&& info.min_image_count == capabilities.image_count()
    &&& info.image_format == chosen_format(formats).format
    &&& info.image_color_space == chosen_format(formats).color_space
    &&& info.image_extent == chosen_extent(window_size, capabilities)
    &&& info.present_mode == chosen_present_mode(present_modes, PRESENT_MODE_MAILBOX)
    &&& info.image_array_layers == 1
    &&& info.pre_transform == capabilities.current_transform
    &&& info.composite_alpha == COMPOSITE_ALPHA_OPAQUE
    &&& info.clipped
    &&& info.image_usage == IMAGE_USAGE_COLOR_ATTACHMENT
    &&& info.image_sharing_mode == sharing_mode(queue_family_indices)
    &&& info.queue_family_indices@ == sharing_families(queue_family_indices)
}

/// Whether `create_swapchain` can work on these inputs.
pub fn can_create_swapchain(capabilities: &SurfaceCapabilities, formats: &Vec<SurfaceFormat>) -> (r:
    bool)
    ensures
        r == swapchain_inputs_valid(*capabilities, formats@),
{
    let open_extent = capabilities.current_extent.width == u32::MAX;
    let ordered = capabilities.min_image_extent.width <= capabilities.max_image_extent.width
        && capabilities.min_image_extent.height <= capabilities.max_image_extent.height;
    let counted = capabilities.min_image_count < u32::MAX || capabilities.max_image_count > 0;
    formats.len() > 0 && (!open_extent || ordered) && counted
}

/// Works out the parameters of the swapchain for a surface: format, present mode
/// (mailbox preferred), extent, image count and sharing mode.
pub fn create_swapchain(
    window_size: Extent2D,
    capabilities: &SurfaceCapabilities,
    formats: &Vec<SurfaceFormat>,
    present_modes: &Vec<i32>,
    queue_family_indices: QueueFamilyIndices,
) -> (info: SwapchainCreateInfo)
    requires
        swapchain_inputs_valid(*capabilities, formats@),
    ensures
        is_swapchain_for(
            info,
            window_size,
            *capabilities,
            formats@,
            present_modes@,
            queue_family_indices,
        ),
{
    let surface_format = choose_swap_surface_format(formats);
    let present_mode = choose_swap_present_mode(present_modes, PRESENT_MODE_MAILBOX);
    let swap_extent = choose_swap_extent(window_size, capabilities);
    let image_count = choose_image_count(capabilities);
    let mut families: Vec<u32> = Vec::new();
    let mut mode = SHARING_MODE_EXCLUSIVE;
    if queue_family_indices.graphics_queue != queue_family_indices.present_queue {
        mode = SHARING_MODE_CONCURRENT;
        families.push(queue_family_indices.graphics_queue);
        families.push(queue_family_indices.present_queue);
        assert(families@ =~= sharing_families(queue_family_indices));
    }
    SwapchainCreateInfo {
        min_image_count: image_count,
        image_format: surface_format.format,
        image_color_space: surface_format.color_space,
        image_extent: swap_extent,
        present_mode,
        image_array_layers: 1,
        pre_transform: capabilities.current_transform,
        composite_alpha: COMPOSITE_ALPHA_OPAQUE,
        clipped: true,
        image_usage: IMAGE_USAGE_COLOR_ATTACHMENT,
        image_sharing_mode: mode,
        queue_family_indices: families,
    }
}

} // verus!
