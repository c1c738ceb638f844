//! Choice of queue families and the suitability score of an adapter.

use vstd::prelude::*;
use crate::engine_core::swapchain::SurfaceFormat;
use crate::engine_core::vk::{
    flags_contain, queue_flags_contain, PHYSICAL_DEVICE_TYPE_DISCRETE_GPU, QUEUE_GRAPHICS,
};

verus! {

/// The queue families chosen for one adapter: where graphics commands go and where
/// images are presented. The two may be the same family.
#[derive(Clone, Copy, PartialEq, Eq, Structural, Debug)]
pub struct QueueFamilyIndices {
    pub graphics_queue: u32,
    pub present_queue: u32,
}

impl QueueFamilyIndices {
    /// Copies the two indices into an array, graphics first.
    pub fn array(&self) -> (r: [u32; 2])
        ensures
            r@ == seq![self.graphics_queue, self.present_queue],
    {
        let r: [u32; 2] = [self.graphics_queue, self.present_queue];
        r
    }
}

/// What the selector reads of one queue family: its capability bits and whether it
/// can present to the target surface.
#[derive(Clone, Copy, PartialEq, Eq, Structural, Debug)]
pub struct QueueFamily {
    pub queue_flags: u32,
    pub supports_present: bool,
}

impl QueueFamily {
    pub open spec fn has_graphics(&self) -> bool {
        flags_contain(self.queue_flags, QUEUE_GRAPHICS)
    }
}

/// `i` is the lowest index of a family with graphics support.
pub open spec fn is_first_graphics(families: Seq<QueueFamily>, i: int) -> bool {
    &&& 0 <= i < families.len()
    &&& families[i].has_graphics()
    &&& forall|j: int| 0 <= j < i ==> !(#[trigger] families[j]).has_graphics()
}

/// `i` is the lowest index of a family that can present.
pub open spec fn is_first_present(families: Seq<QueueFamily>, i: int) -> bool {
    &&& 0 <= i < families.len()
    &&& families[i].supports_present
    &&& forall|j: int| 0 <= j < i ==> !(#[trigger] families[j]).supports_present
}

pub open spec fn any_graphics(families: Seq<QueueFamily>) -> bool {
    exists|i: int| 0 <= i < families.len() && (#[trigger] families[i]).has_graphics()
}

pub open spec fn any_present(families: Seq<QueueFamily>) -> bool {
    exists|i: int| 0 <= i < families.len() && (#[trigger] families[i]).supports_present
}

/// Both kinds of queue are on offer.
pub open spec fn has_queue_families(families: Seq<QueueFamily>) -> bool {
    any_graphics(families) && any_present(families)
}

/// Scans the families in index order and keeps, independently, the first with
/// graphics support and the first that can present.
pub fn find_queue_families(families: &Vec<QueueFamily>) -> (r: Option<QueueFamilyIndices>)
    requires
        families@.len() <= u32::MAX,
    ensures
        r is Some <==> has_queue_families(families@),
        r matches Some(q) ==> is_first_graphics(families@, q.graphics_queue as int)
            && is_first_present(families@, q.present_queue as int),
{
    let mut graphics: Option<u32> = None;
    let mut present: Option<u32> = None;
    let mut i: usize = 0;
    while i < families.len()
        invariant
            i <= families@.len() <= u32::MAX,
            graphics is None || present is None,
            match graphics {
                Some(g) => is_first_graphics(families@, g as int) && g < i,
                None => forall|j: int| 0 <= j < i ==> !(#[trigger] families@[j]).has_graphics(),
            },
            match present {
                Some(p) => is_first_present(families@, p as int) && p < i,
                None => forall|j: int| 0 <= j < i ==> !(#[trigger] families@[j]).supports_present,
            },
        decreases families@.len() - i,
    {
        let family = families[i];
        if graphics.is_none() && queue_flags_contain(family.queue_flags, QUEUE_GRAPHICS) {
            graphics = Some(i as u32);
        }
        if present.is_none() && family.supports_present {
            present = Some(i as u32);
        }
        if let (Some(g), Some(p)) = (graphics, present) {
            return Some(QueueFamilyIndices { graphics_queue: g, present_queue: p });
        }
        i += 1;
    }
    None
}

/// What the selector reads of one physical adapter.
#[derive(Clone, Debug)]
pub struct Adapter {
    pub device_type: i32,
    pub max_image_dimension2_d: u32,
    pub geometry_shader: bool,
    /// Names of the device extensions on offer.
    pub extensions: Vec<String>,
    /// Formats and present modes of the target surface on this adapter.
    pub surface_formats: Vec<SurfaceFormat>,
    pub present_modes: Vec<i32>,
    pub queue_families: Vec<QueueFamily>,
}

/// The extension `name` is among `available`.
pub open spec fn offers_extension(available: Seq<String>, name: Seq<char>) -> bool {
    exists|j: int| 0 <= j < available.len() && (#[trigger] available[j])@ == name
}

/// Every name of `required` occurs in `available`.
pub open spec fn supports_extensions(available: Seq<String>, required: Seq<Seq<char>>) -> bool {
    forall|i: int| 0 <= i < required.len() ==> offers_extension(available, #[trigger] required[i])
}

/// The names that the strings spell.
pub open spec fn names(strings: Seq<String>) -> Seq<Seq<char>> {
    strings.map_values(|s: String| s@)
}

/// Whether the adapter offers every required device extension.
pub fn check_device_extension_support(available: &Vec<String>, required: &Vec<String>) -> (r: bool)
    ensures
        r == supports_extensions(available@, names(required@)),
{
    let mut i: usize = 0;
    while i < required.len()
        invariant
            i <= required@.len(),
            forall|k: int| 0 <= k < i ==> offers_extension(available@, #[trigger] required@[k]@),
        decreases required@.len() - i,
    {
        let mut found = false;
        let mut j: usize = 0;
        while j < available.len() && !found
            invariant
                i < required@.len(),
                j <= available@.len(),
                found ==> offers_extension(available@, required@[i as int]@),
                !found ==> forall|m: int|
                    0 <= m < j ==> (#[trigger] available@[m])@ != required@[i as int]@,
            decreases available@.len() - j + (if found { 0int } else { 1int }),
        {
            if available[j] == required[i] {
                found = true;
            } else {
                j += 1;
            }
        }
        if !found {
            assert(names(required@)[i as int] == required@[i as int]@);
            return false;
        }
        i += 1;
    }
    assert forall|k: int| 0 <= k < names(required@).len() implies offers_extension(
        available@,
        #[trigger] names(required@)[k],
    ) by {
    }
    true
}

impl Adapter {
    /// The adapter can serve as the render device at all.
    pub open spec fn qualifies(&self, required: Seq<Seq<char>>) -> bool {
        &&& supports_extensions(self.extensions@, required)
        &&& self.geometry_shader
        &&& self.surface_formats@.len() > 0
        &&& self.present_modes@.len() > 0
        &&& has_queue_families(self.queue_families@)
    }

    /// The score: zero for an adapter that does not qualify, otherwise the largest
    /// image dimension, plus 1000 for a discrete GPU.
    pub open spec fn suitability(&self, required: Seq<Seq<char>>) -> int {
        if self.qualifies(required) {
            self.max_image_dimension2_d + if self.device_type
                == PHYSICAL_DEVICE_TYPE_DISCRETE_GPU {
                1000int
            } else {
                0int
            }
        } else {
            0
        }
    }
}

/// How good is an adapter? Zero means that it cannot be used.
pub fn device_suitability(adapter: &Adapter, required: &Vec<String>) -> (score: u64)
    requires
        adapter.queue_families@.len() <= u32::MAX,
    ensures
        score == adapter.suitability(names(required@)),
{
    if !check_device_extension_support(&adapter.extensions, required) {
        return 0;
    }
    if !adapter.geometry_shader || adapter.surface_formats.len() == 0
        || adapter.present_modes.len() == 0 {
        return 0;
    }
    if find_queue_families(&adapter.queue_families).is_none() {
        return 0;
    }
    let mut score: u64 = 0;
    if adapter.device_type == PHYSICAL_DEVICE_TYPE_DISCRETE_GPU {
        score += 1000;
    }
    score += adapter.max_image_dimension2_d as u64;
    score
}

} // verus!
