//! Physical device selection and logical device planning.
//!
//! A physical device is summarized as a [`DeviceProfile`] of plain values
//! queried from the driver; selection picks the first profile that passes
//! every capability check, and fails fatally when no device does.

use vstd::prelude::*;

use crate::error::BringUpError;
use crate::error::Stage;
use crate::swapchain::SurfaceCapabilities;
use crate::swapchain::SurfaceFormat;

verus! {

/// What one queue family of a physical device supports.
#[derive(Clone, Copy, Debug, PartialEq, Eq, Structural)]
pub struct QueueFamilyCaps {
    /// The family accepts graphics command buffers.
    pub supports_graphics: bool,
    /// The family can present to the bound surface.
    pub supports_present: bool,
}

/// The chosen graphics and presentation queue family indices. The two may
/// coincide.
#[derive(Clone, Copy, Debug, PartialEq, Eq, Structural)]
pub struct QueueFamilyIndices {
    pub graphics_family: u32,
    pub present_family: u32,
}

/// Everything the selector needs to know about one physical device,
/// queried against the bound surface.
#[derive(Clone, Debug)]
pub struct DeviceProfile {
    /// Capabilities of each queue family, in driver order.
    pub queue_families: Vec<QueueFamilyCaps>,
    /// Every required device extension (at minimum, swapchain support) is
    /// available on this device.
    pub supports_required_extensions: bool,
    /// Surface formats this device can present to the surface.
    pub surface_formats: Vec<SurfaceFormat>,
    /// Present modes this device supports for the surface.
    pub present_modes: Vec<u32>,
    /// Surface capabilities reported for this device.
    pub capabilities: SurfaceCapabilities,
}

impl DeviceProfile {
    /// Some queue family accepts graphics commands.
    pub open spec fn has_graphics_family(self) -> bool {
        exists|i: int|
            0 <= i < self.queue_families@.len() && self.queue_families@[i].supports_graphics
    }

    /// Some queue family can present to the surface.
    pub open spec fn has_present_family(self) -> bool {
        exists|i: int|
            0 <= i < self.queue_families@.len() && self.queue_families@[i].supports_present
    }

    /// The device passes every selection check: a graphics-capable queue
    /// family, a presentation-capable queue family, the required device
    /// extensions, and at least one surface format and one present mode.
    pub open spec fn suitable(self) -> bool {
        &&& self.has_graphics_family()
        &&& self.has_present_family()
        &&& self.supports_required_extensions
        &&& self.surface_formats@.len() > 0
        &&& self.present_modes@.len() > 0
    }
}

/// True iff `i` is the first index of `families` whose capabilities satisfy
/// `graphics` (when asked for graphics) or presentation support.
pub open spec fn first_graphics_family(families: Seq<QueueFamilyCaps>, i: int) -> bool {
    &&& 0 <= i < families.len()
    &&& families[i].supports_graphics
    &&& forall|j: int| 0 <= j < i ==> !families[j].supports_graphics
}

/// True iff `i` is the first index of `families` that can present.
pub open spec fn first_present_family(families: Seq<QueueFamilyCaps>, i: int) -> bool {
    &&& 0 <= i < families.len()
    &&& families[i].supports_present
    &&& forall|j: int| 0 <= j < i ==> !families[j].supports_present
}

/// Index of the first graphics-capable queue family, if any.
pub fn find_graphics_family(families: &Vec<QueueFamilyCaps>) -> (r: Option<u32>)
    requires
        families@.len() <= u32::MAX,
    ensures
        match r {
            Some(i) => first_graphics_family(families@, i as int),
            None => forall|j: int|
                0 <= j < families@.len() ==> !families@[j].supports_graphics,
        },
{
    let mut i: usize = 0;
    while i < families.len()
        invariant
            families@.len() <= u32::MAX,
            0 <= i <= families@.len(),
            forall|j: int| 0 <= j < i ==> !families@[j].supports_graphics,
        decreases families@.len() - i,
    {
        if families[i].supports_graphics {
            return Some(i as u32);
        }
        i += 1;
    }
    None
}

/// Index of the first presentation-capable queue family, if any.
pub fn find_present_family(families: &Vec<QueueFamilyCaps>) -> (r: Option<u32>)
    requires
        families@.len() <= u32::MAX,
    ensures
        match r {
            Some(i) => first_present_family(families@, i as int),
            None => forall|j: int|
                0 <= j < families@.len() ==> !families@[j].supports_present,
        },
{
    let mut i: usize = 0;
    while i < families.len()
        invariant
            families@.len() <= u32::MAX,
            0 <= i <= families@.len(),
            forall|j: int| 0 <= j < i ==> !families@[j].supports_present,
        decreases families@.len() - i,
    {
        if families[i].supports_present {
            return Some(i as u32);
        }
        i += 1;
    }
    None
}

/// The first graphics-capable and first presentation-capable queue family
/// indices, or `None` when either is missing.
pub fn find_queue_families(families: &Vec<QueueFamilyCaps>) -> (r: Option<QueueFamilyIndices>)
    requires
        families@.len() <= u32::MAX,
    ensures
        match r {
            Some(ix) => {
                &&& first_graphics_family(families@, ix.graphics_family as int)
                &&& first_present_family(families@, ix.present_family as int)
            },
            None => {
                ||| forall|j: int|
                    0 <= j < families@.len() ==> !families@[j].supports_graphics
                ||| forall|j: int|
                    0 <= j < families@.len() ==> !families@[j].supports_present
            },
        },
{
    let graphics = find_graphics_family(families);
    let present = find_present_family(families);
    match (graphics, present) {
        (Some(g), Some(p)) => Some(QueueFamilyIndices { graphics_family: g, present_family: p }),
        _ => None,
    }
}

/// Whether the device passes every selection check.
pub fn is_device_suitable(profile: &DeviceProfile) -> (r: bool)
    requires
        profile.queue_families@.len() <= u32::MAX,
    ensures
        r == profile.suitable(),
{
    let indices = find_queue_families(&profile.queue_families);
    indices.is_some() && profile.supports_required_extensions && profile.surface_formats.len()
        > 0 && profile.present_modes.len() > 0
}

/// Enumerated devices are filtered against the required capabilities and the
/// first passing device is selected; ranking by device type is left as an
/// explicitly documented non-goal of this configuration. Fails with
/// `EnvironmentUnsupported` when no device passes all checks.
pub fn pick_physical_device(profiles: &Vec<DeviceProfile>) -> (r: Result<usize, BringUpError>)
    requires
        forall|i: int|
            0 <= i < profiles@.len() ==> (#[trigger] profiles@[i]).queue_families@.len()
                <= u32::MAX,
    ensures
        match r {
            Ok(i) => {
                &&& 0 <= i < profiles@.len()
                &&& profiles@[i as int].suitable()
                &&& forall|j: int| 0 <= j < i ==> !(#[trigger] profiles@[j]).suitable()
            },
            Err(e) => {
                &&& e == BringUpError::EnvironmentUnsupported(Stage::DeviceSelection)
                &&& forall|j: int|
                    0 <= j < profiles@.len() ==> !(#[trigger] profiles@[j]).suitable()
            },
        },
{
    let mut i: usize = 0;
    while i < profiles.len()
        invariant
            forall|k: int|
                0 <= k < profiles@.len() ==> (#[trigger] profiles@[k]).queue_families@.len()
                    <= u32::MAX,
            0 <= i <= profiles@.len(),
            forall|j: int| 0 <= j < i ==> !(#[trigger] profiles@[j]).suitable(),
        decreases profiles@.len() - i,
    {
        if is_device_suitable(&profiles[i]) {
            return Ok(i);
        }
        i += 1;
    }
    Err(BringUpError::EnvironmentUnsupported(Stage::DeviceSelection))
}

/// Every device the selector accepts has both a graphics-capable and a
/// presentation-capable queue family index.
pub proof fn lemma_selected_device_has_queue_families(profiles: Seq<DeviceProfile>, i: int)
    requires
        0 <= i < profiles.len(),
        profiles[i].suitable(),
    ensures
        exists|g: int|
            0 <= g < profiles[i].queue_families@.len()
                && (#[trigger] profiles[i].queue_families@[g]).supports_graphics,
        exists|p: int|
            0 <= p < profiles[i].queue_families@.len()
                && (#[trigger] profiles[i].queue_families@[p]).supports_present,
{
    let fams = profiles[i].queue_families@;
    let g = choose|g: int| 0 <= g < fams.len() && fams[g].supports_graphics;
    assert(0 <= g < fams.len() && fams[g].supports_graphics);
    let p = choose|p: int| 0 <= p < fams.len() && fams[p].supports_present;
    assert(0 <= p < fams.len() && fams[p].supports_present);
}

/// Plan for logical device creation: one queue is requested per distinct
/// queue family index, and validation layers are re-enabled on the device
/// when the instance enabled them.
#[derive(Clone, Debug)]
pub struct LogicalDevicePlan {
    /// The distinct queue family indices to create one queue each for.
    pub queue_family_indices: Vec<u32>,
    /// Whether the instance's validation layers are enabled on the device.
    pub enable_validation: bool,
}

/// Builds the logical device plan from the selected queue family indices.
pub fn plan_logical_device(indices: QueueFamilyIndices, validation_enabled: bool) -> (r:
    LogicalDevicePlan)
    ensures
        indices.graphics_family == indices.present_family ==> r.queue_family_indices@ =~= seq![
            indices.graphics_family,
        ],
        indices.graphics_family != indices.present_family ==> r.queue_family_indices@ =~= seq![
            indices.graphics_family,
            indices.present_family,
        ],
        r.queue_family_indices@.contains(indices.graphics_family),
        r.queue_family_indices@.contains(indices.present_family),
        forall|i: int, j: int|
            0 <= i < j < r.queue_family_indices@.len() ==> r.queue_family_indices@[i]
                != r.queue_family_indices@[j],
        r.enable_validation == validation_enabled,
{
    let mut queue_family_indices: Vec<u32> = Vec::new();
    queue_family_indices.push(indices.graphics_family);
    if indices.present_family != indices.graphics_family {
        queue_family_indices.push(indices.present_family);
        proof {
            assert(queue_family_indices@[0] == indices.graphics_family);
            assert(queue_family_indices@[1] == indices.present_family);
        }
    } else {
        proof {
            assert(queue_family_indices@[0] == indices.graphics_family);
        }
    }
    LogicalDevicePlan { queue_family_indices, enable_validation: validation_enabled }
}

} // verus!
