//! The bring-up plan: every decision of the whole sequence, made before the
//! first driver creation call that depends on it.
//!
//! Data flows strictly downward — instance, surface, physical device,
//! logical device and queues, swapchain, image views, render pass,
//! pipeline, framebuffers — and the compatibility constraints (format,
//! extent, attachment layout) are threaded consistently through every later
//! stage. The planner proves that threading: the render pass attachment
//! carries the swapchain's chosen format and the pipeline's viewport the
//! swapchain's chosen extent.

use vstd::prelude::*;

use crate::config::AppConfig;
use crate::device::DeviceProfile;
use crate::device::LogicalDevicePlan;
use crate::device::QueueFamilyIndices;
use crate::device::find_queue_families;
use crate::device::first_graphics_family;
use crate::device::first_present_family;
use crate::device::pick_physical_device;
use crate::device::plan_logical_device;
use crate::error::BringUpError;
use crate::error::Stage;
use crate::render::PipelineDesc;
use crate::render::RenderPassDesc;
use crate::render::build_pipeline_desc;
use crate::render::build_render_pass_desc;
use crate::swapchain::SwapchainPlan;
use crate::swapchain::chosen_extent;
use crate::swapchain::chosen_format;
use crate::swapchain::chosen_image_count;
use crate::swapchain::chosen_present_mode;
use crate::swapchain::chosen_sharing_mode;
use crate::swapchain::plan_swapchain;

verus! {

/// Every decision of the bring-up sequence, fixed before the dependent
/// driver calls are made.
#[derive(Clone, Debug)]
pub struct BringUpPlan {
    /// Index of the selected physical device among the enumerated ones.
    pub device_index: usize,
    /// The selected graphics and presentation queue family indices.
    pub queue_families: QueueFamilyIndices,
    /// The logical device configuration.
    pub logical_device: LogicalDevicePlan,
    /// The negotiated swapchain configuration.
    pub swapchain: SwapchainPlan,
    /// The render pass configuration; its sole attachment carries the
    /// swapchain's chosen format.
    pub render_pass: RenderPassDesc,
    /// The fixed pipeline configuration; its viewport and scissor carry the
    /// swapchain's chosen extent, bound at subpass zero.
    pub pipeline: PipelineDesc,
}

/// All well-formedness the planner needs of the enumerated devices: queue
/// family lists small enough to index with 32 bits, and well-formed
/// capability reports.
pub open spec fn profiles_wf(profiles: Seq<DeviceProfile>) -> bool {
    forall|i: int|
        0 <= i < profiles.len() ==> {
            &&& (#[trigger] profiles[i]).queue_families@.len() <= u32::MAX
            &&& profiles[i].capabilities.wf()
        }
}

/// Plans the whole bring-up from what the driver reported about the
/// enumerated physical devices. Selection takes the first suitable device;
/// the negotiation and all fixed-function configuration follow from that
/// device's report and the window configuration. Fails with
/// `EnvironmentUnsupported` — before any driver handle is created — exactly
/// when no device passes every check.
pub fn plan_bring_up(profiles: &Vec<DeviceProfile>, config: &AppConfig) -> (r: Result<
    BringUpPlan,
    BringUpError,
>)
    requires
        profiles_wf(profiles@),
    ensures
        r is Ok <==> exists|i: int| 0 <= i < profiles@.len() && (#[trigger] profiles@[i]).suitable(),
        r matches Err(e) ==> e == BringUpError::EnvironmentUnsupported(Stage::DeviceSelection),
        r matches Ok(plan) ==> {
            let d = profiles@[plan.device_index as int];
            &&& 0 <= plan.device_index < profiles@.len()
            &&& d.suitable()
            &&& forall|j: int| 0 <= j < plan.device_index ==> !(#[trigger] profiles@[j]).suitable()
            &&& first_graphics_family(d.queue_families@, plan.queue_families.graphics_family as int)
            &&& first_present_family(d.queue_families@, plan.queue_families.present_family as int)
            &&& plan.logical_device.enable_validation == config.validation_enabled
            &&& plan.logical_device.queue_family_indices@.contains(
                plan.queue_families.graphics_family,
            )
            &&& plan.logical_device.queue_family_indices@.contains(
                plan.queue_families.present_family,
            )
            &&& plan.swapchain.format == chosen_format(d.surface_formats@)
            &&& plan.swapchain.present_mode == chosen_present_mode(d.present_modes@)
            &&& plan.swapchain.extent == chosen_extent(
                d.capabilities,
                config.window_width,
                config.window_height,
            )
            &&& plan.swapchain.image_count == chosen_image_count(d.capabilities)
            &&& plan.swapchain.sharing_mode == chosen_sharing_mode(plan.queue_families)
            &&& plan.render_pass.compatible_with_format(plan.swapchain.format.format)
            &&& plan.pipeline.sized_to(plan.swapchain.extent)
            &&& plan.pipeline.subpass == 0
        },
{
    let device_index = match pick_physical_device(profiles) {
        Ok(i) => i,
        Err(e) => {
            return Err(e);
        },
    };
    let device = &profiles[device_index];
    let queue_families = match find_queue_families(&device.queue_families) {
        Some(ix) => ix,
        None => {
            // Unreachable: a suitable device has both queue families.
            return Err(BringUpError::EnvironmentUnsupported(Stage::DeviceSelection));
        },
    };
    let logical_device = plan_logical_device(queue_families, config.validation_enabled);
    let swapchain = match plan_swapchain(
        &device.surface_formats,
        &device.present_modes,
        &device.capabilities,
        config.window_width,
        config.window_height,
        queue_families,
    ) {
        Ok(p) => p,
        Err(_) => {
            // Unreachable: a suitable device offers a format and a mode.
            return Err(BringUpError::EnvironmentUnsupported(Stage::DeviceSelection));
        },
    };
    let render_pass = build_render_pass_desc(swapchain.format.format);
    let pipeline = build_pipeline_desc(swapchain.extent);
    Ok(
        BringUpPlan {
            device_index,
            queue_families,
            logical_device,
            swapchain,
            render_pass,
            pipeline,
        },
    )
}

} // verus!
