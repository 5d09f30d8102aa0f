//! Fatal failure taxonomy for the bring-up sequence.
//!
//! Every stage either yields a usable handle or fails fatally: there is no
//! retry policy, because a failure at any stage means every later resource
//! in the dependency chain cannot exist. A failure carries the stage at
//! which it occurred, and the process reports a descriptive message naming
//! that stage before terminating.

use vstd::prelude::*;
use vstd::string::StringExecFns;

verus! {

/// The stages of the bring-up sequence, in creation order.
#[derive(Clone, Copy, Debug, PartialEq, Eq, Structural)]
pub enum Stage {
    Instance,
    Surface,
    DebugReporter,
    DeviceSelection,
    LogicalDevice,
    Swapchain,
    ImageViews,
    RenderPass,
    Pipeline,
    Framebuffers,
}

/// Why bring-up failed. All three classes are fatal and unrecoverable at
/// this layer.
#[derive(Clone, Copy, Debug, PartialEq, Eq, Structural)]
pub enum BringUpError {
    /// No physical device satisfies the requirements, or the surface offers
    /// no usable format / present-mode intersection.
    EnvironmentUnsupported(Stage),
    /// A creation call returned a non-success status.
    DriverRejected(Stage),
    /// An internal invariant was violated despite fixed inputs.
    ConfigurationBug(Stage),
}

impl Stage {
    /// The short name identifying the stage in failure messages.
    pub open spec fn name_spec(&self) -> Seq<char> {
        match self {
            Stage::Instance => "instance creation"@,
            Stage::Surface => "surface binding"@,
            Stage::DebugReporter => "debug reporter setup"@,
            Stage::DeviceSelection => "physical device selection"@,
            Stage::LogicalDevice => "logical device creation"@,
            Stage::Swapchain => "swapchain creation"@,
            Stage::ImageViews => "image view creation"@,
            Stage::RenderPass => "render pass creation"@,
            Stage::Pipeline => "pipeline creation"@,
            Stage::Framebuffers => "framebuffer creation"@,
        }
    }

    /// A short human-readable name identifying which stage failed.
    pub fn describe(&self) -> (r: String)
        ensures
            r@ == self.name_spec(),
    {
        match self {
            Stage::Instance => "instance creation".to_string(),
            Stage::Surface => "surface binding".to_string(),
            Stage::DebugReporter => "debug reporter setup".to_string(),
            Stage::DeviceSelection => "physical device selection".to_string(),
            Stage::LogicalDevice => "logical device creation".to_string(),
            Stage::Swapchain => "swapchain creation".to_string(),
            Stage::ImageViews => "image view creation".to_string(),
            Stage::RenderPass => "render pass creation".to_string(),
            Stage::Pipeline => "pipeline creation".to_string(),
            Stage::Framebuffers => "framebuffer creation".to_string(),
        }
    }
}

impl BringUpError {
    /// The stage recorded in the error.
    pub open spec fn stage_spec(&self) -> Stage {
        match self {
            BringUpError::EnvironmentUnsupported(s) => *s,
            BringUpError::DriverRejected(s) => *s,
            BringUpError::ConfigurationBug(s) => *s,
        }
    }

    /// The stage at which the failure occurred.
    pub fn stage(&self) -> (r: Stage)
        ensures
            r == self.stage_spec(),
    {
        match self {
            BringUpError::EnvironmentUnsupported(s) => *s,
            BringUpError::DriverRejected(s) => *s,
            BringUpError::ConfigurationBug(s) => *s,
        }
    }

    /// The descriptive message: the failure class, then the failing stage.
    pub open spec fn message_spec(&self) -> Seq<char> {
        match self {
            BringUpError::EnvironmentUnsupported(s) => "environment unsupported at "@
                + s.name_spec(),
            BringUpError::DriverRejected(s) => "driver rejected "@ + s.name_spec(),
            BringUpError::ConfigurationBug(s) => "configuration bug at "@ + s.name_spec(),
        }
    }

    /// A descriptive message identifying the failure class and stage.
    pub fn describe(&self) -> (r: String)
        ensures
            r@ == self.message_spec(),
    {
        let stage_text = self.stage().describe();
        let mut out = match self {
            BringUpError::EnvironmentUnsupported(_) => "environment unsupported at ".to_string(),
            BringUpError::DriverRejected(_) => "driver rejected ".to_string(),
            BringUpError::ConfigurationBug(_) => "configuration bug at ".to_string(),
        };
        out.append(stage_text.as_str());
        out
    }
}

} // verus!
