//! Verified decision logic for bringing a GPU rendering context from zero to
//! "ready to draw": device selection, swapchain negotiation, render-pass and
//! pipeline configuration, framebuffer planning, and the teardown order that
//! mirrors creation.
//!
//! The driver calls themselves are opaque foreign calls made by the
//! surrounding application; this crate decides every value those calls are
//! given and owns the lifecycle bookkeeping that makes teardown safe.

pub mod bringup;
pub mod config;
pub mod device;
pub mod error;
pub mod events;
pub mod framebuffer;
pub mod lifecycle;
pub mod render;
pub mod swapchain;

pub use bringup::BringUpPlan;
pub use config::AppConfig;
pub use device::DeviceProfile;
pub use device::LogicalDevicePlan;
pub use device::QueueFamilyCaps;
pub use device::QueueFamilyIndices;
pub use error::BringUpError;
pub use error::Stage;
pub use events::Disposition;
pub use events::LoopEvent;
pub use framebuffer::FramebufferDesc;
pub use framebuffer::ImageViewDesc;
pub use lifecycle::LifecycleOwner;
pub use lifecycle::LifecycleState;
pub use lifecycle::Resource;
pub use lifecycle::ResourceKind;
pub use render::AttachmentDesc;
pub use render::PipelineDesc;
pub use render::RenderPassDesc;
pub use swapchain::Extent2D;
pub use swapchain::SharingMode;
pub use swapchain::SurfaceCapabilities;
pub use swapchain::SurfaceFormat;
pub use swapchain::SwapchainPlan;
