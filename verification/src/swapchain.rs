//! Swapchain negotiation: surface format, present mode, extent, image
//! count, and image sharing mode.
//!
//! Each choice is a total function of the values the driver reported, so the
//! whole negotiation is decided before the swapchain creation call is made.

use vstd::prelude::*;

use crate::device::QueueFamilyIndices;
use crate::error::BringUpError;
use crate::error::Stage;

verus! {

/// Image format code for 8-bit-per-channel BGRA, the preferred swapchain
/// format of this configuration.
pub const FORMAT_B8G8R8A8_UNORM: u32 = 44;

/// Color space code for sRGB non-linear, the preferred color space.
pub const COLOR_SPACE_SRGB_NONLINEAR: u32 = 0;

/// Present mode code for low-latency triple buffering.
pub const PRESENT_MODE_MAILBOX: u32 = 1;

/// Present mode code for the queue-backed mode every implementation
/// supports.
pub const PRESENT_MODE_FIFO: u32 = 2;

/// Extent width reported by a surface that leaves the extent to the
/// swapchain (an indefinite current extent).
pub const INDEFINITE_EXTENT: u32 = 0xFFFF_FFFF;

/// A surface format: an image format paired with a color space.
#[derive(Clone, Copy, Debug, PartialEq, Eq, Structural)]
pub struct SurfaceFormat {
    pub format: u32,
    pub color_space: u32,
}

/// Width and height in pixels.
#[derive(Clone, Copy, Debug, PartialEq, Eq, Structural)]
pub struct Extent2D {
    pub width: u32,
    pub height: u32,
}

/// Surface capabilities reported by the driver: image count bounds, the
/// current extent, and the extent bounds.
#[derive(Clone, Copy, Debug, PartialEq, Eq, Structural)]
pub struct SurfaceCapabilities {
    /// Fewest images the surface supports in a swapchain.
    pub min_image_count: u32,
    /// Most images the surface supports; zero means unbounded.
    pub max_image_count: u32,
    /// The surface's current extent; a width of [`INDEFINITE_EXTENT`] means
    /// the surface lets the swapchain pick within the bounds below.
    pub current_extent: Extent2D,
    pub min_image_extent: Extent2D,
    pub max_image_extent: Extent2D,
}

/// How swapchain images are shared between the graphics and presentation
/// queue families.
#[derive(Clone, Copy, Debug, PartialEq, Eq, Structural)]
pub enum SharingMode {
    /// One queue family owns the images.
    Exclusive,
    /// The images are shared concurrently across both families.
    Concurrent,
}

impl SurfaceCapabilities {
    /// The surface reports a definite current extent.
    pub open spec fn extent_definite(self) -> bool {
        self.current_extent.width != INDEFINITE_EXTENT
    }

    /// Well-formedness of a driver capabilities report: the extent bounds
    /// are ordered, a definite current extent lies within them, and the
    /// image count bounds are ordered and leave room to request one more
    /// image than the minimum.
    pub open spec fn wf(self) -> bool {
        &&& self.min_image_extent.width <= self.max_image_extent.width
        &&& self.min_image_extent.height <= self.max_image_extent.height
        &&& self.extent_definite() ==> {
            &&& self.min_image_extent.width <= self.current_extent.width
                <= self.max_image_extent.width
            &&& self.min_image_extent.height <= self.current_extent.height
                <= self.max_image_extent.height
        }
        &&& self.min_image_count >= 1
        &&& self.min_image_count < u32::MAX
        &&& self.max_image_count != 0 ==> self.min_image_count <= self.max_image_count
    }
}

/// The preferred surface format: 8-bit-per-channel BGRA in sRGB non-linear
/// color space.
pub open spec fn preferred_format() -> SurfaceFormat {
    SurfaceFormat { format: FORMAT_B8G8R8A8_UNORM, color_space: COLOR_SPACE_SRGB_NONLINEAR }
}

/// The format the negotiation picks from a non-empty list: the preferred
/// format when offered, else the first offered format.
pub open spec fn chosen_format(formats: Seq<SurfaceFormat>) -> SurfaceFormat
    recommends
        formats.len() > 0,
{
    if formats.contains(preferred_format()) {
        preferred_format()
    } else {
        formats[0]
    }
}

/// Picks the surface format. Fails with `EnvironmentUnsupported` when the
/// surface offers no format at all, before any swapchain handle exists.
pub fn choose_surface_format(formats: &Vec<SurfaceFormat>) -> (r: Result<
    SurfaceFormat,
    BringUpError,
>)
    ensures
        formats@.len() == 0 <==> r is Err,
        r matches Err(e) ==> e == BringUpError::EnvironmentUnsupported(Stage::Swapchain),
        r matches Ok(f) ==> f == chosen_format(formats@),
{
    if formats.len() == 0 {
        return Err(BringUpError::EnvironmentUnsupported(Stage::Swapchain));
    }
    let mut i: usize = 0;
    while i < formats.len()
        invariant
            formats@.len() > 0,
            0 <= i <= formats@.len(),
            forall|j: int| 0 <= j < i ==> formats@[j] != preferred_format(),
        decreases formats@.len() - i,
    {
        let f = formats[i];
        if f.format == FORMAT_B8G8R8A8_UNORM && f.color_space == COLOR_SPACE_SRGB_NONLINEAR {
            assert(formats@[i as int] == preferred_format());
            return Ok(f);
        }
        i += 1;
    }
    assert(!formats@.contains(preferred_format()));
    Ok(formats[0])
}

/// The present mode the negotiation picks: mailbox (low-latency triple
/// buffering) when offered, else FIFO, which every implementation supports.
pub open spec fn chosen_present_mode(modes: Seq<u32>) -> u32 {
    if modes.contains(PRESENT_MODE_MAILBOX) {
        PRESENT_MODE_MAILBOX
    } else {
        PRESENT_MODE_FIFO
    }
}

/// Picks the present mode.
pub fn choose_present_mode(modes: &Vec<u32>) -> (r: u32)
    ensures
        r == chosen_present_mode(modes@),
{
    let mut i: usize = 0;
    while i < modes.len()
        invariant
            0 <= i <= modes@.len(),
            forall|j: int| 0 <= j < i ==> modes@[j] != PRESENT_MODE_MAILBOX,
        decreases modes@.len() - i,
    {
        if modes[i] == PRESENT_MODE_MAILBOX {
            assert(modes@.contains(PRESENT_MODE_MAILBOX));
            return PRESENT_MODE_MAILBOX;
        }
        i += 1;
    }
    assert(!modes@.contains(PRESENT_MODE_MAILBOX));
    PRESENT_MODE_FIFO
}

/// `x` clamped into `[lo, hi]`.
pub open spec fn clamped(x: u32, lo: u32, hi: u32) -> u32 {
    if x < lo {
        lo
    } else if x > hi {
        hi
    } else {
        x
    }
}

/// The extent the negotiation picks: the surface's definite current extent
/// when it reports one, else the window dimensions clamped into the
/// surface's extent bounds.
pub open spec fn chosen_extent(
    caps: SurfaceCapabilities,
    window_width: u32,
    window_height: u32,
) -> Extent2D {
    if caps.extent_definite() {
        caps.current_extent
    } else {
        Extent2D {
            width: clamped(
                window_width,
                caps.min_image_extent.width,
                caps.max_image_extent.width,
            ),
            height: clamped(
                window_height,
                caps.min_image_extent.height,
                caps.max_image_extent.height,
            ),
        }
    }
}

/// Clamps `x` into `[lo, hi]`.
fn clamp_u32(x: u32, lo: u32, hi: u32) -> (r: u32)
    requires
        lo <= hi,
    ensures
        r == clamped(x, lo, hi),
{
    if x < lo {
        lo
    } else if x > hi {
        hi
    } else {
        x
    }
}

/// Picks the swapchain extent.
pub fn choose_swapchain_extent(
    caps: &SurfaceCapabilities,
    window_width: u32,
    window_height: u32,
) -> (r: Extent2D)
    requires
        caps.wf(),
    ensures
        r == chosen_extent(*caps, window_width, window_height),
{
    if caps.current_extent.width != INDEFINITE_EXTENT {
        caps.current_extent
    } else {
        Extent2D {
            width: clamp_u32(
                window_width,
                caps.min_image_extent.width,
                caps.max_image_extent.width,
            ),
            height: clamp_u32(
                window_height,
                caps.min_image_extent.height,
                caps.max_image_extent.height,
            ),
        }
    }
}

/// The chosen extent always lies within the extent bounds the surface
/// reported, for every well-formed capabilities value, including the
/// degenerate case where the bounds coincide.
pub proof fn lemma_extent_within_bounds(
    caps: SurfaceCapabilities,
    window_width: u32,
    window_height: u32,
)
    requires
        caps.wf(),
    ensures
        caps.min_image_extent.width <= chosen_extent(caps, window_width, window_height).width
            <= caps.max_image_extent.width,
        caps.min_image_extent.height <= chosen_extent(caps, window_width, window_height).height
            <= caps.max_image_extent.height,
{
}

/// The image count the negotiation requests: one more than the minimum, so
/// the application never waits on the driver for the next image, clamped to
/// the maximum when the surface reports a bounded one.
pub open spec fn chosen_image_count(caps: SurfaceCapabilities) -> u32
    recommends
        caps.wf(),
{
    let desired = (caps.min_image_count + 1) as u32;
    if caps.max_image_count != 0 && desired > caps.max_image_count {
        caps.max_image_count
    } else {
        desired
    }
}

/// Picks the number of swapchain images to request.
pub fn choose_image_count(caps: &SurfaceCapabilities) -> (r: u32)
    requires
        caps.wf(),
    ensures
        r == chosen_image_count(*caps),
        r >= caps.min_image_count,
        caps.max_image_count != 0 ==> r <= caps.max_image_count,
{
    let desired = caps.min_image_count + 1;
    if caps.max_image_count != 0 && desired > caps.max_image_count {
        caps.max_image_count
    } else {
        desired
    }
}

/// The sharing mode the negotiation picks: concurrent sharing across the two
/// families when graphics and presentation differ, exclusive otherwise.
pub open spec fn chosen_sharing_mode(indices: QueueFamilyIndices) -> SharingMode {
    if indices.graphics_family == indices.present_family {
        SharingMode::Exclusive
    } else {
        SharingMode::Concurrent
    }
}

/// Picks the image sharing mode.
pub fn choose_sharing_mode(indices: QueueFamilyIndices) -> (r: SharingMode)
    ensures
        r == chosen_sharing_mode(indices),
{
    if indices.graphics_family == indices.present_family {
        SharingMode::Exclusive
    } else {
        SharingMode::Concurrent
    }
}

/// The complete negotiated swapchain configuration.
#[derive(Clone, Debug)]
pub struct SwapchainPlan {
    /// The chosen surface format; immutable for the bundle's lifetime.
    pub format: SurfaceFormat,
    /// The chosen present mode code.
    pub present_mode: u32,
    /// The chosen extent; immutable for the bundle's lifetime.
    pub extent: Extent2D,
    /// The number of images to request; the driver may allocate more.
    pub image_count: u32,
    /// How the images are shared between the two queue families.
    pub sharing_mode: SharingMode,
    /// The queue family indices the images are shared across: both families
    /// under concurrent sharing, the single family under exclusive sharing.
    pub shared_queue_families: Vec<u32>,
}

/// Negotiates the whole swapchain configuration from what the driver
/// reported. Fails with `EnvironmentUnsupported`, before any swapchain
/// handle exists, when the surface offers no format or no present mode.
pub fn plan_swapchain(
    formats: &Vec<SurfaceFormat>,
    modes: &Vec<u32>,
    caps: &SurfaceCapabilities,
    window_width: u32,
    window_height: u32,
    indices: QueueFamilyIndices,
) -> (r: Result<SwapchainPlan, BringUpError>)
    requires
        caps.wf(),
    ensures
        r is Err <==> formats@.len() == 0 || modes@.len() == 0,
        r matches Err(e) ==> e == BringUpError::EnvironmentUnsupported(Stage::Swapchain),
        r matches Ok(plan) ==> {
            &&& plan.format == chosen_format(formats@)
            &&& plan.present_mode == chosen_present_mode(modes@)
            &&& plan.extent == chosen_extent(*caps, window_width, window_height)
            &&& plan.image_count == chosen_image_count(*caps)
            &&& plan.sharing_mode == chosen_sharing_mode(indices)
            &&& (plan.sharing_mode is Concurrent ==> plan.shared_queue_families@ =~= seq![
                indices.graphics_family,
                indices.present_family,
            ])
            &&& (plan.sharing_mode is Exclusive ==> plan.shared_queue_families@ =~= seq![
                indices.graphics_family,
            ])
        },
{
    if modes.len() == 0 {
        return Err(BringUpError::EnvironmentUnsupported(Stage::Swapchain));
    }
    let format = match choose_surface_format(formats) {
        Ok(f) => f,
        Err(e) => {
            return Err(e);
        },
    };
    let present_mode = choose_present_mode(modes);
    let extent = choose_swapchain_extent(caps, window_width, window_height);
    let image_count = choose_image_count(caps);
    let sharing_mode = choose_sharing_mode(indices);
    let mut shared_queue_families: Vec<u32> = Vec::new();
    shared_queue_families.push(indices.graphics_family);
    if indices.graphics_family != indices.present_family {
        shared_queue_families.push(indices.present_family);
    }
    Ok(
        SwapchainPlan {
            format,
            present_mode,
            extent,
            image_count,
            sharing_mode,
            shared_queue_families,
        },
    )
}

} // verus!
