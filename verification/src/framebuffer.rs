//! Image view and framebuffer planning.
//!
//! The driver decides how many images the swapchain actually holds; from
//! then on every derived sequence — image views, framebuffers — must have
//! exactly one entry per allocated image, in the same order, because the
//! per-frame stage selects `framebuffers[i]` by the image index the
//! presentation engine returns.

use vstd::prelude::*;

use crate::error::BringUpError;
use crate::error::Stage;
use crate::swapchain::Extent2D;

verus! {

/// Configuration of one image view: the swapchain image it wraps and the
/// format to interpret it with.
#[derive(Clone, Copy, Debug, PartialEq, Eq, Structural)]
pub struct ImageViewDesc {
    /// Raw handle of the swapchain image the view wraps.
    pub image: u64,
    /// The view's format; the swapchain's chosen image format.
    pub format: u32,
}

/// Configuration of one framebuffer: its sole attachment and its size.
#[derive(Clone, Copy, Debug, PartialEq, Eq, Structural)]
pub struct FramebufferDesc {
    /// Raw handle of the image view bound as the single attachment.
    pub attachment: u64,
    /// Width in pixels; the swapchain extent's width.
    pub width: u32,
    /// Height in pixels; the swapchain extent's height.
    pub height: u32,
    /// Layer count; always one here.
    pub layers: u32,
}

/// The image view configurations derived from the images the driver
/// allocated: one per image, in order, all with the swapchain's format.
pub open spec fn image_view_descs(images: Seq<u64>, format: u32) -> Seq<ImageViewDesc> {
    images.map_values(|image: u64| ImageViewDesc { image, format })
}

/// The framebuffer configurations derived from the created image views: one
/// per view, in order, each sized to the swapchain extent with one layer.
pub open spec fn framebuffer_descs(views: Seq<u64>, extent: Extent2D) -> Seq<FramebufferDesc> {
    views.map_values(
        |attachment: u64|
            FramebufferDesc {
                attachment,
                width: extent.width,
                height: extent.height,
                layers: 1,
            },
    )
}

/// Plans one view per swapchain image, in image order, with the swapchain's
/// chosen format.
pub fn plan_image_views(images: &Vec<u64>, format: u32) -> (r: Vec<ImageViewDesc>)
    ensures
        r@ == image_view_descs(images@, format),
        r@.len() == images@.len(),
{
    let mut views: Vec<ImageViewDesc> = Vec::new();
    let mut i: usize = 0;
    while i < images.len()
        invariant
            0 <= i <= images@.len(),
            views@ =~= image_view_descs(images@, format).take(i as int),
        decreases images@.len() - i,
    {
        views.push(ImageViewDesc { image: images[i], format });
        i += 1;
    }
    proof {
        assert(views@ =~= image_view_descs(images@, format));
    }
    views
}

/// Plans one framebuffer per created image view, in view order, each
/// referencing exactly that view, sized to the swapchain extent, with one
/// layer. The view count must equal the count of images the driver
/// allocated; a mismatch is a configuration bug and the whole bring-up
/// aborts, with no partial success.
pub fn plan_framebuffers(views: &Vec<u64>, image_count: usize, extent: Extent2D) -> (r: Result<
    Vec<FramebufferDesc>,
    BringUpError,
>)
    ensures
        r is Ok <==> views@.len() == image_count,
        r matches Err(e) ==> e == BringUpError::ConfigurationBug(Stage::Framebuffers),
        r matches Ok(fbs) ==> {
            &&& fbs@ == framebuffer_descs(views@, extent)
            &&& fbs@.len() == image_count
        },
{
    if views.len() != image_count {
        return Err(BringUpError::ConfigurationBug(Stage::Framebuffers));
    }
    let mut fbs: Vec<FramebufferDesc> = Vec::new();
    let mut i: usize = 0;
    while i < views.len()
        invariant
            0 <= i <= views@.len(),
            fbs@ =~= framebuffer_descs(views@, extent).take(i as int),
        decreases views@.len() - i,
    {
        fbs.push(
            FramebufferDesc {
                attachment: views[i],
                width: extent.width,
                height: extent.height,
                layers: 1,
            },
        );
        i += 1;
    }
    proof {
        assert(fbs@ =~= framebuffer_descs(views@, extent));
    }
    Ok(fbs)
}

/// The image-view sequence, and subsequently the framebuffer sequence, has
/// length exactly equal to the number of images the driver actually
/// allocated for the swapchain — not the requested count.
pub proof fn lemma_one_per_allocated_image(
    images: Seq<u64>,
    view_handles: Seq<u64>,
    format: u32,
    extent: Extent2D,
)
    requires
        view_handles.len() == image_view_descs(images, format).len(),
    ensures
        image_view_descs(images, format).len() == images.len(),
        framebuffer_descs(view_handles, extent).len() == images.len(),
        forall|i: int|
            0 <= i < images.len() ==> (#[trigger] image_view_descs(images, format)[i]).image
                == images[i],
        forall|i: int|
            0 <= i < images.len() ==> (#[trigger] framebuffer_descs(view_handles, extent)[i]).attachment
                == view_handles[i],
{
}

} // verus!
