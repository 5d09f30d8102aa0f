//! Render pass and graphics pipeline configuration.
//!
//! Both are fixed for the process lifetime; the builders here compute every
//! field the creation calls are given, so the compatibility constraints —
//! attachment format equal to the swapchain format, viewport equal to the
//! swapchain extent, subpass index zero — are decided and proved before any
//! driver call.

use vstd::prelude::*;

use crate::swapchain::Extent2D;

verus! {

/// Attachment load operation code: clear the attachment on load.
pub const LOAD_OP_CLEAR: u32 = 1;

/// Attachment load operation code: contents may be discarded.
pub const LOAD_OP_DONT_CARE: u32 = 2;

/// Attachment store operation code: keep the rendered contents.
pub const STORE_OP_STORE: u32 = 0;

/// Attachment store operation code: contents may be discarded.
pub const STORE_OP_DONT_CARE: u32 = 1;

/// Image layout code: contents undefined, discarded on first use.
pub const LAYOUT_UNDEFINED: u32 = 0;

/// Image layout code: optimal for use as a color attachment.
pub const LAYOUT_COLOR_ATTACHMENT_OPTIMAL: u32 = 2;

/// Image layout code: ready for presentation.
pub const LAYOUT_PRESENT_SRC: u32 = 1000001002;

/// Primitive topology code: triangle list.
pub const TOPOLOGY_TRIANGLE_LIST: u32 = 3;

/// Polygon mode code: fill.
pub const POLYGON_MODE_FILL: u32 = 0;

/// Cull mode code: cull back faces.
pub const CULL_MODE_BACK: u32 = 2;

/// Front face code: clockwise winding.
pub const FRONT_FACE_CLOCKWISE: u32 = 1;

/// One attachment of the render pass.
#[derive(Clone, Copy, Debug, PartialEq, Eq, Structural)]
pub struct AttachmentDesc {
    pub format: u32,
    /// Sample count; single-sampled here.
    pub samples: u32,
    pub load_op: u32,
    pub store_op: u32,
    pub stencil_load_op: u32,
    pub stencil_store_op: u32,
    pub initial_layout: u32,
    pub final_layout: u32,
}

/// The render pass configuration: its attachments, the single subpass's
/// color attachment reference, and the external dependency that keeps the
/// attachment from being written before the presentation engine releases it.
#[derive(Clone, Debug)]
pub struct RenderPassDesc {
    /// The attachment descriptions, in slot order.
    pub attachments: Vec<AttachmentDesc>,
    /// Attachment slot the single subpass writes as its color output.
    pub color_attachment_slot: u32,
    /// Layout the attachment is in while the subpass writes it.
    pub color_attachment_layout: u32,
    /// An implicit-to-explicit dependency from the external stage is
    /// declared, so the color attachment is not written before it is
    /// available.
    pub external_dependency: bool,
}

impl RenderPassDesc {
    /// Compatibility with a swapchain of format `format`: a single color
    /// attachment of exactly that format.
    pub open spec fn compatible_with_format(self, format: u32) -> bool {
        &&& self.attachments@.len() == 1
        &&& self.attachments@[0].format == format
    }
}

/// Declares the render pass: one single-sampled color attachment of the
/// swapchain's format, cleared on load and stored, stencil unused, entering
/// undefined and leaving ready for presentation; one subpass writing it at
/// slot zero; one external dependency guarding the first write.
pub fn build_render_pass_desc(format: u32) -> (r: RenderPassDesc)
    ensures
        r.attachments@.len() == 1,
        r.attachments@[0].format == format,
        r.attachments@[0].samples == 1,
        r.attachments@[0].load_op == LOAD_OP_CLEAR,
        r.attachments@[0].store_op == STORE_OP_STORE,
        r.attachments@[0].stencil_load_op == LOAD_OP_DONT_CARE,
        r.attachments@[0].stencil_store_op == STORE_OP_DONT_CARE,
        r.attachments@[0].initial_layout == LAYOUT_UNDEFINED,
        r.attachments@[0].final_layout == LAYOUT_PRESENT_SRC,
        r.color_attachment_slot == 0,
        r.color_attachment_layout == LAYOUT_COLOR_ATTACHMENT_OPTIMAL,
        r.external_dependency,
        r.compatible_with_format(format),
{
    let mut attachments: Vec<AttachmentDesc> = Vec::new();
    attachments.push(
        AttachmentDesc {
            format,
            samples: 1,
            load_op: LOAD_OP_CLEAR,
            store_op: STORE_OP_STORE,
            stencil_load_op: LOAD_OP_DONT_CARE,
            stencil_store_op: STORE_OP_DONT_CARE,
            initial_layout: LAYOUT_UNDEFINED,
            final_layout: LAYOUT_PRESENT_SRC,
        },
    );
    RenderPassDesc {
        attachments,
        color_attachment_slot: 0,
        color_attachment_layout: LAYOUT_COLOR_ATTACHMENT_OPTIMAL,
        external_dependency: true,
    }
}

/// The fixed graphics pipeline configuration, bound to the render pass at
/// subpass zero.
#[derive(Clone, Copy, Debug, PartialEq, Eq, Structural)]
pub struct PipelineDesc {
    /// Number of vertex buffer bindings; none in this bring-up, vertices
    /// originate from the shader itself.
    pub vertex_binding_count: u32,
    /// Number of vertex attributes; none in this bring-up.
    pub vertex_attribute_count: u32,
    /// Primitive topology code.
    pub topology: u32,
    /// The single fixed viewport, sized to the swapchain extent.
    pub viewport_extent: Extent2D,
    /// The single fixed scissor rectangle, sized to the swapchain extent.
    pub scissor_extent: Extent2D,
    pub polygon_mode: u32,
    pub cull_mode: u32,
    pub front_face: u32,
    /// Sample count; single-sampled here.
    pub samples: u32,
    /// Depth bias is not applied.
    pub depth_bias: bool,
    /// Depth and stencil testing are not performed.
    pub depth_test: bool,
    /// Blending of the single color attachment; disabled (pass-through).
    pub blend_enable: bool,
    /// Number of descriptor set layouts in the pipeline layout; the layout
    /// is empty in this bring-up.
    pub descriptor_set_layout_count: u32,
    /// Number of push constant ranges in the pipeline layout; none here.
    pub push_constant_range_count: u32,
    /// The subpass of the render pass this pipeline is bound to.
    pub subpass: u32,
}

impl PipelineDesc {
    /// The pipeline's viewport and scissor both cover exactly `extent`.
    pub open spec fn sized_to(self, extent: Extent2D) -> bool {
        &&& self.viewport_extent == extent
        &&& self.scissor_extent == extent
    }
}

/// Assembles the fixed pipeline configuration: no vertex input, triangle
/// list topology, one viewport and one scissor sized to the swapchain
/// extent, filled back-face-culled clockwise rasterization without depth
/// bias, single-sampled, no depth/stencil test, blending disabled, an empty
/// pipeline layout, bound at subpass zero.
pub fn build_pipeline_desc(extent: Extent2D) -> (r: PipelineDesc)
    ensures
        r.vertex_binding_count == 0,
        r.vertex_attribute_count == 0,
        r.topology == TOPOLOGY_TRIANGLE_LIST,
        r.viewport_extent == extent,
        r.scissor_extent == extent,
        r.polygon_mode == POLYGON_MODE_FILL,
        r.cull_mode == CULL_MODE_BACK,
        r.front_face == FRONT_FACE_CLOCKWISE,
        r.samples == 1,
        !r.depth_bias,
        !r.depth_test,
        !r.blend_enable,
        r.descriptor_set_layout_count == 0,
        r.push_constant_range_count == 0,
        r.subpass == 0,
        r.sized_to(extent),
{
    PipelineDesc {
        vertex_binding_count: 0,
        vertex_attribute_count: 0,
        topology: TOPOLOGY_TRIANGLE_LIST,
        viewport_extent: extent,
        scissor_extent: extent,
        polygon_mode: POLYGON_MODE_FILL,
        cull_mode: CULL_MODE_BACK,
        front_face: FRONT_FACE_CLOCKWISE,
        samples: 1,
        depth_bias: false,
        depth_test: false,
        blend_enable: false,
        descriptor_set_layout_count: 0,
        push_constant_range_count: 0,
        subpass: 0,
    }
}

/// The shader entry point name fixed by convention for both the vertex and
/// the fragment stage.
pub fn shader_entry_point() -> (r: String)
    ensures
        r@ == "main"@,
{
    "main".to_string()
}

} // verus!
