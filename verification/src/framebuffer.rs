//! Framebuffers: the concrete image set bound to a render pass for one
//! swapchain image. A framebuffer keeps the render pass and the chain image
//! it was built from alive, since they define its attachment layout and
//! extent; here it remembers the render pass's format, its extent, and which
//! chain image view it attaches.

use vstd::prelude::*;

use crate::pipeline::RenderPass;
use crate::surface::Extent2d;

verus! {

/// One framebuffer over one swapchain image view.
#[derive(Debug, Clone, Copy, PartialEq, Eq, Structural)]
pub struct Framebuffer {
    pub format: u32,
    pub extent: Extent2d,
    pub attachment_index: usize,
}

impl Framebuffer {
    pub fn new(render_pass: &RenderPass, extent: Extent2d, attachment_index: usize) -> (r: Self)
        ensures
            r.format == render_pass.format,
            r.extent == extent,
            r.attachment_index == attachment_index,
    {
        Framebuffer { format: render_pass.format, extent, attachment_index }
    }

    pub fn get_extent(&self) -> (r: Extent2d)
        ensures
            r == self.extent,
    {
        self.extent
    }
}

} // verus!
