use vstd::prelude::*;
use crate::swapchain::{Extent2D, VulkanImage};

verus! {

/// One framebuffer: the view it draws into, the swapchain's extent, one layer,
/// over the shared render pass.
#[derive(Clone, Copy, Debug, PartialEq, Eq, Structural)]
pub struct VulkanFramebuffer {
    /// Position of the image view among the swapchain's views.
    pub image_view: usize,
    pub width: u32,
    pub height: u32,
    pub layers: u32,
}

/// One framebuffer per image view, in view order.
pub open spec fn framebuffers_spec(view_count: nat, extent: Extent2D) -> Seq<VulkanFramebuffer> {
    Seq::new(
        view_count,
        |i: int|
            VulkanFramebuffer {
                image_view: i as usize,
                width: extent.width,
                height: extent.height,
                layers: 1,
            },
    )
}

impl VulkanFramebuffer {
    /// Describes the framebuffer of each swapchain image view.
    pub fn create(views: &Vec<VulkanImage>, extent: Extent2D) -> (r: Vec<VulkanFramebuffer>)
        ensures
            r@ == framebuffers_spec(views@.len(), extent),
    {
        let mut r: Vec<VulkanFramebuffer> = Vec::new();
        let mut i: usize = 0;
        while i < views.len()
            invariant
                i <= views.len(),
                r@ == framebuffers_spec(i as nat, extent),
            decreases views.len() - i,
        {
            r.push(
                VulkanFramebuffer {
                    image_view: i,
                    width: extent.width,
                    height: extent.height,
                    layers: 1,
                },
            );
            i = i + 1;
            assert(r@ =~= framebuffers_spec(i as nat, extent));
        }
        r
    }
}

} // verus!
