use vstd::prelude::*;
use crate::device::QueueFamilyIndices;
use crate::framebuffer::{framebuffers_spec, VulkanFramebuffer};
use crate::swapchain::{image_views_spec, Extent2D};

verus! {

/// Vertices of the triangle, generated in the vertex shader.
pub const TRIANGLE_VERTICES: u32 = 3;

/// What one primary command buffer records, once: begin, begin the render
/// pass on its framebuffer cleared to opaque black, bind the graphics
/// pipeline, draw without a vertex buffer, end the render pass, end.
#[derive(Clone, Copy, Debug, PartialEq, Eq, Structural)]
pub struct VulkanCommandBuffer {
    /// Position of the framebuffer, which is the swapchain image's index.
    pub framebuffer: usize,
    pub vertex_count: u32,
    pub instance_count: u32,
    pub first_vertex: u32,
    pub first_instance: u32,
}

/// One recording per framebuffer, in framebuffer order.
pub open spec fn command_buffers_spec(framebuffer_count: nat) -> Seq<VulkanCommandBuffer> {
    Seq::new(
        framebuffer_count,
        |i: int|
            VulkanCommandBuffer {
                framebuffer: i as usize,
                vertex_count: TRIANGLE_VERTICES,
                instance_count: 1,
                first_vertex: 0,
                first_instance: 0,
            },
    )
}

impl VulkanCommandBuffer {
    /// The queue family the command pool is created for: the graphics family.
    pub fn create_command_pool(indices: &QueueFamilyIndices) -> (r: u32)
        ensures
            r == indices.graphics,
    {
        indices.graphics
    }

    /// Describes the recording of one command buffer per framebuffer.
    pub fn create_command_buffers(framebuffers: &Vec<VulkanFramebuffer>) -> (r: Vec<
        VulkanCommandBuffer,
    >)
        ensures
            r@ == command_buffers_spec(framebuffers@.len()),
    {
        let mut r: Vec<VulkanCommandBuffer> = Vec::new();
        let mut i: usize = 0;
        while i < framebuffers.len()
            invariant
                i <= framebuffers.len(),
                r@ == command_buffers_spec(i as nat),
            decreases framebuffers.len() - i,
        {
            r.push(
                VulkanCommandBuffer {
                    framebuffer: i,
                    vertex_count: TRIANGLE_VERTICES,
                    instance_count: 1,
                    first_vertex: 0,
                    first_instance: 0,
                },
            );
            i = i + 1;
            assert(r@ =~= command_buffers_spec(i as nat));
        }
        r
    }
}

/// Swapchain images, image views, framebuffers and command buffers come in
/// equal numbers, and the i-th of each belong together.
pub proof fn counts_agree(image_count: nat, format: i32, extent: Extent2D)
    requires
        image_count <= usize::MAX,
    ensures
        image_views_spec(image_count, format).len() == image_count,
        framebuffers_spec(image_views_spec(image_count, format).len(), extent).len() == image_count,
        command_buffers_spec(
            framebuffers_spec(image_views_spec(image_count, format).len(), extent).len(),
        ).len() == image_count,
        forall|i: int|
            0 <= i < image_count ==> {
                &&& (#[trigger] image_views_spec(image_count, format)[i]).image == i
                &&& framebuffers_spec(image_count, extent)[i].image_view == i
                &&& command_buffers_spec(image_count)[i].framebuffer == i
            },
{
}

} // verus!
