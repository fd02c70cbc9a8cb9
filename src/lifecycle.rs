use vstd::prelude::*;

verus! {

/// A GPU object, or group of objects, that the renderer owns.
#[derive(Clone, Copy, Debug, PartialEq, Eq, Structural)]
pub enum ResourceKind {
    Instance,
    DebugMessenger,
    Surface,
    Device,
    Swapchain,
    SwapchainImageViews,
    RenderPass,
    PipelineLayout,
    Pipeline,
    Framebuffers,
    CommandPool,
    /// The per-slot fences and semaphores.
    SyncObjects,
}

/// The order of creation at start-up, each object after those it depends on.
pub open spec fn startup_sequence(validation: bool) -> Seq<ResourceKind> {
    let head = if validation {
        seq![ResourceKind::Instance, ResourceKind::DebugMessenger]
    } else {
        seq![ResourceKind::Instance]
    };
    head + seq![
        ResourceKind::Surface,
        ResourceKind::Device,
        ResourceKind::Swapchain,
        ResourceKind::SwapchainImageViews,
        ResourceKind::RenderPass,
        ResourceKind::PipelineLayout,
        ResourceKind::Pipeline,
        ResourceKind::Framebuffers,
        ResourceKind::CommandPool,
        ResourceKind::SyncObjects,
    ]
}

/// The order of destruction at shutdown, the instance last.
pub open spec fn shutdown_sequence(validation: bool) -> Seq<ResourceKind> {
    let body = seq![
        ResourceKind::SyncObjects,
        ResourceKind::CommandPool,
        ResourceKind::Framebuffers,
        ResourceKind::Pipeline,
        ResourceKind::PipelineLayout,
        ResourceKind::RenderPass,
        ResourceKind::SwapchainImageViews,
        ResourceKind::Swapchain,
        ResourceKind::Device,
        ResourceKind::Surface,
    ];
    if validation {
        body + seq![ResourceKind::DebugMessenger, ResourceKind::Instance]
    } else {
        body + seq![ResourceKind::Instance]
    }
}

pub open spec fn reversed<T>(s: Seq<T>) -> Seq<T> {
    Seq::new(s.len(), |i: int| s[s.len() - 1 - i])
}

/// The start-up sequence, the debug messenger only when validation is on.
pub fn creation_order(validation: bool) -> (r: Vec<ResourceKind>)
    ensures
        r@ == startup_sequence(validation),
{
    let mut r: Vec<ResourceKind> = Vec::new();
    r.push(ResourceKind::Instance);
    if validation {
        r.push(ResourceKind::DebugMessenger);
    }
    r.push(ResourceKind::Surface);
    r.push(ResourceKind::Device);
    r.push(ResourceKind::Swapchain);
    r.push(ResourceKind::SwapchainImageViews);
    r.push(ResourceKind::RenderPass);
    r.push(ResourceKind::PipelineLayout);
    r.push(ResourceKind::Pipeline);
    r.push(ResourceKind::Framebuffers);
    r.push(ResourceKind::CommandPool);
    r.push(ResourceKind::SyncObjects);
    assert(r@ =~= startup_sequence(validation));
    r
}

/// The objects of `created` in the order they must be destroyed: last
/// created, first destroyed.
pub fn destruction_order(created: &Vec<ResourceKind>) -> (r: Vec<ResourceKind>)
    ensures
        r@ == reversed(created@),
{
    let mut r: Vec<ResourceKind> = Vec::new();
    let mut i: usize = created.len();
    while i > 0
        invariant
            i <= created.len(),
            r@.len() == created.len() - i,
            forall|k: int| 0 <= k < r@.len() ==> r@[k] == created@[created@.len() - 1 - k],
        decreases i,
    {
        i = i - 1;
        r.push(created[i]);
    }
    assert(r@ =~= reversed(created@));
    r
}

/// Shutdown destroys exactly what start-up created, in the reverse order:
/// fences and semaphores, command pool, framebuffers, pipeline, pipeline
/// layout, render pass, image views, swapchain, device, surface, debug
/// messenger, instance.
pub proof fn shutdown_reverses_startup(validation: bool)
    ensures
        reversed(startup_sequence(validation)) == shutdown_sequence(validation),
{
    assert(reversed(startup_sequence(validation)) =~= shutdown_sequence(validation));
}

} // verus!
