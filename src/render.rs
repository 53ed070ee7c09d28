use vstd::prelude::*;

use crate::pipeline::{
    bindable, descriptor_layout, descriptor_layout_model, pipeline_model, pipeline_spec,
    BindingCfg, PipelineSpec,
};
use crate::error::SetupError;
use crate::swapchain::{negotiation, Extent2D, SurfaceCaps, SwapchainCfg};

verus! {

/// One framebuffer: the default view of one swapchain image, bound to the
/// shared render pass.
#[derive(Clone, Copy, Debug, PartialEq, Eq, Structural)]
pub struct FramebufferCfg {
    pub image_index: usize,
    pub view_index: u32,
    pub extent: Extent2D,
}

/// The render resources built on a swapchain: the descriptor layout, the
/// fixed pipeline, and one framebuffer per swapchain image.
#[derive(Clone, Debug)]
pub struct RenderPlan {
    pub swapchain: SwapchainCfg,
    pub image_count: usize,
    pub layout: Vec<BindingCfg>,
    pub pipeline: PipelineSpec,
    pub frames: Vec<FramebufferCfg>,
}

pub open spec fn framebuffer_model(i: int, extent: Extent2D) -> FramebufferCfg {
    FramebufferCfg { image_index: i as usize, view_index: 0, extent }
}

/// `frames` holds, in order, one framebuffer for each of `n` images.
pub open spec fn frames_model(n: nat, extent: Extent2D, frames: Seq<FramebufferCfg>) -> bool {
    &&& frames.len() == n
    &&& forall|i: int| 0 <= i < n ==> #[trigger] frames[i] == framebuffer_model(i, extent)
}

impl RenderPlan {
    pub open spec fn wf(&self) -> bool {
        &&& frames_model(self.image_count as nat, self.swapchain.extent, self.frames@)
        &&& self.layout@ == descriptor_layout_model()
        &&& pipeline_model(self.swapchain, self.layout@, &self.pipeline)
    }

    /// The number of framebuffers.
    pub fn frame_count(&self) -> (r: usize)
        ensures
            r == self.frames@.len(),
    {
        self.frames.len()
    }
}

/// One framebuffer per swapchain image, in image order, each on the image's
/// default view and sized to `extent`.
pub fn framebuffers(image_count: usize, extent: Extent2D) -> (r: Vec<FramebufferCfg>)
    ensures
        frames_model(image_count as nat, extent, r@),
{
    let mut r: Vec<FramebufferCfg> = Vec::new();
    let mut i: usize = 0;
    while i < image_count
        invariant
            i <= image_count,
            frames_model(i as nat, extent, r@),
        decreases image_count - i,
    {
        r.push(FramebufferCfg { image_index: i, view_index: 0, extent });
        i = i + 1;
    }
    r
}

/// Builds the render resources for a swapchain whose image sequence has
/// `image_count` images.
pub fn plan_render(swp: &SwapchainCfg, image_count: usize) -> (r: RenderPlan)
    ensures
        r.wf(),
        r.swapchain == *swp,
        r.image_count == image_count,
{
    let layout = descriptor_layout();
    let pipeline = pipeline_spec(swp, descriptor_layout());
    RenderPlan {
        swapchain: *swp,
        image_count,
        layout,
        pipeline,
        frames: framebuffers(image_count, swp.extent),
    }
}

/// The swapchain asks for at least the surface's least image count and, when
/// the surface bounds it, at most its greatest; and the framebuffers built on
/// the swapchain's images are exactly as many as the images.
pub proof fn lemma_image_counts(caps: &SurfaceCaps, cfg: SwapchainCfg, plan: RenderPlan)
    requires
        caps.wf(),
        negotiation(caps) == Ok::<SwapchainCfg, SetupError>(cfg),
        plan.wf(),
        plan.swapchain == cfg,
    ensures
        cfg.num_of_images >= caps.min_image_count,
        caps.max_image_count != 0 ==> cfg.num_of_images <= caps.max_image_count,
        plan.frames@.len() == plan.image_count,
{
}

/// A plan's pipeline can be bound with the plan's descriptor layout.
pub proof fn lemma_plan_bindable(plan: RenderPlan)
    requires
        plan.wf(),
    ensures
        bindable(plan.layout@, &plan.pipeline),
        plan.pipeline.bindings@.len() == plan.layout@.len(),
{
}

} // verus!
