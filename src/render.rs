use vstd::prelude::*;

use crate::buffer::{BufferWrapper, ResourceKind};
use crate::compute::{particles_key, PARTICLES};
use crate::registry::{ResourceKey, Resources};

verus! {

/// Corners of the triangle drawn for each particle.
pub const TRIANGLE_VERTICES: u32 = 3;

/// One instanced draw of the particle triangle.
#[derive(Clone, Copy, Debug, PartialEq, Eq, Structural)]
pub struct DrawCall {
    /// Create the triangle vertex buffer, the bind group layout and the pipeline.
    pub materialize: bool,
    /// Create the bind group again, against `particles`.
    pub rebind: bool,
    /// The particle buffer bound as read-only storage.
    pub particles: BufferWrapper,
    pub vertex_count: u32,
    pub instance_count: u32,
}

/// What the render stage asks of the device on one run.
#[derive(Clone, Copy, Debug, PartialEq, Eq, Structural)]
pub enum RenderStep {
    /// No particles are published: nothing is recorded.
    Skip,
    /// Clear the target view, then draw.
    Draw(DrawCall),
}

/// Draws one triangle per particle of the buffer currently published.
#[derive(Clone, Copy, Debug, PartialEq, Eq, Structural)]
pub struct RenderPass {
    ready: bool,
    bound: Option<u64>,
}

impl RenderPass {
    pub closed spec fn ready(self) -> bool {
        self.ready
    }

    /// The particle buffer that the cached bind group refers to, if any.
    pub closed spec fn bound(self) -> Option<u64> {
        self.bound
    }

    /// What a run against the published resources `published` asks of the device.
    pub open spec fn step_spec(self, published: Map<ResourceKey, BufferWrapper>) -> RenderStep {
        if published.contains_key(particles_key()) {
            let p = published[particles_key()];
            RenderStep::Draw(
                DrawCall {
                    materialize: !self.ready(),
                    rebind: self.bound() != Some(p.buffer),
                    particles: p,
                    vertex_count: TRIANGLE_VERTICES,
                    instance_count: p.count,
                },
            )
        } else {
            RenderStep::Skip
        }
    }

    /// `next` is the stage after a run against `published`.
    pub open spec fn advanced(self, next: RenderPass, published: Map<ResourceKey, BufferWrapper>) -> bool {
        if published.contains_key(particles_key()) {
            next.ready() && next.bound() == Some(published[particles_key()].buffer)
        } else {
            next == self
        }
    }

    /// A stage with nothing created on the device yet.
    pub fn new() -> (r: RenderPass)
        ensures
            !r.ready(),
            (r.bound() is None),
    {
        RenderPass { ready: false, bound: None }
    }

    /// Looks up the published particles; without them the frame's draw is
    /// skipped and the stage is left as it was.
    pub fn run(&mut self, resources: &Resources) -> (step: RenderStep)
        requires
            resources.wf(),
        ensures
            step == old(self).step_spec(resources@),
            old(self).advanced(*final(self), resources@),
    {
        match resources.get(ResourceKind::Particle, PARTICLES) {
            None => RenderStep::Skip,
            Some(particles) => {
                let materialize = !self.ready;
                let rebind = match self.bound {
                    Some(b) => b != particles.buffer,
                    None => true,
                };
                self.ready = true;
                self.bound = Some(particles.buffer);
                RenderStep::Draw(
                    DrawCall {
                        materialize,
                        rebind,
                        particles: *particles,
                        vertex_count: TRIANGLE_VERTICES,
                        instance_count: particles.count,
                    },
                )
            },
        }
    }
}

/// Before anything is published the render stage records no draw and keeps its state.
pub proof fn lemma_missing_data_skips(r: RenderPass, next: RenderPass, published: Map<ResourceKey, BufferWrapper>)
    requires
        !published.contains_key(particles_key()),
        r.advanced(next, published),
    ensures
        r.step_spec(published) == RenderStep::Skip,
        next == r,
{
}

} // verus!
