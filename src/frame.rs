use vstd::prelude::*;

use crate::buffer::BufferWrapper;
use crate::compute::{particles_key, ComputePass, ComputeStep};
use crate::registry::{ResourceKey, Resources};
use crate::render::{RenderPass, RenderStep};

verus! {

/// A stage of the frame.
#[derive(Clone, Copy, Debug)]
pub enum GpuPass {
    Compute(ComputePass),
    Render(RenderPass),
}

/// The work a stage recorded into the frame.
#[derive(Clone, Copy, Debug, PartialEq, Eq, Structural)]
pub enum PassCommand {
    Compute(ComputeStep),
    Render(RenderStep),
}

impl GpuPass {
    pub open spec fn wf(self) -> bool {
        match self {
            GpuPass::Compute(c) => c.wf(),
            GpuPass::Render(_) => true,
        }
    }

    /// Running this stage at `now` against the resources `before` records
    /// `cmd`, turns the stage into `next` and leaves the resources `after`.
    pub open spec fn runs_to(
        self,
        now: u64,
        before: Map<ResourceKey, BufferWrapper>,
        next: GpuPass,
        after: Map<ResourceKey, BufferWrapper>,
        cmd: PassCommand,
    ) -> bool {
        match (self, next) {
            (GpuPass::Compute(c), GpuPass::Compute(c2)) => {
                &&& c.advanced(c2, now)
                &&& cmd == PassCommand::Compute(c.step_spec(now))
                &&& after == before.insert(particles_key(), c.step_spec(now).write)
            },
            (GpuPass::Render(r), GpuPass::Render(r2)) => {
                &&& r.advanced(r2, before)
                &&& cmd == PassCommand::Render(r.step_spec(before))
                &&& after == before
            },
            _ => false,
        }
    }

    pub fn run(&mut self, now: u64, resources: &mut Resources) -> (cmd: PassCommand)
        requires
            old(self).wf(),
            old(resources).wf(),
        ensures
            final(self).wf(),
            final(resources).wf(),
            old(self).runs_to(now, old(resources)@, *final(self), final(resources)@, cmd),
    {
        match self {
            GpuPass::Compute(c) => PassCommand::Compute(c.run(now, resources)),
            GpuPass::Render(r) => PassCommand::Render(r.run(resources)),
        }
    }
}

/// Running `passes` in order at `now`, each against the resources that the
/// ones before it left, records `cmds` and turns them into `next`.
pub open spec fn frame_runs(
    passes: Seq<GpuPass>,
    before: Map<ResourceKey, BufferWrapper>,
    now: u64,
    next: Seq<GpuPass>,
    after: Map<ResourceKey, BufferWrapper>,
    cmds: Seq<PassCommand>,
) -> bool {
    exists|states: Seq<Map<ResourceKey, BufferWrapper>>| frame_runs_through(passes, before, now, next, after, cmds, states)
}

/// `frame_runs`, with `states[i]` the resources that pass `i` sees.
pub open spec fn frame_runs_through(
    passes: Seq<GpuPass>,
    before: Map<ResourceKey, BufferWrapper>,
    now: u64,
    next: Seq<GpuPass>,
    after: Map<ResourceKey, BufferWrapper>,
    cmds: Seq<PassCommand>,
    states: Seq<Map<ResourceKey, BufferWrapper>>,
) -> bool {
    &&& next.len() == passes.len()
    &&& cmds.len() == passes.len()
    &&& states.len() == passes.len() + 1
    &&& states[0] == before
    &&& states[passes.len() as int] == after
    &&& forall|i: int|
        0 <= i < passes.len() ==> #[trigger] passes[i].runs_to(now, states[i], next[i], states[i + 1], cmds[i])
}

/// Runs the stages of each frame in order over one shared set of resources.
pub struct Orchestrator {
    passes: Vec<GpuPass>,
    resources: Resources,
}

impl Orchestrator {
    pub closed spec fn passes(self) -> Seq<GpuPass> {
        self.passes@
    }

    pub closed spec fn resources(self) -> Map<ResourceKey, BufferWrapper> {
        self.resources@
    }

    pub closed spec fn wf(self) -> bool {
        &&& self.resources.wf()
        &&& forall|i: int| 0 <= i < self.passes@.len() ==> #[trigger] self.passes@[i].wf()
    }

    /// Stages that run in the order given, with nothing published yet.
    pub fn new(passes: Vec<GpuPass>) -> (r: Orchestrator)
        requires
            forall|i: int| 0 <= i < passes@.len() ==> #[trigger] passes@[i].wf(),
        ensures
            r.wf(),
            r.passes() == passes@,
            r.resources() == Map::<ResourceKey, BufferWrapper>::empty(),
    {
        Orchestrator { passes, resources: Resources::new() }
    }

    /// Records one frame at time `now`: each stage runs once, in order, and
    /// sees what the stages before it published.
    pub fn render(&mut self, now: u64) -> (cmds: Vec<PassCommand>)
        requires
            old(self).wf(),
        ensures
            final(self).wf(),
            frame_runs(old(self).passes(), old(self).resources(), now, final(self).passes(), final(self).resources(), cmds@),
    {
        let ghost passes0 = self.passes@;
        let ghost before = self.resources@;
        let ghost mut states: Seq<Map<ResourceKey, BufferWrapper>> = seq![before];
        let mut cmds: Vec<PassCommand> = Vec::new();
        let n = self.passes.len();
        let mut i: usize = 0;
        while i < n
            invariant
                n == passes0.len(),
                self.passes@.len() == n,
                0 <= i <= n,
                self.resources.wf(),
                forall|j: int| 0 <= j < n ==> #[trigger] self.passes@[j].wf(),
                forall|j: int| i <= j < n ==> #[trigger] self.passes@[j] == passes0[j],
                cmds@.len() == i,
                states.len() == i + 1,
                states[0] == before,
                states[i as int] == self.resources@,
                forall|j: int|
                    0 <= j < i ==> #[trigger] passes0[j].runs_to(now, states[j], self.passes@[j], states[j + 1], cmds@[j]),
            decreases n - i,
        {
            let mut pass = self.passes[i];
            let ghost seen = self.resources@;
            let cmd = pass.run(now, &mut self.resources);
            self.passes.set(i, pass);
            cmds.push(cmd);
            proof {
                states = states.push(self.resources@);
                assert(passes0[i as int].runs_to(now, seen, self.passes@[i as int], states[i + 1], cmds@[i as int]));
            }
            i = i + 1;
        }
        assert(frame_runs_through(passes0, before, now, self.passes@, self.resources@, cmds@, states));
        cmds
    }
}

/// Within one frame, a render stage that runs right after a compute stage
/// draws exactly the buffer that the compute stage wrote, once per particle.
pub proof fn lemma_publish_before_read(
    c: ComputePass,
    r: RenderPass,
    now: u64,
    before: Map<ResourceKey, BufferWrapper>,
    c_next: GpuPass,
    published: Map<ResourceKey, BufferWrapper>,
    r_next: GpuPass,
    after: Map<ResourceKey, BufferWrapper>,
    c_cmd: PassCommand,
    r_cmd: PassCommand,
)
    requires
        GpuPass::Compute(c).runs_to(now, before, c_next, published, c_cmd),
        GpuPass::Render(r).runs_to(now, published, r_next, after, r_cmd),
    ensures
        c_cmd == PassCommand::Compute(c.step_spec(now)),
        match r_cmd {
            PassCommand::Render(RenderStep::Draw(d)) => {
                &&& d.particles == c.step_spec(now).write
                &&& d.instance_count == c.step_spec(now).write.count
            },
            _ => false,
        },
{
}

/// In a frame of a compute stage followed by a render stage, the render stage
/// draws the buffer that the compute stage wrote in that same frame.
pub proof fn lemma_frame_draws_fresh_particles(
    c: ComputePass,
    r: RenderPass,
    before: Map<ResourceKey, BufferWrapper>,
    now: u64,
    next: Seq<GpuPass>,
    after: Map<ResourceKey, BufferWrapper>,
    cmds: Seq<PassCommand>,
)
    requires
        frame_runs(seq![GpuPass::Compute(c), GpuPass::Render(r)], before, now, next, after, cmds),
    ensures
        cmds.len() == 2,
        cmds[0] == PassCommand::Compute(c.step_spec(now)),
        match cmds[1] {
            PassCommand::Render(RenderStep::Draw(d)) => d.particles == c.step_spec(now).write,
            _ => false,
        },
{
    let passes = seq![GpuPass::Compute(c), GpuPass::Render(r)];
    let states = choose|states: Seq<Map<ResourceKey, BufferWrapper>>|
        frame_runs_through(passes, before, now, next, after, cmds, states);
    assert(frame_runs_through(passes, before, now, next, after, cmds, states));
    assert(passes.len() == 2);
    let first: int = 0;
    let second: int = 1;
    assert(passes[first].runs_to(now, states[first], next[first], states[first + 1], cmds[first]));
    assert(passes[second].runs_to(now, states[second], next[second], states[second + 1], cmds[second]));
    lemma_publish_before_read(c, r, now, states[0], next[0], states[1], next[1], states[2], cmds[0], cmds[1]);
}

} // verus!
