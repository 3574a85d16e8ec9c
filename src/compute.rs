use vstd::prelude::*;

use crate::buffer::{BufferWrapper, ResourceKind};
use crate::registry::{ResourceKey, Resources};
use crate::workgroups::{ceil_div, workgroup_count, WORKGROUP_SIZE};

verus! {

/// Name under which the compute stage publishes the particles it just wrote.
pub const PARTICLES: &'static str = "particles";

/// Key under which the compute stage publishes its particles.
pub open spec fn particles_key() -> ResourceKey {
    (ResourceKind::Particle, PARTICLES@)
}

/// Which of the two particle buffers a dispatch writes. The other one is its input.
#[derive(Clone, Copy, Debug, PartialEq, Eq, Structural)]
pub enum WriteTarget {
    A,
    B,
}

/// What the compute stage asks of the device on one run.
#[derive(Clone, Copy, Debug, PartialEq, Eq, Structural)]
pub struct ComputeStep {
    /// Create the particle buffers (seeded), the parameter buffer, the bind
    /// group layout, both bind groups and the pipeline.
    pub materialize: bool,
    /// Nanoseconds since the previous run, written to the parameter buffer.
    pub dt_nanos: u64,
    /// The bind group to use: the one whose writable binding is this buffer.
    pub target: WriteTarget,
    pub read: BufferWrapper,
    pub write: BufferWrapper,
    /// Workgroups to dispatch along the first dimension.
    pub workgroup_count: u32,
}

/// Time step on a run at `now` after a run at `last`; none before the first run.
pub open spec fn elapsed(last: Option<u64>, now: u64) -> u64 {
    match last {
        None => 0,
        Some(l) => if now >= l { (now - l) as u64 } else { 0 },
    }
}

/// Ping-pong particle simulation: two equally sized buffers, one read and the
/// other written on each run, swapping roles from one run to the next.
#[derive(Clone, Copy, Debug)]
pub struct ComputePass {
    ready: bool,
    buffer_a: BufferWrapper,
    buffer_b: BufferWrapper,
    write_to_buffer_a: bool,
    last_run: Option<u64>,
}

impl ComputePass {
    pub closed spec fn ready(self) -> bool {
        self.ready
    }

    pub closed spec fn buffer_a(self) -> BufferWrapper {
        self.buffer_a
    }

    pub closed spec fn buffer_b(self) -> BufferWrapper {
        self.buffer_b
    }

    pub closed spec fn writes_to_a(self) -> bool {
        self.write_to_buffer_a
    }

    pub closed spec fn last_run(self) -> Option<u64> {
        self.last_run
    }

    /// The two buffers are distinct allocations holding the same number of particles.
    pub open spec fn wf(self) -> bool {
        &&& self.buffer_a().buffer != self.buffer_b().buffer
        &&& self.buffer_a().count == self.buffer_b().count
    }

    pub open spec fn particle_count(self) -> u32 {
        self.buffer_a().count
    }

    /// What a run at time `now` asks of the device.
    pub open spec fn step_spec(self, now: u64) -> ComputeStep {
        ComputeStep {
            materialize: !self.ready(),
            dt_nanos: elapsed(self.last_run(), now),
            target: if self.writes_to_a() { WriteTarget::A } else { WriteTarget::B },
            read: if self.writes_to_a() { self.buffer_b() } else { self.buffer_a() },
            write: if self.writes_to_a() { self.buffer_a() } else { self.buffer_b() },
            workgroup_count: ceil_div(self.particle_count() as int, WORKGROUP_SIZE as int) as u32,
        }
    }

    /// `next` is the stage after a run at time `now`.
    pub open spec fn advanced(self, next: ComputePass, now: u64) -> bool {
        &&& next.ready()
        &&& next.buffer_a() == self.buffer_a()
        &&& next.buffer_b() == self.buffer_b()
        &&& next.writes_to_a() == !self.writes_to_a()
        &&& next.last_run() == Some(now)
    }

    /// A stage over the particle buffers `buffer_a` and `buffer_b`, each of
    /// `particle_count` particles. Nothing is created on the device yet; the
    /// first run writes buffer B.
    pub fn new(particle_count: u32, buffer_a: u64, buffer_b: u64) -> (r: ComputePass)
        requires
            buffer_a != buffer_b,
        ensures
            r.wf(),
            !r.ready(),
            r.buffer_a() == (BufferWrapper { buffer: buffer_a, count: particle_count }),
            r.buffer_b() == (BufferWrapper { buffer: buffer_b, count: particle_count }),
            !r.writes_to_a(),
            (r.last_run() is None),
    {
        ComputePass {
            ready: false,
            buffer_a: BufferWrapper::new(buffer_a, particle_count),
            buffer_b: BufferWrapper::new(buffer_b, particle_count),
            write_to_buffer_a: false,
            last_run: None,
        }
    }

    /// One simulation step at time `now` (nanoseconds of a monotonic clock):
    /// picks the buffer to write, publishes it as the current particles,
    /// then swaps the roles of the buffers and records `now`.
    pub fn run(&mut self, now: u64, resources: &mut Resources) -> (step: ComputeStep)
        requires
            old(self).wf(),
            old(resources).wf(),
        ensures
            step == old(self).step_spec(now),
            old(self).advanced(*final(self), now),
            final(self).wf(),
            final(resources).wf(),
            final(resources)@ == old(resources)@.insert(particles_key(), step.write),
    {
        let materialize = !self.ready;
        self.ready = true;

        let dt_nanos: u64 = match self.last_run {
            Some(last) => if now >= last { now - last } else { 0 },
            None => 0,
        };

        let (target, read, write) = if self.write_to_buffer_a {
            (WriteTarget::A, self.buffer_b, self.buffer_a)
        } else {
            (WriteTarget::B, self.buffer_a, self.buffer_b)
        };
        let workgroups = workgroup_count(write.count);
        resources.insert(ResourceKind::Particle, PARTICLES, write);

        self.write_to_buffer_a = !self.write_to_buffer_a;
        self.last_run = Some(now);

        ComputeStep { materialize, dt_nanos, target, read, write, workgroup_count: workgroups }
    }
}

/// Consecutive runs never write the same buffer, and each run reads what the
/// run before it wrote.
pub proof fn lemma_alternation(p: ComputePass, q: ComputePass, t1: u64, t2: u64)
    requires
        p.wf(),
        p.advanced(q, t1),
    ensures
        q.wf(),
        q.step_spec(t2).target != p.step_spec(t1).target,
        q.step_spec(t2).write.buffer != p.step_spec(t1).write.buffer,
        q.step_spec(t2).read == p.step_spec(t1).write,
        p.step_spec(t1).read.buffer != p.step_spec(t1).write.buffer,
{
}

/// The first run of a stage has a time step of zero, whenever it happens.
pub proof fn lemma_first_step_is_zero(p: ComputePass, now: u64)
    requires
        (p.last_run() is None),
    ensures
        p.step_spec(now).dt_nanos == 0,
{
}

/// A run dispatches exactly enough workgroups to give each particle one invocation.
pub proof fn lemma_workgroups_cover(p: ComputePass, now: u64)
    requires
        p.wf(),
    ensures
        p.step_spec(now).workgroup_count as int * WORKGROUP_SIZE as int >= p.particle_count() as int,
        (p.step_spec(now).workgroup_count as int - 1) * (WORKGROUP_SIZE as int) < p.particle_count() as int,
{
    let n = p.particle_count() as int;
    assert(0 <= (n + 63) / 64 <= n) by (nonlinear_arith)
        requires n >= 0;
    assert(((n + 63) / 64) * 64 >= n && ((n + 63) / 64 - 1) * 64 < n) by (nonlinear_arith)
        requires n >= 0;
}

} // verus!
