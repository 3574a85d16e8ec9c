use particle_sim::buffer::{BufferWrapper, ResourceKind};
use particle_sim::compute::{ComputePass, WriteTarget, PARTICLES};
use particle_sim::registry::Resources;
use particle_sim::workgroups::{workgroup_count, WORKGROUP_SIZE};

#[test]
fn workgroup_count_boundaries() {
    assert_eq!(WORKGROUP_SIZE, 64);
    assert_eq!(workgroup_count(0), 0);
    assert_eq!(workgroup_count(1), 1);
    assert_eq!(workgroup_count(64), 1);
    assert_eq!(workgroup_count(65), 2);
    assert_eq!(workgroup_count(1000), 16);
    assert_eq!(workgroup_count(u32::MAX), 67_108_864);
}

#[test]
fn run_dispatches_ceil_of_count_over_workgroup_size() {
    for (n, expected) in [(1u32, 1u32), (64, 1), (65, 2), (1000, 16)] {
        let mut pass = ComputePass::new(n, 0, 1);
        let mut resources = Resources::new();
        let step = pass.run(5, &mut resources);
        assert_eq!(step.workgroup_count, expected);
    }
}

#[test]
fn first_run_has_zero_time_step() {
    let mut pass = ComputePass::new(1000, 0, 1);
    let mut resources = Resources::new();
    let step = pass.run(123_456_789_000, &mut resources);
    assert_eq!(step.dt_nanos, 0);
    assert!(step.materialize);
}

#[test]
fn later_runs_step_by_elapsed_time() {
    let mut pass = ComputePass::new(1000, 0, 1);
    let mut resources = Resources::new();
    pass.run(1_000, &mut resources);
    let second = pass.run(17_000_000, &mut resources);
    assert_eq!(second.dt_nanos, 16_999_000);
    assert!(!second.materialize);
    let third = pass.run(33_000_000, &mut resources);
    assert_eq!(third.dt_nanos, 16_000_000);
}

#[test]
fn write_target_alternates() {
    let mut pass = ComputePass::new(1000, 10, 11);
    let mut resources = Resources::new();
    let mut previous = pass.run(0, &mut resources);
    assert_eq!(previous.target, WriteTarget::B);
    assert_eq!(previous.write, BufferWrapper::new(11, 1000));
    assert_eq!(previous.read, BufferWrapper::new(10, 1000));
    for t in 1..10u64 {
        let step = pass.run(t, &mut resources);
        assert_ne!(step.target, previous.target);
        assert_ne!(step.write.buffer, previous.write.buffer);
        assert_ne!(step.read.buffer, step.write.buffer);
        assert_eq!(step.read, previous.write);
        previous = step;
    }
}

#[test]
fn run_publishes_written_buffer() {
    let mut pass = ComputePass::new(1000, 10, 11);
    let mut resources = Resources::new();
    let first = pass.run(0, &mut resources);
    assert_eq!(resources.get(ResourceKind::Particle, PARTICLES), Some(&first.write));
    let second = pass.run(1, &mut resources);
    assert_eq!(resources.get(ResourceKind::Particle, PARTICLES), Some(&BufferWrapper::new(10, 1000)));
    assert_eq!(resources.get(ResourceKind::Particle, PARTICLES), Some(&second.write));
    assert_eq!(resources.get(ResourceKind::Vertex, PARTICLES), None);
}
