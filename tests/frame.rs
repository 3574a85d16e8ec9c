use particle_sim::compute::ComputePass;
use particle_sim::frame::{GpuPass, Orchestrator, PassCommand};
use particle_sim::render::{RenderPass, RenderStep};

#[test]
fn render_consumes_buffer_published_in_same_frame() {
    let passes = vec![GpuPass::Compute(ComputePass::new(1000, 0, 1)), GpuPass::Render(RenderPass::new())];
    let mut orchestrator = Orchestrator::new(passes);
    for frame in 0..6u64 {
        let cmds = orchestrator.render(frame * 16_000_000);
        assert_eq!(cmds.len(), 2);
        let written = match cmds[0] {
            PassCommand::Compute(step) => step.write,
            PassCommand::Render(_) => panic!("compute runs first"),
        };
        match cmds[1] {
            PassCommand::Render(RenderStep::Draw(d)) => {
                assert_eq!(d.particles, written);
                assert_eq!(d.instance_count, 1000);
            }
            _ => panic!("render draws after compute published"),
        }
    }
}

#[test]
fn render_before_compute_skips_first_frame_only() {
    let passes = vec![GpuPass::Render(RenderPass::new()), GpuPass::Compute(ComputePass::new(100, 0, 1))];
    let mut orchestrator = Orchestrator::new(passes);
    let first = orchestrator.render(0);
    assert_eq!(first[0], PassCommand::Render(RenderStep::Skip));
    let second = orchestrator.render(1);
    let previous_write = match first[1] {
        PassCommand::Compute(step) => step.write,
        PassCommand::Render(_) => panic!("second pass is compute"),
    };
    match second[0] {
        PassCommand::Render(RenderStep::Draw(d)) => assert_eq!(d.particles, previous_write),
        _ => panic!("expected a draw"),
    }
}

#[test]
fn frame_without_passes_records_nothing() {
    let mut orchestrator = Orchestrator::new(Vec::new());
    assert!(orchestrator.render(0).is_empty());
}
