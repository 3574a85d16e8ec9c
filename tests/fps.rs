use particle_sim::fps::{FpsModule, FpsReport};

#[test]
fn first_redraw_starts_span() {
    let mut fps = FpsModule::default();
    assert_eq!(fps.on_redraw(100), None);
}

#[test]
fn report_after_cooldown() {
    let mut fps = FpsModule::default();
    assert_eq!(fps.on_redraw(0), None);
    for i in 1..60u64 {
        assert_eq!(fps.on_redraw(i * 30_000_000), None);
    }
    let report = fps.on_redraw(2_000_000_000);
    assert_eq!(report, Some(FpsReport { frames: 61, elapsed_nanos: 2_000_000_000 }));
    assert_eq!(fps.on_redraw(2_100_000_000), None);
    assert_eq!(fps.on_redraw(4_000_000_000), Some(FpsReport { frames: 2, elapsed_nanos: 2_000_000_000 }));
}

#[test]
fn custom_cooldown() {
    let mut fps = FpsModule::new(10);
    assert_eq!(fps.on_redraw(0), None);
    assert_eq!(fps.on_redraw(9), None);
    assert_eq!(fps.on_redraw(10), Some(FpsReport { frames: 3, elapsed_nanos: 10 }));
}
