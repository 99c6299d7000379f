use pathtracer::config::RenderConfig;

#[test]
fn a_runnable_configuration_validates() {
    let cfg = RenderConfig {
        width: 800,
        height: 800,
        samples_per_pixel: 1,
        max_depth: 5,
        thread_count: 10,
    };
    assert!(cfg.validate());
}

#[test]
fn degenerate_configurations_are_rejected() {
    let cfg = RenderConfig {
        width: 2,
        height: 2,
        samples_per_pixel: 1,
        max_depth: 5,
        thread_count: 1,
    };
    assert!(cfg.validate());
    assert!(!RenderConfig { width: 0, ..cfg }.validate());
    assert!(!RenderConfig { height: 0, ..cfg }.validate());
    assert!(!RenderConfig { samples_per_pixel: 0, ..cfg }.validate());
    assert!(!RenderConfig { thread_count: 0, ..cfg }.validate());
}

#[test]
fn pixel_count_multiplies_the_dimensions() {
    let cfg = RenderConfig {
        width: 800,
        height: 600,
        samples_per_pixel: 1,
        max_depth: 5,
        thread_count: 4,
    };
    assert_eq!(cfg.pixel_count(), 480000);
    assert_eq!(
        RenderConfig { width: u32::MAX, height: u32::MAX, ..cfg }.pixel_count(),
        (u32::MAX as u64) * (u32::MAX as u64)
    );
}
