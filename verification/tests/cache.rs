use julia::state::default_state;
use julia::ImgDimensions;
use julia::JuliaData;
use julia::JuliaExport;

fn dims(w: u32, h: u32) -> ImgDimensions {
    ImgDimensions { width: w, height: h }
}

fn scenario_data() -> JuliaData {
    // exponent 2, c = 0.2 + 0i, 100 iterations, centered viewport of
    // extent 3.6, black-to-white gradient with the midpoint at 0.25.
    default_state()
}

#[test]
fn fresh_cache_is_empty_and_regenerates_once() {
    let mut cache: JuliaExport<u32> = JuliaExport::new();
    let d = scenario_data();
    assert!(cache.needs_regen(dims(64, 64), &d));
    let regenerated = cache.prepare(dims(64, 64), &d, || 7u32);
    assert!(regenerated);
    assert_eq!(*cache.resources(dims(64, 64), &d), 7u32);
}

#[test]
fn second_export_with_same_key_reuses_resources() {
    let mut cache: JuliaExport<u32> = JuliaExport::new();
    let d = scenario_data();
    let mut builds = 0u32;
    let first = cache.prepare(dims(64, 64), &d, || {
        builds += 1;
        11u32
    });
    assert!(first);
    let second = cache.prepare(dims(64, 64), &d, || {
        builds += 1;
        99u32
    });
    assert!(!second);
    assert_eq!(builds, 1, "the second call must not rebuild GPU resources");
    assert_eq!(*cache.resources(dims(64, 64), &d), 11u32);
}

#[test]
fn changing_iterations_invalidates() {
    let mut cache: JuliaExport<u32> = JuliaExport::new();
    let d = scenario_data();
    cache.prepare(dims(64, 64), &d, || 1u32);
    let changed = JuliaData { iters: 101, ..d };
    assert!(cache.needs_regen(dims(64, 64), &changed));
    let regenerated = cache.prepare(dims(64, 64), &changed, || 2u32);
    assert!(regenerated);
    assert_eq!(*cache.resources(dims(64, 64), &changed), 2u32);
}

#[test]
fn changing_any_single_field_invalidates() {
    let d = scenario_data();
    let variants = [
        JuliaData { n: 3, ..d },
        JuliaData { iters: 101, ..d },
        JuliaData { midpoint1: 260_000, ..d },
        JuliaData {
            c: julia::Complex { re: 210_000, im: 0 },
            ..d
        },
        JuliaData {
            center: julia::Complex { re: 1, im: 0 },
            ..d
        },
        JuliaData {
            extents: julia::Complex {
                re: 3_600_000,
                im: 3_600_001,
            },
            ..d
        },
        JuliaData {
            color0: julia::Color {
                r: 1,
                g: 0,
                b: 0,
                a: 0,
            },
            ..d
        },
    ];
    for v in variants.iter() {
        let mut cache: JuliaExport<u32> = JuliaExport::new();
        cache.prepare(dims(64, 64), &d, || 1u32);
        assert!(cache.needs_regen(dims(64, 64), v));
        assert!(cache.prepare(dims(64, 64), v, || 2u32));
    }
}

#[test]
fn changing_either_dimension_invalidates() {
    let mut cache: JuliaExport<u32> = JuliaExport::new();
    let d = scenario_data();
    cache.prepare(dims(64, 64), &d, || 1u32);
    assert!(cache.needs_regen(dims(65, 64), &d));
    assert!(cache.needs_regen(dims(64, 65), &d));
    assert!(!cache.needs_regen(dims(64, 64), &d));
}

#[test]
fn export_scenario_reuse_then_invalidate() {
    // Two exports with unchanged parameters share one resource build;
    // raising the iteration cap to 101 forces a second build.
    let mut cache: JuliaExport<u64> = JuliaExport::new();
    let d = scenario_data();
    let mut builds = 0u64;
    cache.prepare(dims(64, 64), &d, || {
        builds += 1;
        builds
    });
    cache.prepare(dims(64, 64), &d, || {
        builds += 1;
        builds
    });
    assert_eq!(builds, 1);
    let changed = JuliaData { iters: 101, ..d };
    cache.prepare(dims(64, 64), &changed, || {
        builds += 1;
        builds
    });
    assert_eq!(builds, 2);
    assert_eq!(*cache.resources(dims(64, 64), &changed), 2);
}
