use strolle::passes::{
    frame_pass_order, workgroups, CameraController, DirectInitialShadingPass, Extent, PassKind,
    PassParams, VoxelTracingPass,
};
use strolle::resampling::{
    is_reprojection_valid, spatial_merge, temporal_merge, temporal_resampling, Reprojection,
    SpatialCandidate,
};
use strolle::double_buffered::DoubleBuffered;
use strolle::reservoir::{Reservoir, JACOBIAN_ONE};

fn valid_reprojection(x: i64, y: i64) -> Reprojection {
    Reprojection { x, y, depth: 100, past_depth: 105, normal_dot: 1000 }
}

#[test]
fn merge_adds_weights_and_counts() {
    let mut r = Reservoir::candidate(1, 30);
    let other = Reservoir { sample: 2, w_sum: 70, m: 4, w: 0 };
    let took = r.merge(&other, 45, 20);
    assert!(took);
    assert_eq!(r, Reservoir { sample: 2, w_sum: 100, m: 5, w: 0 });
}

#[test]
fn merge_keeps_current_below_threshold() {
    let mut r = Reservoir::candidate(1, 30);
    let other = Reservoir::candidate(2, 70);
    assert!(!r.merge(&other, 170, 20));
    assert_eq!(r.sample, 1);
    assert_eq!(r.w_sum, 100);
    assert_eq!(r.m, 2);
}

#[test]
fn selection_frequency_matches_weights() {
    let (w1, w2) = (3u64, 5u64);
    let mut chosen_incoming = 0u64;
    for u in 0..(w1 + w2) {
        let mut r = Reservoir::candidate(1, w1);
        if r.merge(&Reservoir::candidate(2, w2), u, 100) {
            chosen_incoming += 1;
        }
    }
    assert_eq!(chosen_incoming, w2);
}

#[test]
fn zero_weights_never_switch_sample() {
    let mut r = Reservoir::empty();
    assert!(!r.merge(&Reservoir::candidate(9, 0), 12345, 20));
    assert_eq!(r.sample, 0);
    assert_eq!(r.m, 1);
    r.resolve(5);
    assert_eq!(r.w, 0);
}

#[test]
fn resolve_divides_by_pdf_and_count() {
    let mut r = Reservoir { sample: 4, w_sum: 100, m: 5, w: 0 };
    r.resolve(4);
    assert_eq!(r.w, 5);
    r.resolve(0);
    assert_eq!(r.w, 0);
    let mut e = Reservoir::empty();
    e.resolve(3);
    assert_eq!(e.w, 0);
}

#[test]
fn temporal_cap_holds_over_long_history() {
    let max_m = 20;
    let mut history = Reservoir::candidate(0, 1);
    for frame in 0..100u64 {
        let fresh = Reservoir::candidate(frame as u32, 1);
        history = temporal_merge(&fresh, &history, true, frame * 7, max_m);
        assert!(history.m <= max_m);
    }
    assert_eq!(history.m, max_m);
}

#[test]
fn invalid_history_is_not_merged() {
    let fresh = Reservoir::candidate(3, 10);
    let past = Reservoir { sample: 8, w_sum: 500, m: 20, w: 7 };
    assert_eq!(temporal_merge(&fresh, &past, false, 0, 20), fresh);
}

#[test]
fn disoccluded_pixel_keeps_fresh_m() {
    let fresh = Reservoir::candidate(3, 10);
    let past = vec![Reservoir { sample: 8, w_sum: 500, m: 20, w: 7 }; 4];
    let normal_flip = Reprojection { x: 1, y: 1, depth: 100, past_depth: 100, normal_dot: -1024 };
    let r = temporal_resampling(&fresh, &past, 2, 2, &normal_flip, 0, 20);
    assert_eq!(r.m, fresh.m);
    assert_eq!(r, fresh);
    let depth_jump = Reprojection { x: 1, y: 1, depth: 100, past_depth: 200, normal_dot: 1024 };
    assert_eq!(temporal_resampling(&fresh, &past, 2, 2, &depth_jump, 0, 20), fresh);
    let off_screen = valid_reprojection(2, 0);
    assert_eq!(temporal_resampling(&fresh, &past, 2, 2, &off_screen, 0, 20), fresh);
    let negative = valid_reprojection(-1, 0);
    assert_eq!(temporal_resampling(&fresh, &past, 2, 2, &negative, 0, 20), fresh);
}

#[test]
fn valid_reprojection_merges_history_at_pixel() {
    let fresh = Reservoir::candidate(3, 10);
    let mut past = vec![Reservoir::empty(); 6];
    past[1 * 3 + 2] = Reservoir { sample: 8, w_sum: 30, m: 4, w: 7 };
    let r = temporal_resampling(&fresh, &past, 3, 2, &valid_reprojection(2, 1), 15, 20);
    assert_eq!(r, Reservoir { sample: 8, w_sum: 40, m: 5, w: 0 });
}

#[test]
fn reprojection_thresholds() {
    assert!(is_reprojection_valid(&valid_reprojection(0, 0), 1, 1));
    let far = Reprojection { x: 0, y: 0, depth: 100, past_depth: 111, normal_dot: 1024 };
    assert!(!is_reprojection_valid(&far, 1, 1));
    let near = Reprojection { x: 0, y: 0, depth: 100, past_depth: 90, normal_dot: 922 };
    assert!(is_reprojection_valid(&near, 1, 1));
    let bent = Reprojection { x: 0, y: 0, depth: 100, past_depth: 100, normal_dot: 921 };
    assert!(!is_reprojection_valid(&bent, 1, 1));
}

#[test]
fn spatial_merge_discards_occluded_neighbours() {
    let own = Reservoir::candidate(1, 10);
    let occluded = SpatialCandidate {
        reservoir: Reservoir { sample: 2, w_sum: 0, m: 3, w: 10 },
        target_pdf: 5,
        jacobian: JACOBIAN_ONE,
        visible: false,
        u: 0,
    };
    assert_eq!(spatial_merge(&own, &vec![occluded], 20), own);
}

#[test]
fn spatial_merge_applies_jacobian() {
    let own = Reservoir::candidate(1, 10);
    let n = SpatialCandidate {
        reservoir: Reservoir { sample: 2, w_sum: 0, m: 3, w: 10 },
        target_pdf: 4,
        jacobian: JACOBIAN_ONE / 2,
        visible: true,
        u: 50,
    };
    // 4 * 10 * 3 * 0.5 = 60
    let r = spatial_merge(&own, &vec![n], 20);
    assert_eq!(r, Reservoir { sample: 2, w_sum: 70, m: 4, w: 0 });
    let r = spatial_merge(&own, &vec![SpatialCandidate { u: 65, ..n }], 20);
    assert_eq!(r.sample, 1);
}

#[test]
fn spatial_merge_with_no_neighbours_keeps_own() {
    let own = Reservoir::candidate(1, 10);
    assert_eq!(spatial_merge(&own, &Vec::new(), 20), own);
}

#[test]
fn spatial_merge_skips_overflowing_weight() {
    let own = Reservoir::candidate(1, 10);
    let huge = SpatialCandidate {
        reservoir: Reservoir { sample: 2, w_sum: 0, m: u32::MAX, w: u64::MAX },
        target_pdf: u32::MAX,
        jacobian: u32::MAX,
        visible: true,
        u: 0,
    };
    assert_eq!(spatial_merge(&own, &vec![huge], 20), own);
}

#[test]
fn frame_runs_passes_in_order() {
    let mut cam = CameraController::new(Extent { x: 640, y: 480 });
    assert!(!cam.alternate());
    let d = cam.run(42);
    let order = frame_pass_order();
    assert_eq!(d.len(), 15);
    assert_eq!(order.len(), 15);
    for (dispatch, kind) in d.iter().zip(order.iter()) {
        assert_eq!(dispatch.kind, *kind);
        assert_eq!(dispatch.params, PassParams { seed: 42, frame: 0 });
    }
    assert_eq!(d[0].kind, PassKind::DirectTracing);
    assert_eq!(d[0].size, Extent { x: 80, y: 60 });
    assert_eq!(d[8].kind, PassKind::GiSamplingA);
    assert_eq!(d[8].size, Extent { x: 40, y: 30 });
    assert_eq!(d[14].kind, PassKind::GiResolving);
    assert_eq!(cam.frame, 1);
    assert!(cam.alternate());
    let d = cam.run_with_random_seed().expect("the system random source is available");
    assert_eq!(d[3].params.frame, 1);
    assert!(d.iter().all(|x| x.params.seed == d[0].params.seed));
    assert!(!cam.alternate());
}

#[test]
fn viewport_change_signals_reallocation() {
    let mut cam = CameraController::new(Extent { x: 64, y: 64 });
    assert!(!cam.set_viewport(Extent { x: 64, y: 64 }).reallocated);
    assert!(cam.set_viewport(Extent { x: 128, y: 64 }).reallocated);
    assert_eq!(cam.viewport, Extent { x: 128, y: 64 });
}

#[test]
fn pass_dispatch_sizes() {
    let cam = CameraController { viewport: Extent { x: 1920, y: 1080 }, frame: 9 };
    let d = DirectInitialShadingPass::new().run(&cam).expect("the system random source is available");
    assert_eq!(d.kind, PassKind::DirectInitialShading);
    assert_eq!(d.size, Extent { x: 240, y: 135 });
    assert_eq!(d.params.frame, 9);
    assert_eq!(d, DirectInitialShadingPass::new().dispatch(&cam, d.params.seed));
    let (size, params) = VoxelTracingPass::new().run(&cam, 77);
    assert_eq!(size, Extent { x: 120, y: 67 });
    assert_eq!(params, PassParams { seed: 77, frame: 9 });
    assert_eq!(workgroups(Extent { x: 7, y: 15 }, 1), Extent { x: 0, y: 1 });
}

#[test]
fn first_frame_single_light_resolves_to_direct_contribution() {
    // One light, one lit triangle, no history: the light is the only
    // candidate, drawn with probability one, so its weight is its target
    // value, which is also its unshadowed contribution.
    let contribution: u64 = 1234;
    let fresh = Reservoir::candidate(0, contribution);
    let past = vec![Reservoir::empty(); 1];
    let first_frame = Reprojection { x: -1, y: -1, depth: 0, past_depth: 0, normal_dot: 0 };
    let temporal = temporal_resampling(&fresh, &past, 1, 1, &first_frame, 3, 20);
    let mut r = spatial_merge(&temporal, &Vec::new(), 20);
    r.resolve(contribution);
    assert_eq!(r.w, 1);
    assert_eq!(r.resolved_radiance(contribution), contribution as u128);
}

#[test]
fn empty_reservoir_resolves_to_zero_radiance() {
    let mut r = Reservoir::empty();
    r.resolve(10);
    assert_eq!(r.resolved_radiance(500), 0);
}

#[test]
fn direct_initial_shading_dispatch_carries_seed_and_frame() {
    let cam = CameraController { viewport: Extent { x: 1280, y: 720 }, frame: 7 };
    let d = DirectInitialShadingPass::new().dispatch(&cam, 5);
    assert_eq!(d.kind, PassKind::DirectInitialShading);
    assert_eq!(d.size, Extent { x: 160, y: 90 });
    assert_eq!(d.params, PassParams { seed: 5, frame: 7 });
}

#[test]
fn reservoir_history_read_through_past_stays_capped() {
    let max_m = 20;
    let mut buffers = DoubleBuffered::new(vec![Reservoir::empty(); 4], vec![Reservoir::empty(); 4]);
    for frame in 0..50u64 {
        let alternate = frame % 2 == 1;
        let past = buffers.past().get(alternate).clone();
        let mut next = Vec::new();
        for (i, p) in past.iter().enumerate() {
            let fresh = Reservoir::candidate(i as u32, 1 + frame);
            next.push(temporal_merge(&fresh, p, i != 3, frame * 13 + i as u64, max_m));
        }
        buffers.write(alternate, next);
        assert_eq!(*buffers.curr().get(alternate), *buffers.past().get(!alternate));
    }
    for alternate in [false, true] {
        assert!(buffers.past().get(alternate).iter().all(|r| r.m <= max_m));
    }
    assert_eq!(buffers.past().get(false)[0].m, max_m);
    assert_eq!(buffers.past().get(false)[3].m, 1);
}
