//! The compositor's blur.

use camera::blur::{
    compositor_blur_params, compositor_blur_table, effective_kawase_passes, kawase_chain,
    step_offset, step_offsets, transition_blur_params, PingPong, BLUR_MAX_STEPS, MAX_KAWASE_PASSES,
};
use camera::pipeline::{VideoPipeline, VIDEO_ID_FROSTED};
use camera::setup::allocated_step_sources;

fn offset_of(params: camera::blur::CompositorBlurParams) -> f64 {
    f64::from(params.offset.num) / f64::from(params.offset.den)
}

#[test]
fn compositor_blur_params_match_upstream() {
    let expected: [(u32, f64); 15] = [
        (1, 1.5),
        (1, 2.0),
        (2, 2.5),
        (2, 3.0),
        (3, 2.6),
        (3, 3.2),
        (3, 3.8),
        (3, 4.4),
        (3, 5.0),
        (4, 3.0 + 5.0 / 6.0),
        (4, 3.0 + 10.0 / 6.0),
        (4, 5.5),
        (4, 3.0 + 20.0 / 6.0),
        (4, 3.0 + 25.0 / 6.0),
        (4, 8.0),
    ];
    let table = compositor_blur_table();
    assert_eq!(table.len(), BLUR_MAX_STEPS as usize);
    for (i, (passes, offset)) in expected.into_iter().enumerate() {
        let got = table[i];
        assert_eq!(got.passes, passes, "passes at index {i}");
        assert!(
            (offset_of(got) - offset).abs() < 1e-9,
            "offset at index {i}: got {}, want {offset}",
            offset_of(got)
        );
    }

    for level in 0u8..=13 {
        let got = compositor_blur_params(level);
        let want = expected[level as usize + 1];
        assert_eq!(got.passes, want.0, "passes at frost level {level}");
        assert!(
            (offset_of(got) - want.1).abs() < 1e-9,
            "offset at frost level {level}: got {}, want {}",
            offset_of(got),
            want.1
        );
    }
    assert_eq!(compositor_blur_params(6).passes, 3);
    assert!((offset_of(compositor_blur_params(6)) - 4.4).abs() < 1e-9);
    assert_eq!(compositor_blur_params(200), compositor_blur_params(13));
}

#[test]
fn kawase_passes_are_clamped_to_the_target() {
    assert_eq!(effective_kawase_passes(1080, 2340, 4), 4);
    assert_eq!(effective_kawase_passes(1080, 2340, 1), 1);
    assert_eq!(effective_kawase_passes(1024, 16, 4), 4);
    assert_eq!(effective_kawase_passes(1024, 8, 4), 3);
    assert_eq!(effective_kawase_passes(1, 1, 4), 1);
    assert_eq!(effective_kawase_passes(0, 0, 4), 1);
}

#[test]
fn the_step_allocation_covers_the_whole_table() {
    let worst = (0u8..=13).map(|l| compositor_blur_params(l).passes).max().unwrap();
    assert_eq!(worst, MAX_KAWASE_PASSES);
    assert_eq!(effective_kawase_passes(1080, 2340, worst), worst);

    let mut pipeline = VideoPipeline::new();
    assert_eq!(pipeline.ensure_blur_targets(VIDEO_ID_FROSTED, 1024, 2048), Some((1024, 2048)));
    let steps = allocated_step_sources().len();
    assert_eq!(steps, 2 * worst as usize);
}

#[test]
fn the_blur_chain_costs_what_its_docs_claim() {
    let fill = |passes: u32| -> f64 {
        let mut total = 1.0;
        for k in 0..(2 * passes) {
            let dst_level = if k < passes { k + 1 } else { 2 * passes - k - 1 };
            total += 1.0 / f64::from(1u32 << (2 * dst_level));
        }
        total
    };
    // The steps that are planned write just that, on a target that halves evenly.
    let planned = |passes: u32| -> f64 {
        let side = 1024u32;
        let area = |w: u32, h: u32| f64::from(w) * f64::from(h) / f64::from(side * side);
        1.0 + kawase_chain(side, side, passes)
            .iter()
            .map(|step| area(step.target_width, step.target_height))
            .sum::<f64>()
    };
    for passes in 1..=MAX_KAWASE_PASSES {
        assert!((fill(passes) - planned(passes)).abs() < 1e-9);
    }

    assert!((fill(3) - 2.64).abs() < 0.005, "got {:.3}", fill(3));
    assert!((fill(4) - 2.66).abs() < 0.005, "got {:.3}", fill(4));
    let (lo, hi) = (fill(1), fill(MAX_KAWASE_PASSES));
    assert!(hi - lo < 0.5, "1 pass writes {lo:.3}, {MAX_KAWASE_PASSES} write {hi:.3}");
    for passes in 1..=MAX_KAWASE_PASSES {
        assert!(fill(passes) < 3.0, "{passes} passes write {:.2}", fill(passes));
    }
}

#[test]
fn the_transition_blur_keeps_its_own_parameters() {
    let params = transition_blur_params();
    assert_eq!(params.passes, 4);
    assert!((offset_of(params) - 3.268).abs() < 1e-9);
}

#[test]
fn steps_hand_over_and_end_where_they_began() {
    let steps = kawase_chain(1080, 2340, 3);
    assert_eq!(steps.len(), 6);
    let sizes: Vec<(u32, u32)> = steps.iter().map(|s| (s.target_width, s.target_height)).collect();
    assert_eq!(
        sizes,
        [(540, 1170), (270, 585), (135, 292), (270, 585), (540, 1170), (1080, 2340)]
    );
    assert_eq!(steps[0].source, PingPong::A);
    assert_eq!(steps[5].target, PingPong::A);
    let levels: Vec<u32> = steps.iter().map(|s| s.source_level).collect();
    assert_eq!(levels, [0, 1, 2, 3, 2, 1]);
    for pair in steps.windows(2) {
        assert_eq!(pair[0].target, pair[1].source);
        assert_eq!(pair[0].target_width, pair[1].source_width);
        assert_eq!(pair[0].target_height, pair[1].source_height);
    }
    // However many passes are asked for, no more steps than are allocated.
    assert_eq!(kawase_chain(4096, 4096, 30).len(), allocated_step_sources().len());
    for (k, step) in kawase_chain(4096, 4096, 30).iter().enumerate() {
        assert_eq!(step.source, allocated_step_sources()[k]);
    }
}

#[test]
fn the_blur_thickens_with_every_level_though_the_offset_does_not() {
    let variance = |level: u8| {
        let params = compositor_blur_params(level);
        offset_of(params).powi(2) * (4f64.powi(params.passes as i32) - 1.0)
    };
    for level in 0..13u8 {
        assert!(variance(level) < variance(level + 1), "level {level}");
    }
    assert!(offset_of(compositor_blur_params(2)) > offset_of(compositor_blur_params(3)));
}

#[test]
fn offsets_halve_with_every_level() {
    let params = compositor_blur_params(6);
    assert_eq!((params.offset.num, params.offset.den), (22, 5));
    let offset = step_offset(&params, 0);
    assert_eq!((offset.num, offset.den), (22, 5));
    let offset = step_offset(&params, 3);
    assert_eq!((offset.num, offset.den), (22, 40));
    let offset = step_offset(&params, 31);
    assert_eq!(offset.den, 5 << 31);
    let steps = kawase_chain(1080, 2340, 3);
    let dens: Vec<u64> = step_offsets(&params, &steps).iter().map(|o| o.den).collect();
    assert_eq!(dens, [5, 10, 20, 40, 20, 10]);
}
