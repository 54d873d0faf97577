use raw_processor::frame::FrameParams;
use raw_processor::stage::{
    bindings, frame_plan, images, outputs, push_constants, stage_plan, Binding, ImageFormat,
    StageKind, ViewSource, STAGE_COUNT,
};

fn params(width: i32, height: i32, cfa: i32) -> FrameParams {
    FrameParams::new(
        [width, height],
        2 * width as usize * height as usize,
        cfa,
        4095,
        [256, 257, 258, -1],
        [0x3f80_0000; 3],
        [0x3f80_0000, 0x3f00_0000, 0x4000_0000, 0x3f80_0000],
        [11, 12, 13, 21, 22, 23, 31, 32, 33],
        [0; 9],
        [0; 9],
    )
    .unwrap()
}

#[test]
fn chain_order() {
    let kinds: Vec<StageKind> = (0..STAGE_COUNT).map(StageKind::at).collect();
    assert_eq!(
        kinds,
        vec![
            StageKind::ShiftBayer,
            StageKind::Normalize,
            StageKind::Demosaic,
            StageKind::ColorCorrection,
            StageKind::GammaCorrection,
            StageKind::Quantize,
        ]
    );
}

#[test]
fn shift_constants_follow_the_arrangement() {
    assert_eq!(push_constants(StageKind::ShiftBayer, &params(8, 8, 0)), vec![0, 0]);
    assert_eq!(push_constants(StageKind::ShiftBayer, &params(8, 8, 1)), vec![1, 0]);
    assert_eq!(push_constants(StageKind::ShiftBayer, &params(8, 8, 2)), vec![0, 1]);
    assert_eq!(push_constants(StageKind::ShiftBayer, &params(8, 8, 3)), vec![1, 1]);
    assert_eq!(push_constants(StageKind::ShiftBayer, &params(8, 8, 9)), vec![0, 0]);
}

#[test]
fn normalize_constants_are_gains_black_levels_white_level() {
    assert_eq!(
        push_constants(StageKind::Normalize, &params(8, 8, 0)),
        vec![0x3f80_0000, 0x3f00_0000, 0x4000_0000, 0x3f80_0000, 256, 257, 258, 0xffff_ffff, 4095]
    );
}

#[test]
fn doubling_the_red_gain_changes_only_its_word() {
    let p = params(8, 8, 0);
    let mut q = p;
    q.color_gains[0] = 0x4000_0000;
    let a = push_constants(StageKind::Normalize, &p);
    let b = push_constants(StageKind::Normalize, &q);
    assert_eq!(b[0], 0x4000_0000);
    assert_eq!(a[1..], b[1..]);
}

#[test]
fn demosaic_constants_are_the_size() {
    assert_eq!(push_constants(StageKind::Demosaic, &params(640, 480, 0)), vec![640, 480]);
}

#[test]
fn color_matrix_rows_are_padded_to_four_words() {
    assert_eq!(
        push_constants(StageKind::ColorCorrection, &params(8, 8, 0)),
        vec![11, 12, 13, 0, 21, 22, 23, 0, 31, 32, 33, 0]
    );
}

#[test]
fn last_two_passes_push_nothing() {
    assert!(push_constants(StageKind::GammaCorrection, &params(8, 8, 0)).is_empty());
    assert!(push_constants(StageKind::Quantize, &params(8, 8, 0)).is_empty());
}

#[test]
fn shift_pass_creates_upload_target_and_shifted_image() {
    let imgs = images(StageKind::ShiftBayer, &params(16, 8, 0));
    assert_eq!(imgs.len(), 2);
    assert!(imgs.iter().all(|i| i.format == ImageFormat::R16Uint && i.usage.storage));
    assert!(imgs[0].usage.transfer_dst);
    assert!(!imgs[1].usage.transfer_dst);
}

#[test]
fn in_place_passes_create_nothing_and_pass_their_input_on() {
    for k in [StageKind::ColorCorrection, StageKind::GammaCorrection] {
        assert!(images(k, &params(8, 8, 0)).is_empty());
        assert_eq!(outputs(k), vec![ViewSource::Input(0)]);
        assert_eq!(
            bindings(k),
            vec![Binding { source: ViewSource::Input(0), format: ImageFormat::R16G16B16A16Sfloat }]
        );
    }
}

#[test]
fn normalize_reads_the_shifted_image() {
    assert_eq!(bindings(StageKind::Normalize)[0].source, ViewSource::Input(1));
}

#[test]
fn quantize_writes_a_transfer_source_rgba8_image() {
    let imgs = images(StageKind::Quantize, &params(8, 8, 0));
    assert_eq!(imgs.len(), 1);
    assert_eq!(imgs[0].format, ImageFormat::R8G8B8A8Unorm);
    assert!(imgs[0].usage.storage && imgs[0].usage.transfer_src);
}

#[test]
fn every_image_has_the_frame_extent() {
    for (w, h) in [(640, 480), (1920, 1080), (4032, 3024), (3, 1)] {
        for plan in frame_plan(&params(w, h, 0)) {
            for img in plan.images {
                assert_eq!((img.width, img.height, img.depth), (w as u32, h as u32, 1));
            }
        }
    }
}

#[test]
fn only_first_pass_uploads_and_only_last_reads_back() {
    let p = params(1920, 1080, 1);
    let plan = frame_plan(&p);
    assert_eq!(plan.len(), 6);
    assert_eq!(plan[0].upload_len, Some(2 * 1920 * 1080));
    assert_eq!(plan[5].readback_len, Some(4 * 1920 * 1080));
    for i in 1..6 {
        assert_eq!(plan[i].upload_len, None);
    }
    for i in 0..5 {
        assert_eq!(plan[i].readback_len, None);
    }
}

#[test]
fn bound_views_match_declared_formats_along_the_chain() {
    let p = params(32, 16, 0);
    let plan = frame_plan(&p);
    let mut received: Vec<ImageFormat> = Vec::new();
    for (i, stage) in plan.iter().enumerate() {
        let format_of = |s: ViewSource| match s {
            ViewSource::Input(j) => received[j],
            ViewSource::Created(j) => stage.images[j].format,
        };
        if i == 0 {
            assert!(stage.bindings.iter().all(|b| matches!(b.source, ViewSource::Created(_))));
        }
        for b in &stage.bindings {
            assert_eq!(format_of(b.source), b.format);
        }
        received = stage.outputs.iter().map(|s| format_of(*s)).collect();
    }
    assert_eq!(received, vec![ImageFormat::R8G8B8A8Unorm]);
}

#[test]
fn identical_parameters_give_identical_plans() {
    let a = frame_plan(&params(64, 48, 2));
    let b = frame_plan(&params(64, 48, 2));
    for (x, y) in a.iter().zip(b.iter()) {
        assert_eq!(x.kind, y.kind);
        assert_eq!(x.upload_len, y.upload_len);
        assert_eq!(x.images, y.images);
        assert_eq!(x.bindings, y.bindings);
        assert_eq!(x.outputs, y.outputs);
        assert_eq!(x.push_constants, y.push_constants);
        assert_eq!(x.readback_len, y.readback_len);
    }
}

#[test]
fn single_stage_plan_matches_its_parts() {
    let p = params(10, 6, 3);
    let s = stage_plan(StageKind::Demosaic, &p);
    assert_eq!(s.kind, StageKind::Demosaic);
    assert_eq!(s.images, images(StageKind::Demosaic, &p));
    assert_eq!(s.bindings, bindings(StageKind::Demosaic));
    assert_eq!(s.outputs, vec![ViewSource::Created(0)]);
    assert_eq!(s.push_constants, vec![10, 6]);
}
