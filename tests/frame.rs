use raw_processor::cfa::CfaPattern;
use raw_processor::frame::{FrameError, FrameParams};

fn params(width: i32, height: i32, raw_len: usize, cfa: i32) -> Result<FrameParams, FrameError> {
    let ccm = [1, 2, 3, 4, 5, 6, 7, 8, 9];
    FrameParams::new(
        [width, height],
        raw_len,
        cfa,
        1023,
        [64, 65, 66, 67],
        [10, 11, 12],
        [20, 21, 22, 23],
        ccm,
        [0; 9],
        [0; 9],
    )
}

fn ok(width: i32, height: i32) -> FrameParams {
    params(width, height, 2 * width as usize * height as usize, 0).unwrap()
}

#[test]
fn zero_or_negative_size_is_refused() {
    assert_eq!(params(0, 10, 1000, 0).unwrap_err(), FrameError::NonPositiveSize);
    assert_eq!(params(10, 0, 1000, 0).unwrap_err(), FrameError::NonPositiveSize);
    assert_eq!(params(-4, 10, 1000, 0).unwrap_err(), FrameError::NonPositiveSize);
    assert_eq!(params(10, -4, 1000, 0).unwrap_err(), FrameError::NonPositiveSize);
}

#[test]
fn raw_region_shorter_than_two_bytes_per_pixel_is_refused() {
    assert_eq!(params(4, 3, 23, 0).unwrap_err(), FrameError::RawTooShort);
    assert_eq!(params(4, 3, 0, 0).unwrap_err(), FrameError::RawTooShort);
    assert!(params(4, 3, 24, 0).is_ok());
    assert!(params(4, 3, 100, 0).is_ok());
}

#[test]
fn accepted_parameters_are_kept() {
    let p = params(6, 4, 48, 2).unwrap();
    assert_eq!(p.width, 6);
    assert_eq!(p.height, 4);
    assert_eq!(p.raw_len, 48);
    assert_eq!(p.cfa, CfaPattern::Gbrg);
    assert_eq!(p.white_level, 1023);
    assert_eq!(p.black_level, [64, 65, 66, 67]);
    assert_eq!(p.neutral_point, [10, 11, 12]);
    assert_eq!(p.color_gains, [20, 21, 22, 23]);
    assert_eq!(p.color_correction_transform, [1, 2, 3, 4, 5, 6, 7, 8, 9]);
}

#[test]
fn extent_is_width_height_one() {
    assert_eq!(ok(640, 480).extent(), [640, 480, 1]);
}

#[test]
fn work_groups_round_up() {
    assert_eq!(ok(640, 480).work_groups(), [80, 60, 1]);
    assert_eq!(ok(641, 479).work_groups(), [81, 60, 1]);
    assert_eq!(ok(1, 1).work_groups(), [1, 1, 1]);
    assert_eq!(ok(4032, 3024).work_groups(), [504, 378, 1]);
}

#[test]
fn work_groups_cover_every_pixel() {
    for w in 1..40i32 {
        let g = ok(w, 1).work_groups();
        assert!(g[0] * 8 >= w as u32);
        assert!((g[0] - 1) * 8 < w as u32);
    }
}

#[test]
fn output_lengths_of_common_sizes() {
    assert_eq!(ok(640, 480).output_len(), 1_228_800);
    assert_eq!(ok(1920, 1080).output_len(), 8_294_400);
    assert_eq!(ok(4032, 3024).output_len(), 48_771_072);
}

#[test]
fn output_length_of_the_largest_size() {
    let p = params(i32::MAX, i32::MAX, usize::MAX, 0).unwrap();
    assert_eq!(p.output_len(), 4 * (i32::MAX as u64) * (i32::MAX as u64));
}

#[test]
fn output_region_must_hold_the_result() {
    let p = ok(3, 2);
    assert!(p.output_fits(24));
    assert!(p.output_fits(25));
    assert!(!p.output_fits(23));
}
