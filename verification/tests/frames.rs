use cloak_share::duty_cycle::{DutyCycle, DETECTION_INTERVAL};
use cloak_share::frame::test_pattern;
use cloak_share::luminance::{luminance_fits, pixel_luma, rgba_to_grayscale};

#[test]
fn luma_of_primaries_is_rounded_down() {
    assert_eq!(pixel_luma(255, 0, 0), 76);
    assert_eq!(pixel_luma(0, 255, 0), 149);
    assert_eq!(pixel_luma(0, 0, 255), 29);
    assert_eq!(pixel_luma(0, 0, 0), 0);
    assert_eq!(pixel_luma(255, 255, 255), 255);
    assert_eq!(pixel_luma(10, 20, 30), 18);
}

#[test]
fn luma_of_grey_is_the_grey_level() {
    for level in 0..=255u8 {
        assert_eq!(pixel_luma(level, level, level), level);
    }
}

#[test]
fn grayscale_has_one_byte_per_whole_pixel_and_ignores_alpha() {
    let rgba = vec![255u8, 0, 0, 7, 0, 255, 0, 200, 0, 0, 255, 0, 9, 9];
    assert_eq!(rgba_to_grayscale(&rgba), vec![76u8, 149, 29]);
}

#[test]
fn grayscale_of_nothing_is_nothing() {
    assert_eq!(rgba_to_grayscale(&[]), Vec::<u8>::new());
    assert_eq!(rgba_to_grayscale(&[1, 2, 3]), Vec::<u8>::new());
}

#[test]
fn luminance_fits_compares_area_with_length() {
    assert!(luminance_fits(0, 0, 0));
    assert!(luminance_fits(0, 5, 0));
    assert!(luminance_fits(2, 3, 6));
    assert!(luminance_fits(2, 3, 7));
    assert!(!luminance_fits(2, 3, 5));
    assert!(!luminance_fits(u32::MAX, u32::MAX, 1 << 20));
    assert!(!luminance_fits(65536, 65536, u32::MAX as usize));
}

#[test]
fn duty_cycle_fires_exactly_on_multiples_of_sixty() {
    assert_eq!(DETECTION_INTERVAL, 60);
    let mut cycle = DutyCycle::standard();
    assert_eq!(cycle.interval(), 60);
    for tick in 1..=600u32 {
        assert_eq!(cycle.tick(), tick % 60 == 0);
    }
}

#[test]
fn duty_cycle_with_interval_seven() {
    let mut cycle = DutyCycle::new(7).unwrap();
    assert_eq!(cycle.interval(), 7);
    let fired: Vec<u32> = (1..=30u32).filter(|_| cycle.tick()).collect();
    assert_eq!(fired, vec![7, 14, 21, 28]);
}

#[test]
fn duty_cycle_with_the_largest_interval_does_not_fire_early() {
    let mut cycle = DutyCycle::new(u32::MAX).unwrap();
    for _ in 0..1000 {
        assert!(!cycle.tick());
    }
}

#[test]
fn duty_cycle_refuses_interval_zero() {
    assert!(DutyCycle::new(0).is_none());
}

#[test]
fn test_pattern_bytes() {
    assert_eq!(
        test_pattern(3, 2),
        vec![
            0u8, 0, 128, 255, 1, 0, 128, 255, 2, 0, 128, 255, 0, 1, 128, 255, 1, 1, 128, 255, 2,
            1, 128, 255,
        ]
    );
}

#[test]
fn test_pattern_wraps_after_256_columns() {
    let pattern = test_pattern(300, 1);
    assert_eq!(pattern.len(), 1200);
    assert_eq!(&pattern[4 * 255..4 * 257], &[255u8, 0, 128, 255, 0, 0, 128, 255]);
}

#[test]
fn test_pattern_of_an_empty_frame_is_empty() {
    assert!(test_pattern(0, 10).is_empty());
    assert!(test_pattern(10, 0).is_empty());
}

#[test]
fn test_pattern_is_deterministic() {
    assert_eq!(test_pattern(17, 5), test_pattern(17, 5));
}
