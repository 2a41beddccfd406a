use cloak_share::detector::SensitiveDataDetector;
use cloak_share::frame::{test_pattern, test_pattern_fits};
use cloak_share::safe_mirror::{AfterPresent, PresentError, SafeMirror};
use cloak_share::types::{
    DisplayResolution, SensitiveDataType, FALLBACK_FRAME_HEIGHT, FALLBACK_FRAME_WIDTH,
    FALLBACK_WINDOW_HEIGHT, FALLBACK_WINDOW_WIDTH,
};

fn small() -> DisplayResolution {
    DisplayResolution { width: 2, height: 2 }
}

fn pixels() -> Vec<u8> {
    vec![255, 0, 0, 255, 0, 255, 0, 255, 0, 0, 255, 255, 255, 255, 255, 255]
}

fn mirror_with_interval(interval: u32) -> SafeMirror {
    let detector = SensitiveDataDetector::new(Ok(())).unwrap().with_interval(interval).unwrap();
    SafeMirror::new(Some(small()), small(), Ok(detector))
}

fn window() -> DisplayResolution {
    DisplayResolution { width: 1280, height: 720 }
}

#[test]
fn fallback_resolutions() {
    assert_eq!((FALLBACK_FRAME_WIDTH, FALLBACK_FRAME_HEIGHT), (1920, 1080));
    assert_eq!((FALLBACK_WINDOW_WIDTH, FALLBACK_WINDOW_HEIGHT), (1280, 720));
    let fallback = DisplayResolution { width: 1280, height: 720 };
    assert_eq!(DisplayResolution::or_fallback(None, fallback), fallback);
    assert_eq!(DisplayResolution::or_fallback(Some(small()), fallback), small());
}

#[test]
fn a_new_mirror_takes_the_display_resolution_for_its_texture() {
    let mirror = SafeMirror::new(
        Some(DisplayResolution { width: 800, height: 600 }),
        window(),
        Ok(SensitiveDataDetector::new(Ok(())).unwrap()),
    );
    assert_eq!(mirror.frame_size(), DisplayResolution { width: 800, height: 600 });
    assert_eq!(mirror.size(), window());
    assert!(mirror.detection_enabled());
    assert!(mirror.cached().is_empty());
}

#[test]
fn a_new_mirror_falls_back_when_the_display_cannot_be_queried() {
    let mirror = SafeMirror::new(None, window(), SensitiveDataDetector::new(Ok(())));
    assert_eq!(mirror.frame_size(), DisplayResolution { width: 1920, height: 1080 });
    assert_eq!(mirror.size(), window());
}

#[test]
fn a_mirror_without_detector_has_detection_disabled() {
    let mirror =
        SafeMirror::new(None, window(), SensitiveDataDetector::new(Err("no engine".to_string())));
    assert!(!mirror.detection_enabled());
}

#[test]
fn resize_is_reflected_by_size() {
    let mut mirror = mirror_with_interval(60);
    mirror.resize(DisplayResolution { width: 1024, height: 768 });
    assert_eq!(mirror.size(), DisplayResolution { width: 1024, height: 768 });
    mirror.resize(DisplayResolution { width: 0, height: 0 });
    assert_eq!(mirror.size(), DisplayResolution { width: 0, height: 0 });
    mirror.resize(DisplayResolution { width: u32::MAX, height: 1 });
    assert_eq!(mirror.size(), DisplayResolution { width: u32::MAX, height: 1 });
    assert_eq!(mirror.frame_size(), small());
}

#[test]
fn frames_after_a_resize_are_processed_as_before() {
    let mut mirror = mirror_with_interval(1);
    mirror.resize(DisplayResolution { width: 640, height: 480 });
    let frame = mirror.begin_frame(Some(pixels()), Some(small())).unwrap();
    assert_eq!((frame.width(), frame.height()), (2, 2));
    let presented = mirror.update_and_render(frame, None);
    assert_eq!(presented, pixels());
    assert_eq!(
        mirror.after_present(Err(PresentError::SurfaceLost)),
        AfterPresent::Reconfigure(DisplayResolution { width: 640, height: 480 })
    );
}

#[test]
fn a_frame_keeps_the_captured_pixels_and_the_queried_geometry() {
    let mut mirror = mirror_with_interval(60);
    let frame = mirror.begin_frame(Some(pixels()), Some(small())).unwrap();
    assert_eq!(frame.pixels(), &pixels());
    assert_eq!((frame.width(), frame.height()), (2, 2));
    assert!(!frame.extraction_requested());
    assert_eq!(frame.luminance(), None);
}

#[test]
fn without_a_captured_frame_the_test_pattern_is_used() {
    let mut mirror = mirror_with_interval(60);
    let frame = mirror.begin_frame(None, Some(DisplayResolution { width: 4, height: 3 })).unwrap();
    assert_eq!(frame.pixels(), &test_pattern(4, 3));
    assert_eq!((frame.width(), frame.height()), (4, 3));
    let presented = mirror.update_and_render(frame, None);
    assert_eq!(presented, test_pattern(4, 3));
}

#[test]
fn without_geometry_the_tick_completes_with_the_fallback_resolution() {
    let mut mirror = mirror_with_interval(60);
    let frame = mirror.begin_frame(Some(pixels()), None).unwrap();
    assert_eq!((frame.width(), frame.height()), (1920, 1080));
    let presented = mirror.update_and_render(frame, None);
    assert_eq!(presented, pixels());
    assert_eq!(mirror.after_present(Ok(())), AfterPresent::Proceed);
}

#[test]
fn without_frame_and_geometry_the_tick_still_completes() {
    let mut mirror =
        SafeMirror::new(None, window(), SensitiveDataDetector::new(Err("off".to_string())));
    let frame = mirror.begin_frame(None, None).unwrap();
    assert_eq!((frame.width(), frame.height()), (1920, 1080));
    assert_eq!(frame.pixels().len(), 4 * 1920 * 1080);
    assert!(!frame.extraction_requested());
    let presented = mirror.update_and_render(frame, None);
    assert_eq!(presented.len(), 4 * 1920 * 1080);
}

#[test]
fn extraction_is_requested_on_every_sixtieth_frame_only() {
    let mut mirror =
        SafeMirror::new(Some(small()), small(), Ok(SensitiveDataDetector::new(Ok(())).unwrap()));
    for tick in 1..=240u32 {
        let frame = mirror.begin_frame(Some(pixels()), Some(small())).unwrap();
        assert_eq!(frame.extraction_requested(), tick % 60 == 0);
        if tick % 60 == 0 {
            assert_eq!(frame.luminance(), Some(&vec![76u8, 149, 29, 255]));
        }
        mirror.update_and_render(frame, None);
    }
}

#[test]
fn extraction_is_never_requested_without_a_detector() {
    let mut mirror =
        SafeMirror::new(Some(small()), small(), SensitiveDataDetector::new(Err("off".to_string())));
    for _ in 0..130 {
        let frame = mirror.begin_frame(Some(pixels()), Some(small())).unwrap();
        assert!(!frame.extraction_requested());
        let presented =
            mirror.update_and_render(frame, Some("bob@example.org 4532-1234-5678-9012"));
        assert_eq!(presented, pixels());
        assert!(mirror.cached().is_empty());
    }
}

#[test]
fn a_transcript_is_ignored_on_frames_without_a_request() {
    let mut mirror = mirror_with_interval(3);
    let frame = mirror.begin_frame(Some(pixels()), Some(small())).unwrap();
    assert!(!frame.extraction_requested());
    mirror.update_and_render(frame, Some("bob@example.org"));
    assert!(mirror.cached().is_empty());
}

#[test]
fn detection_fills_the_cache_on_a_requested_frame() {
    let mut mirror = mirror_with_interval(2);
    let first = mirror.begin_frame(Some(pixels()), Some(small())).unwrap();
    mirror.update_and_render(first, None);
    let second = mirror.begin_frame(Some(pixels()), Some(small())).unwrap();
    assert!(second.extraction_requested());
    let presented = mirror.update_and_render(second, Some("mail bob@example.org 10.1.2.3"));
    assert_eq!(presented, pixels());
    let cached = mirror.cached().matches();
    assert_eq!(cached.len(), 2);
    assert_eq!(cached[0].data_type, SensitiveDataType::Email);
    assert_eq!(cached[0].text, "bob@example.org");
    assert_eq!(cached[1].data_type, SensitiveDataType::IpAddress);
    assert_eq!(cached[1].text, "10.1.2.3");
}

#[test]
fn the_cache_survives_ticks_without_new_matches() {
    let mut mirror = mirror_with_interval(2);
    for tick in 1..=2 {
        let frame = mirror.begin_frame(Some(pixels()), Some(small())).unwrap();
        let transcript = if tick == 2 { Some("bob@example.org") } else { None };
        mirror.update_and_render(frame, transcript);
    }
    assert_eq!(mirror.cached().len(), 1);
    for tick in 3..=40u32 {
        let frame = mirror.begin_frame(Some(pixels()), Some(small())).unwrap();
        let transcript = match tick % 4 {
            0 => Some("nothing sensitive here"),
            2 => None,
            _ => Some("carol@example.org"),
        };
        mirror.update_and_render(frame, transcript);
        assert_eq!(mirror.cached().len(), 1);
        assert_eq!(mirror.cached().matches()[0].text, "bob@example.org");
    }
}

#[test]
fn a_new_non_empty_result_replaces_the_cache() {
    let mut mirror = mirror_with_interval(1);
    let frame = mirror.begin_frame(Some(pixels()), Some(small())).unwrap();
    mirror.update_and_render(frame, Some("bob@example.org 10.1.2.3"));
    assert_eq!(mirror.cached().len(), 2);
    let frame = mirror.begin_frame(Some(pixels()), Some(small())).unwrap();
    mirror.update_and_render(frame, Some("https://example.org/login"));
    assert_eq!(mirror.cached().len(), 1);
    assert_eq!(mirror.cached().matches()[0].data_type, SensitiveDataType::Url);
}

#[test]
fn present_outcomes_map_to_loop_actions() {
    let mirror = mirror_with_interval(60);
    assert_eq!(mirror.after_present(Ok(())), AfterPresent::Proceed);
    assert_eq!(mirror.after_present(Err(PresentError::SurfaceLost)), AfterPresent::Reconfigure(small()));
    assert_eq!(mirror.after_present(Err(PresentError::OutOfMemory)), AfterPresent::Terminate);
    assert_eq!(mirror.after_present(Err(PresentError::Other)), AfterPresent::Report);
}

#[test]
fn a_tick_without_frame_is_skipped_when_no_test_pattern_can_be_held() {
    let mut mirror = mirror_with_interval(1);
    let absurd = DisplayResolution { width: u32::MAX, height: u32::MAX };
    assert!(!test_pattern_fits(u32::MAX, u32::MAX));
    assert!(mirror.begin_frame(None, Some(absurd)).is_none());
    assert!(mirror.cached().is_empty());
    let frame = mirror.begin_frame(Some(pixels()), Some(absurd)).unwrap();
    assert_eq!((frame.width(), frame.height()), (u32::MAX, u32::MAX));
    assert!(!frame.extraction_requested());
    assert_eq!(mirror.update_and_render(frame, None), pixels());
    let frame = mirror.begin_frame(Some(pixels()), Some(small())).unwrap();
    assert!(frame.extraction_requested());
}

#[test]
fn test_pattern_fits_for_real_displays() {
    assert!(test_pattern_fits(1920, 1080));
    assert!(test_pattern_fits(7680, 4320));
    assert!(test_pattern_fits(0, u32::MAX));
}
