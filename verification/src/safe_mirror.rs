//! The frame orchestrator: what happens to a frame between capture and
//! presentation, and what follows from the way presentation ended.

use vstd::prelude::*;
use crate::cache::{cache_after, RedactionCache};
use crate::detector::{
    detection_result,
    extraction_request,
    transcript_view,
    SensitiveDataDetector,
};
use crate::frame::{test_pattern, test_pattern_fits, test_pattern_of, PendingFrame};
use crate::redaction::{apply_redaction, redacted};
use crate::types::{
    DisplayResolution,
    MatchView,
    FALLBACK_FRAME_HEIGHT,
    FALLBACK_FRAME_WIDTH,
};

verus! {

/// The ways presenting a frame can fail.
#[derive(Debug, Clone, Copy, PartialEq, Eq, Structural)]
pub enum PresentError {
    /// The surface was lost and has to be configured again.
    SurfaceLost,
    /// The presentation device ran out of memory.
    OutOfMemory,
    /// Anything else; the frame is dropped.
    Other,
}

/// What the render loop has to do after a frame was handed to presentation.
#[derive(Debug, Clone, Copy, PartialEq, Eq, Structural)]
pub enum AfterPresent {
    /// Go on with the next tick.
    Proceed,
    /// Configure the surface again with the given size, then go on.
    Reconfigure(DisplayResolution),
    /// Report the failure, drop this frame and go on with the next tick.
    Report,
    /// End the process.
    Terminate,
}

/// The resolution frames are taken to have when the display cannot be queried.
pub open spec fn fallback_frame_resolution() -> DisplayResolution {
    DisplayResolution { width: FALLBACK_FRAME_WIDTH, height: FALLBACK_FRAME_HEIGHT }
}

/// The resolution a frame is taken to have, given what the display query produced.
pub open spec fn frame_resolution(query: Option<DisplayResolution>) -> DisplayResolution {
    match query {
        Some(found) => found,
        None => fallback_frame_resolution(),
    }
}

/// The pixels a tick works on: the captured ones, or the test pattern for
/// `resolution` when nothing was captured.
pub open spec fn frame_pixels(captured: Option<Vec<u8>>, resolution: DisplayResolution) -> Seq<u8> {
    match captured {
        Some(pixels) => pixels@,
        None => test_pattern_of(resolution.width, resolution.height),
    }
}

/// Whether a tick has a frame to work on: a captured one, or a test pattern
/// for `resolution` that fits in memory.
pub open spec fn frame_available(captured: Option<Vec<u8>>, resolution: DisplayResolution) -> bool {
    captured is Some || 4 * (resolution.width * resolution.height) <= usize::MAX
}

/// The detector after it was shown one more frame.
pub open spec fn detector_advanced(
    before: Option<SensitiveDataDetector>,
    after: Option<SensitiveDataDetector>,
) -> bool {
    match before {
        Some(earlier) => after matches Some(later) && later.frame_count() == earlier.frame_count()
            + 1 && later.interval() == earlier.interval() && later.catalog() == earlier.catalog(),
        None => after is None,
    }
}

/// The luminance buffer that a tick asks text extraction to read: none
/// without a detector, otherwise what the detector's duty cycle and the
/// frame's geometry allow.
pub open spec fn requested_extraction(
    detector: Option<SensitiveDataDetector>,
    pixels: Seq<u8>,
    resolution: DisplayResolution,
) -> Option<Seq<u8>> {
    match detector {
        Some(shown) => extraction_request(
            shown.frame_count() % shown.interval() == 0,
            pixels,
            resolution.width,
            resolution.height,
        ),
        None => None,
    }
}

/// What detection reports for a frame: nothing unless extraction was
/// requested for it and a detector is there, otherwise the detection result
/// for the transcript.
pub open spec fn frame_detection(
    detector: Option<SensitiveDataDetector>,
    requested: bool,
    transcript: Option<Seq<char>>,
) -> Seq<MatchView> {
    match detector {
        Some(present) => if requested {
            detection_result(present.catalog(), transcript)
        } else {
            Seq::empty()
        },
        None => Seq::empty(),
    }
}

/// Coordinates detection, the redaction cache and redaction for the frames
/// of a mirrored display, and keeps the sizes of the presentation surface and
/// of the texture that frames are uploaded to.
pub struct SafeMirror {
    surface: DisplayResolution,
    texture: DisplayResolution,
    sensitive_detector: Option<SensitiveDataDetector>,
    cached_sensitive_matches: RedactionCache,
}

impl SafeMirror {
    /// The size of the presentation surface.
    pub closed spec fn surface_size(self) -> DisplayResolution {
        self.surface
    }

    /// The size of the texture that frames are uploaded to.
    pub closed spec fn texture_size(self) -> DisplayResolution {
        self.texture
    }

    /// The detector, if detection is enabled.
    pub closed spec fn detector(self) -> Option<SensitiveDataDetector> {
        self.sensitive_detector
    }

    /// The matches that are redacted at present.
    pub closed spec fn cached_matches(self) -> Seq<MatchView> {
        self.cached_sensitive_matches@
    }

    /// A mirror for a surface of size `surface`. Its texture has the
    /// display's resolution, or the fallback resolution when the query
    /// failed; detection is enabled when a detector could be made and
    /// disabled otherwise; nothing is redacted yet.
    pub fn new(
        resolution: Option<DisplayResolution>,
        surface: DisplayResolution,
        detector: Result<SensitiveDataDetector, String>,
    ) -> (mirror: SafeMirror)
        ensures
            mirror.surface_size() == surface,
            mirror.texture_size() == frame_resolution(resolution),
            mirror.cached_matches() == Seq::<MatchView>::empty(),
            mirror.detector() == (match detector {
                Ok(made) => Some(made),
                Err(_) => None,
            }),
    {
        let texture = DisplayResolution::or_fallback(
            resolution,
            DisplayResolution { width: FALLBACK_FRAME_WIDTH, height: FALLBACK_FRAME_HEIGHT },
        );
        let sensitive_detector = match detector {
            Ok(made) => Some(made),
            Err(_) => None,
        };
        SafeMirror {
            surface,
            texture,
            sensitive_detector,
            cached_sensitive_matches: RedactionCache::new(),
        }
    }

    /// Takes over the new size of the presentation surface.
    pub fn resize(&mut self, new_size: DisplayResolution)
        ensures
            final(self).surface_size() == new_size,
            final(self).texture_size() == old(self).texture_size(),
            final(self).detector() == old(self).detector(),
            final(self).cached_matches() == old(self).cached_matches(),
    {
        self.surface = new_size;
    }

    /// The size of the presentation surface.
    pub fn size(&self) -> (size: DisplayResolution)
        ensures
            size == self.surface_size(),
    {
        self.surface
    }

    /// The size of the texture that frames are uploaded to.
    pub fn frame_size(&self) -> (size: DisplayResolution)
        ensures
            size == self.texture_size(),
    {
        self.texture
    }

    /// Whether detection is enabled.
    pub fn detection_enabled(&self) -> (enabled: bool)
        ensures
            enabled == self.detector().is_some(),
    {
        self.sensitive_detector.is_some()
    }

    /// The matches that are redacted at present.
    pub fn cached(&self) -> (cache: &RedactionCache)
        ensures
            cache@ == self.cached_matches(),
    {
        &self.cached_sensitive_matches
    }

    /// First half of a tick. Settles the frame to work on (the captured
    /// pixels, or the test pattern when there are none) and its geometry (the
    /// display's resolution, or the fallback), shows the frame to the
    /// detector, and says whether text is to be extracted from it. The tick
    /// is skipped, and nothing changes, only when nothing was captured and the
    /// display reports a resolution whose test pattern no memory could hold.
    pub fn begin_frame(
        &mut self,
        captured: Option<Vec<u8>>,
        resolution: Option<DisplayResolution>,
    ) -> (begun: Option<PendingFrame>)
        ensures
            begun is Some <==> frame_available(captured, frame_resolution(resolution)),
            resolution is None ==> begun is Some,
            begun matches Some(frame) ==> {
                &&& frame.frame_width() == frame_resolution(resolution).width
                &&& frame.frame_height() == frame_resolution(resolution).height
                &&& frame.pixel_bytes() == frame_pixels(captured, frame_resolution(resolution))
                &&& frame.requested_luminance() == requested_extraction(
                    final(self).detector(),
                    frame.pixel_bytes(),
                    frame_resolution(resolution),
                )
                &&& detector_advanced(old(self).detector(), final(self).detector())
            },
            begun is None ==> final(self).detector() == old(self).detector(),
            final(self).surface_size() == old(self).surface_size(),
            final(self).texture_size() == old(self).texture_size(),
            final(self).cached_matches() == old(self).cached_matches(),
    {
        let geometry = DisplayResolution::or_fallback(
            resolution,
            DisplayResolution { width: FALLBACK_FRAME_WIDTH, height: FALLBACK_FRAME_HEIGHT },
        );
        let pixels = match captured {
            Some(pixels) => pixels,
            None => {
                assert(4 * (FALLBACK_FRAME_WIDTH * FALLBACK_FRAME_HEIGHT) <= u32::MAX <= usize::MAX);
                if !test_pattern_fits(geometry.width, geometry.height) {
                    return None;
                }
                test_pattern(geometry.width, geometry.height)
            },
        };
        let luminance = match &mut self.sensitive_detector {
            Some(detector) => detector.begin_detection(
                pixels.as_slice(),
                geometry.width,
                geometry.height,
            ),
            None => None,
        };
        Some(PendingFrame::new(pixels, geometry.width, geometry.height, luminance))
    }

    /// Second half of a tick. When text extraction was requested for the
    /// frame, runs detection on the transcript and offers the result to the
    /// cache; then redacts the frame with what the cache holds and returns
    /// the pixels to present.
    pub fn update_and_render(&mut self, frame: PendingFrame, transcript: Option<&str>) -> (presented:
        Vec<u8>)
        ensures
            final(self).cached_matches() == cache_after(
                old(self).cached_matches(),
                frame_detection(
                    old(self).detector(),
                    frame.requested_luminance().is_some(),
                    transcript_view(transcript),
                ),
            ),
            presented@ == redacted(
                frame.pixel_bytes(),
                frame.frame_width(),
                frame.frame_height(),
                final(self).cached_matches(),
            ),
            final(self).detector() == old(self).detector(),
            final(self).surface_size() == old(self).surface_size(),
            final(self).texture_size() == old(self).texture_size(),
    {
        let width = frame.width();
        let height = frame.height();
        let (mut pixels, requested) = frame.into_pixels();
        if requested {
            match &self.sensitive_detector {
                Some(detector) => {
                    let new_matches = detector.detect_sensitive_data(transcript);
                    self.cached_sensitive_matches.update(new_matches);
                },
                None => {},
            }
        }
        apply_redaction(&mut pixels, width, height, self.cached_sensitive_matches.matches());
        pixels
    }

    /// What the render loop does after presenting a frame: nothing more when
    /// it went well, configure the surface again with its present size when
    /// the surface was lost, end the process when memory ran out, and report
    /// and skip the frame on any other failure.
    pub fn after_present(&self, outcome: Result<(), PresentError>) -> (action: AfterPresent)
        ensures
            action == (match outcome {
                Ok(_) => AfterPresent::Proceed,
                Err(PresentError::SurfaceLost) => AfterPresent::Reconfigure(self.surface_size()),
                Err(PresentError::OutOfMemory) => AfterPresent::Terminate,
                Err(PresentError::Other) => AfterPresent::Report,
            }),
    {
        match outcome {
            Ok(_) => AfterPresent::Proceed,
            Err(PresentError::SurfaceLost) => AfterPresent::Reconfigure(self.surface),
            Err(PresentError::OutOfMemory) => AfterPresent::Terminate,
            Err(PresentError::Other) => AfterPresent::Report,
        }
    }
}

} // verus!
