//! Frames on their way through one tick, and the synthetic frame that stands
//! in when nothing was captured.

use vstd::prelude::*;
use crate::redaction::{lemma_pixel_position, pixel_col, pixel_row};

verus! {

/// Byte `i` of the test pattern for a frame `width` pixels wide: red follows
/// the column, green the row, blue is constant and the pixel is opaque.
pub open spec fn test_pattern_byte(width: u32, i: int) -> u8 {
    let channel = i % 4;
    if channel == 0 {
        (pixel_col(i / 4, width) % 256) as u8
    } else if channel == 1 {
        (pixel_row(i / 4, width) % 256) as u8
    } else if channel == 2 {
        128
    } else {
        255
    }
}

/// The test pattern for a frame of `width` by `height` pixels.
pub open spec fn test_pattern_of(width: u32, height: u32) -> Seq<u8> {
    Seq::new((4 * (width * height)) as nat, |i: int| test_pattern_byte(width, i))
}

/// Whether the test pattern for a frame of `width` by `height` pixels can be
/// held in memory at all.
pub fn test_pattern_fits(width: u32, height: u32) -> (fits: bool)
    ensures
        fits == (4 * (width * height) <= usize::MAX),
{
    assert(width * height <= 0xffff_ffff * 0xffff_ffff) by (nonlinear_arith)
        requires
            width <= 0xffff_ffff,
            height <= 0xffff_ffff,
    ;
    (width as u64) * (height as u64) <= (usize::MAX / 4) as u64
}

/// Builds the test pattern for a frame of `width` by `height` pixels.
pub fn test_pattern(width: u32, height: u32) -> (pattern: Vec<u8>)
    requires
        4 * (width * height) <= usize::MAX,
    ensures
        pattern@ == test_pattern_of(width, height),
{
    let mut pattern: Vec<u8> = Vec::new();
    let mut row: u32 = 0;
    while row < height
        invariant
            row <= height,
            pattern@.len() == 4 * (row * width),
            forall|i: int| 0 <= i < pattern@.len() ==> pattern@[i] == test_pattern_byte(width, i),
        decreases height - row,
    {
        let mut col: u32 = 0;
        while col < width
            invariant
                col <= width,
                row < height,
                pattern@.len() == 4 * (row * width + col),
                forall|i: int|
                    0 <= i < pattern@.len() ==> pattern@[i] == test_pattern_byte(width, i),
            decreases width - col,
        {
            proof {
                lemma_pixel_position(row as int, col as int, width);
            }
            pattern.push((col % 256) as u8);
            pattern.push((row % 256) as u8);
            pattern.push(128);
            pattern.push(255);
            col += 1;
        }
        assert(row * width + width == (row + 1) * width) by (nonlinear_arith);
        row += 1;
    }
    assert(row * width == width * height) by (nonlinear_arith)
        requires
            row == height,
    ;
    assert(pattern@ =~= test_pattern_of(width, height));
    pattern
}

/// A frame between the two halves of a tick: its pixels and geometry, and the
/// luminance buffer that text extraction is asked to read, if detection is
/// due on this frame.
pub struct PendingFrame {
    pixels: Vec<u8>,
    width: u32,
    height: u32,
    luminance: Option<Vec<u8>>,
}

impl PendingFrame {
    /// The RGBA bytes of the frame.
    pub closed spec fn pixel_bytes(self) -> Seq<u8> {
        self.pixels@
    }

    /// The width the frame is taken to have.
    pub closed spec fn frame_width(self) -> u32 {
        self.width
    }

    /// The height the frame is taken to have.
    pub closed spec fn frame_height(self) -> u32 {
        self.height
    }

    /// The luminance buffer to extract text from, if extraction is requested.
    pub closed spec fn requested_luminance(self) -> Option<Seq<u8>> {
        match self.luminance {
            Some(bytes) => Some(bytes@),
            None => None,
        }
    }

    pub(crate) fn new(pixels: Vec<u8>, width: u32, height: u32, luminance: Option<Vec<u8>>) -> (frame:
        PendingFrame)
        ensures
            frame.pixel_bytes() == pixels@,
            frame.frame_width() == width,
            frame.frame_height() == height,
            frame.requested_luminance() == (match luminance {
                Some(bytes) => Some(bytes@),
                None => None,
            }),
    {
        PendingFrame { pixels, width, height, luminance }
    }

    /// The RGBA bytes of the frame.
    pub fn pixels(&self) -> (pixels: &Vec<u8>)
        ensures
            pixels@ == self.pixel_bytes(),
    {
        &self.pixels
    }

    /// The width the frame is taken to have.
    pub fn width(&self) -> (width: u32)
        ensures
            width == self.frame_width(),
    {
        self.width
    }

    /// The height the frame is taken to have.
    pub fn height(&self) -> (height: u32)
        ensures
            height == self.frame_height(),
    {
        self.height
    }

    /// The luminance buffer to extract text from, if extraction is requested.
    pub fn luminance(&self) -> (luminance: Option<&Vec<u8>>)
        ensures
            self.requested_luminance() == (match luminance {
                Some(bytes) => Some(bytes@),
                None => None,
            }),
    {
        self.luminance.as_ref()
    }

    /// Whether text extraction is requested for this frame.
    pub fn extraction_requested(&self) -> (requested: bool)
        ensures
            requested == self.requested_luminance().is_some(),
    {
        self.luminance.is_some()
    }

    /// Takes the frame apart into its pixels and whether extraction was requested.
    pub(crate) fn into_pixels(self) -> (parts: (Vec<u8>, bool))
        ensures
            parts.0@ == self.pixel_bytes(),
            parts.1 == self.requested_luminance().is_some(),
    {
        let requested = self.luminance.is_some();
        (self.pixels, requested)
    }
}

} // verus!
