//! Conversion of RGBA frames to the luminance buffers that text extraction reads.

use vstd::prelude::*;

verus! {

/// Luminance of one pixel: 0.299 R + 0.587 G + 0.114 B, rounded down.
pub open spec fn luma(r: u8, g: u8, b: u8) -> int {
    (299 * r + 587 * g + 114 * b) / 1000
}

/// The luminance buffer of an RGBA buffer: one byte per whole pixel, in pixel
/// order. Trailing bytes that do not make up a whole pixel are ignored.
pub open spec fn grayscale_of(rgba: Seq<u8>) -> Seq<u8> {
    Seq::new(
        (rgba.len() / 4) as nat,
        |p: int| luma(rgba[4 * p], rgba[4 * p + 1], rgba[4 * p + 2]) as u8,
    )
}

/// Luminance of one pixel.
pub fn pixel_luma(r: u8, g: u8, b: u8) -> (y: u8)
    ensures
        y == luma(r, g, b),
{
    let weighted: u32 = 299u32 * (r as u32) + 587u32 * (g as u32) + 114u32 * (b as u32);
    (weighted / 1000u32) as u8
}

/// Converts an RGBA buffer to its luminance buffer.
pub fn rgba_to_grayscale(rgba_buffer: &[u8]) -> (grayscale: Vec<u8>)
    ensures
        grayscale@ == grayscale_of(rgba_buffer@),
{
    let pixels: usize = rgba_buffer.len() / 4;
    let mut grayscale: Vec<u8> = Vec::with_capacity(pixels);
    let mut p: usize = 0;
    while p < pixels
        invariant
            pixels == rgba_buffer@.len() / 4,
            4 * pixels <= rgba_buffer@.len() <= usize::MAX,
            p <= pixels,
            grayscale@ == grayscale_of(rgba_buffer@).take(p as int),
        decreases pixels - p,
    {
        let y = pixel_luma(rgba_buffer[4 * p], rgba_buffer[4 * p + 1], rgba_buffer[4 * p + 2]);
        grayscale.push(y);
        assert(grayscale@ =~= grayscale_of(rgba_buffer@).take(p + 1));
        p += 1;
    }
    assert(grayscale_of(rgba_buffer@).take(p as int) =~= grayscale_of(rgba_buffer@));
    grayscale
}

/// Whether a luminance buffer of `len` bytes holds a whole `width` by `height` image.
pub fn luminance_fits(width: u32, height: u32, len: usize) -> (fits: bool)
    ensures
        fits == (width * height <= len),
{
    assert(width * height <= 0xffff_ffff * 0xffff_ffff) by (nonlinear_arith)
        requires
            width <= 0xffff_ffff,
            height <= 0xffff_ffff,
    ;
    (width as u64) * (height as u64) <= len as u64
}

} // verus!
