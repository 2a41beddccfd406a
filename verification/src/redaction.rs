//! Painting opaque blocks over the frame regions that matches name.

use vstd::prelude::*;
use vstd::arithmetic::div_mod::{lemma_fundamental_div_mod, lemma_fundamental_div_mod_converse};
use crate::types::{matches_view, MatchView, SensitiveMatch};

verus! {

/// An RGBA8 colour.
#[derive(Debug, Clone, Copy, PartialEq, Eq, Structural)]
pub struct Rgba {
    pub r: u8,
    pub g: u8,
    pub b: u8,
    pub a: u8,
}

impl Rgba {
    /// The byte this colour puts at offset `channel` of a pixel.
    pub open spec fn channel(self, channel: int) -> u8 {
        if channel == 0 {
            self.r
        } else if channel == 1 {
            self.g
        } else if channel == 2 {
            self.b
        } else {
            self.a
        }
    }
}

/// A rectangle in frame coordinates. It may reach beyond the frame.
#[derive(Debug, Clone, Copy, PartialEq, Eq, Structural)]
pub struct Region {
    pub x: u32,
    pub y: u32,
    pub width: u32,
    pub height: u32,
}

/// The colour of a redaction block: opaque black.
pub open spec fn redaction_color() -> Rgba {
    Rgba { r: 0, g: 0, b: 0, a: 255 }
}

/// The colour of the diagnostic block: opaque red.
pub open spec fn test_color() -> Rgba {
    Rgba { r: 255, g: 0, b: 0, a: 255 }
}

/// The region of the diagnostic block: 200 by 100 pixels at the top-left corner.
pub open spec fn test_region() -> Region {
    Region { x: 0, y: 0, width: 200, height: 100 }
}

/// The region a match names.
pub open spec fn region_of(m: MatchView) -> Region {
    Region { x: m.x, y: m.y, width: m.width, height: m.height }
}

/// The row of pixel number `pixel` in a frame `frame_width` pixels wide.
pub open spec fn pixel_row(pixel: int, frame_width: u32) -> int {
    pixel / (frame_width as int)
}

/// The column of pixel number `pixel` in a frame `frame_width` pixels wide.
pub open spec fn pixel_col(pixel: int, frame_width: u32) -> int {
    pixel % (frame_width as int)
}

/// Whether `region`, clamped to a frame of the given size, holds pixel number
/// `pixel`. A region of zero width or height holds no pixel.
pub open spec fn region_covers(
    region: Region,
    frame_width: u32,
    frame_height: u32,
    pixel: int,
) -> bool {
    &&& frame_width > 0
    &&& region.x <= pixel_col(pixel, frame_width) < region.x + region.width
    &&& region.y <= pixel_row(pixel, frame_width) < region.y + region.height
    &&& pixel_row(pixel, frame_width) < frame_height
}

/// `buffer` with every whole pixel that `region` covers set to `color`.
pub open spec fn painted(
    buffer: Seq<u8>,
    frame_width: u32,
    frame_height: u32,
    region: Region,
    color: Rgba,
) -> Seq<u8> {
    Seq::new(
        buffer.len(),
        |i: int|
            if i / 4 < buffer.len() / 4 && region_covers(region, frame_width, frame_height, i / 4) {
                color.channel(i % 4)
            } else {
                buffer[i]
            },
    )
}

/// Whether some match of `matches` covers pixel number `pixel`.
pub open spec fn any_covers(
    matches: Seq<MatchView>,
    frame_width: u32,
    frame_height: u32,
    pixel: int,
) -> bool {
    exists|k: int|
        0 <= k < matches.len() && #[trigger] region_covers(
            region_of(matches[k]),
            frame_width,
            frame_height,
            pixel,
        )
}

/// `buffer` with every whole pixel that some match covers set to the
/// redaction colour, and every other byte as it was.
pub open spec fn redacted(
    buffer: Seq<u8>,
    frame_width: u32,
    frame_height: u32,
    matches: Seq<MatchView>,
) -> Seq<u8> {
    Seq::new(
        buffer.len(),
        |i: int|
            if i / 4 < buffer.len() / 4 && any_covers(matches, frame_width, frame_height, i / 4) {
                redaction_color().channel(i % 4)
            } else {
                buffer[i]
            },
    )
}

/// `buffer` with the covered pixels that come before (`row`, `col`) in row
/// order set to `color`: the state of a paint that has got that far.
pub open spec fn painted_before(
    buffer: Seq<u8>,
    frame_width: u32,
    frame_height: u32,
    region: Region,
    color: Rgba,
    row: int,
    col: int,
) -> Seq<u8> {
    Seq::new(
        buffer.len(),
        |i: int|
            if i / 4 < buffer.len() / 4 && region_covers(region, frame_width, frame_height, i / 4)
                && (pixel_row(i / 4, frame_width) < row || (pixel_row(i / 4, frame_width) == row
                && pixel_col(i / 4, frame_width) < col)) {
                color.channel(i % 4)
            } else {
                buffer[i]
            },
    )
}

/// A pixel number splits into its row and column.
pub proof fn lemma_pixel_index(pixel: int, frame_width: u32)
    requires
        frame_width > 0,
        0 <= pixel,
    ensures
        0 <= pixel_col(pixel, frame_width) < frame_width,
        0 <= pixel_row(pixel, frame_width),
        pixel == pixel_row(pixel, frame_width) * frame_width + pixel_col(pixel, frame_width),
{
    lemma_fundamental_div_mod(pixel, frame_width as int);
    assert(pixel_row(pixel, frame_width) * frame_width == frame_width * pixel_row(
        pixel,
        frame_width,
    )) by (nonlinear_arith);
    assert(0 <= pixel / (frame_width as int)) by (nonlinear_arith)
        requires
            0 <= pixel,
            frame_width > 0,
    ;
}

/// The pixel at (`row`, `col`) has the number `row * frame_width + col`.
pub proof fn lemma_pixel_position(row: int, col: int, frame_width: u32)
    requires
        0 <= row,
        0 <= col < frame_width,
    ensures
        0 <= row * frame_width + col,
        pixel_row(row * frame_width + col, frame_width) == row,
        pixel_col(row * frame_width + col, frame_width) == col,
{
    assert(row * frame_width == frame_width * row) by (nonlinear_arith);
    assert(0 <= row * frame_width) by (nonlinear_arith)
        requires
            0 <= row,
            0 <= frame_width,
    ;
    lemma_fundamental_div_mod_converse(
        row * frame_width + col,
        frame_width as int,
        row,
        col,
    );
}

/// `region` cut down to what lies inside a frame of the given size.
pub open spec fn clamped(region: Region, frame_width: u32, frame_height: u32) -> Region {
    let left = if region.x < frame_width {
        region.x
    } else {
        frame_width
    };
    let right = if region.x + region.width <= frame_width {
        region.x + region.width
    } else {
        frame_width as int
    };
    let top = if region.y < frame_height {
        region.y
    } else {
        frame_height
    };
    let bottom = if region.y + region.height <= frame_height {
        region.y + region.height
    } else {
        frame_height as int
    };
    Region { x: left, y: top, width: (right - left) as u32, height: (bottom - top) as u32 }
}

/// A clamped region lies inside the frame and covers the pixels that the
/// region itself covers there.
pub proof fn lemma_clamped_covers(region: Region, frame_width: u32, frame_height: u32, pixel: int)
    requires
        0 <= pixel,
    ensures
        clamped(region, frame_width, frame_height).x + clamped(
            region,
            frame_width,
            frame_height,
        ).width <= frame_width,
        clamped(region, frame_width, frame_height).y + clamped(
            region,
            frame_width,
            frame_height,
        ).height <= frame_height,
        region_covers(clamped(region, frame_width, frame_height), frame_width, frame_height, pixel)
            == region_covers(region, frame_width, frame_height, pixel),
{
    if frame_width > 0 {
        lemma_pixel_index(pixel, frame_width);
    }
}

/// Clamps `region` to a frame of the given size.
pub fn clamp_region(region: Region, frame_width: u32, frame_height: u32) -> (inside: Region)
    ensures
        inside == clamped(region, frame_width, frame_height),
        inside.x + inside.width <= frame_width,
        inside.y + inside.height <= frame_height,
{
    let left: u32 = if region.x < frame_width {
        region.x
    } else {
        frame_width
    };
    let right: u64 = if region.x as u64 + region.width as u64 <= frame_width as u64 {
        region.x as u64 + region.width as u64
    } else {
        frame_width as u64
    };
    let top: u32 = if region.y < frame_height {
        region.y
    } else {
        frame_height
    };
    let bottom: u64 = if region.y as u64 + region.height as u64 <= frame_height as u64 {
        region.y as u64 + region.height as u64
    } else {
        frame_height as u64
    };
    Region {
        x: left,
        y: top,
        width: (right - left as u64) as u32,
        height: (bottom - top as u64) as u32,
    }
}

/// Sets the four bytes of pixel number `pixel` to `color`.
fn paint_pixel(buffer: &mut Vec<u8>, pixel: usize, color: Rgba)
    requires
        4 * pixel + 3 < old(buffer).len(),
    ensures
        final(buffer)@.len() == old(buffer)@.len(),
        forall|i: int|
            0 <= i < old(buffer)@.len() ==> #[trigger] final(buffer)@[i] == (if i / 4 == pixel {
                color.channel(i % 4)
            } else {
                old(buffer)@[i]
            }),
{
    let base: usize = 4 * pixel;
    buffer.set(base, color.r);
    buffer.set(base + 1, color.g);
    buffer.set(base + 2, color.b);
    buffer.set(base + 3, color.a);
}

/// Clamps `region` to a frame of `frame_width` by `frame_height` pixels and
/// paints `color` over every pixel left in it. `buffer` holds the frame, four
/// bytes a pixel, row after row; pixels that it does not hold whole are left out.
pub fn fill_region(
    buffer: &mut Vec<u8>,
    frame_width: u32,
    frame_height: u32,
    region: Region,
    color: Rgba,
)
    ensures
        final(buffer)@ == painted(old(buffer)@, frame_width, frame_height, region, color),
{
    let ghost start = buffer@;
    let whole_pixels: u64 = (buffer.len() / 4) as u64;
    let width: u64 = frame_width as u64;
    let inside = clamp_region(region, frame_width, frame_height);
    let first_col: u64 = inside.x as u64;
    let end_col: u64 = inside.x as u64 + inside.width as u64;
    let first_row: u64 = inside.y as u64;
    let end_row: u64 = inside.y as u64 + inside.height as u64;
    if frame_width == 0 {
        assert(buffer@ =~= painted(start, frame_width, frame_height, region, color));
        return ;
    }
    assert(buffer@ =~= painted_before(
        start,
        frame_width,
        frame_height,
        region,
        color,
        first_row as int,
        0,
    ));
    let mut row: u64 = first_row;
    while row < end_row
        invariant
            frame_width > 0,
            width == frame_width,
            whole_pixels == start.len() / 4,
            start.len() <= usize::MAX,
            buffer@.len() == start.len(),
            inside == clamped(region, frame_width, frame_height),
            first_col == inside.x,
            end_col == inside.x + inside.width,
            first_row == inside.y,
            end_row == inside.y + inside.height,
            first_row <= row <= end_row,
            buffer@ == painted_before(
                start,
                frame_width,
                frame_height,
                region,
                color,
                row as int,
                0,
            ),
        decreases end_row - row,
    {
        assert(buffer@ =~= painted_before(
            start,
            frame_width,
            frame_height,
            region,
            color,
            row as int,
            first_col as int,
        )) by {
            assert forall|i: int| 0 <= i < start.len() implies buffer@[i] == painted_before(
                start,
                frame_width,
                frame_height,
                region,
                color,
                row as int,
                first_col as int,
            )[i] by {
                lemma_pixel_index(i / 4, frame_width);
            }
        }
        let mut col: u64 = first_col;
        while col < end_col
            invariant
                frame_width > 0,
                width == frame_width,
                whole_pixels == start.len() / 4,
                start.len() <= usize::MAX,
                buffer@.len() == start.len(),
                inside == clamped(region, frame_width, frame_height),
                first_col == inside.x,
                end_col == inside.x + inside.width,
                first_col <= col <= end_col,
                inside.y <= row < inside.y + inside.height,
                buffer@ == painted_before(
                    start,
                    frame_width,
                    frame_height,
                    region,
                    color,
                    row as int,
                    col as int,
                ),
            decreases end_col - col,
        {
            let ghost before = buffer@;
            proof {
                lemma_pixel_position(row as int, col as int, frame_width);
                assert(row * width + col < 0x1_0000_0000 * 0x1_0000_0000) by (nonlinear_arith)
                    requires
                        0 <= row < 0x1_0000_0000,
                        0 <= col < width,
                        width < 0x1_0000_0000,
                ;
            }
            let pixel: u64 = row * width + col;
            if pixel < whole_pixels {
                paint_pixel(buffer, pixel as usize, color);
            }
            assert(buffer@ =~= painted_before(
                start,
                frame_width,
                frame_height,
                region,
                color,
                row as int,
                col + 1,
            )) by {
                assert forall|i: int| 0 <= i < start.len() implies buffer@[i] == painted_before(
                    start,
                    frame_width,
                    frame_height,
                    region,
                    color,
                    row as int,
                    col + 1,
                )[i] by {
                    lemma_pixel_index(i / 4, frame_width);
                    assert(before[i] == painted_before(
                        start,
                        frame_width,
                        frame_height,
                        region,
                        color,
                        row as int,
                        col as int,
                    )[i]);
                }
            }
            col += 1;
        }
        assert(buffer@ =~= painted_before(
            start,
            frame_width,
            frame_height,
            region,
            color,
            row + 1,
            0,
        )) by {
            assert forall|i: int| 0 <= i < start.len() implies buffer@[i] == painted_before(
                start,
                frame_width,
                frame_height,
                region,
                color,
                row + 1,
                0,
            )[i] by {
                lemma_pixel_index(i / 4, frame_width);
            }
        }
        row += 1;
    }
    assert(buffer@ =~= painted(start, frame_width, frame_height, region, color));
}

/// Painting the region of one more match over a redacted buffer gives the
/// buffer redacted by the longer sequence of matches.
pub proof fn lemma_redacted_push(
    buffer: Seq<u8>,
    frame_width: u32,
    frame_height: u32,
    matches: Seq<MatchView>,
    next: MatchView,
)
    ensures
        painted(
            redacted(buffer, frame_width, frame_height, matches),
            frame_width,
            frame_height,
            region_of(next),
            redaction_color(),
        ) == redacted(buffer, frame_width, frame_height, matches.push(next)),
{
    let longer = matches.push(next);
    assert forall|pixel: int|
        any_covers(longer, frame_width, frame_height, pixel) == (any_covers(
            matches,
            frame_width,
            frame_height,
            pixel,
        ) || region_covers(region_of(next), frame_width, frame_height, pixel)) by {
        if any_covers(matches, frame_width, frame_height, pixel) {
            let k = choose|k: int|
                0 <= k < matches.len() && #[trigger] region_covers(
                    region_of(matches[k]),
                    frame_width,
                    frame_height,
                    pixel,
                );
            assert(region_covers(region_of(longer[k]), frame_width, frame_height, pixel));
        }
        if region_covers(region_of(next), frame_width, frame_height, pixel) {
            assert(region_covers(
                region_of(longer[matches.len() as int]),
                frame_width,
                frame_height,
                pixel,
            ));
        }
        if any_covers(longer, frame_width, frame_height, pixel) {
            let k = choose|k: int|
                0 <= k < longer.len() && #[trigger] region_covers(
                    region_of(longer[k]),
                    frame_width,
                    frame_height,
                    pixel,
                );
            if k < matches.len() {
                assert(region_covers(region_of(matches[k]), frame_width, frame_height, pixel));
            }
        }
    }
    assert(painted(
        redacted(buffer, frame_width, frame_height, matches),
        frame_width,
        frame_height,
        region_of(next),
        redaction_color(),
    ) =~= redacted(buffer, frame_width, frame_height, longer));
}

/// Redacting a buffer that the same matches have already redacted changes nothing.
pub proof fn lemma_redaction_idempotent(
    buffer: Seq<u8>,
    frame_width: u32,
    frame_height: u32,
    matches: Seq<MatchView>,
)
    ensures
        redacted(
            redacted(buffer, frame_width, frame_height, matches),
            frame_width,
            frame_height,
            matches,
        ) == redacted(buffer, frame_width, frame_height, matches),
{
    assert(redacted(
        redacted(buffer, frame_width, frame_height, matches),
        frame_width,
        frame_height,
        matches,
    ) =~= redacted(buffer, frame_width, frame_height, matches));
}

/// Listing a match a second time redacts nothing more.
pub proof fn lemma_redaction_ignores_repeats(
    buffer: Seq<u8>,
    frame_width: u32,
    frame_height: u32,
    matches: Seq<MatchView>,
    k: int,
)
    requires
        0 <= k < matches.len(),
    ensures
        redacted(buffer, frame_width, frame_height, matches.push(matches[k])) == redacted(
            buffer,
            frame_width,
            frame_height,
            matches,
        ),
{
    lemma_redacted_push(buffer, frame_width, frame_height, matches, matches[k]);
    assert(painted(
        redacted(buffer, frame_width, frame_height, matches),
        frame_width,
        frame_height,
        region_of(matches[k]),
        redaction_color(),
    ) =~= redacted(buffer, frame_width, frame_height, matches));
}

/// A match whose region has zero width or height redacts nothing.
pub proof fn lemma_empty_region_paints_nothing(
    buffer: Seq<u8>,
    frame_width: u32,
    frame_height: u32,
    region: Region,
    color: Rgba,
)
    requires
        region.width == 0 || region.height == 0,
    ensures
        painted(buffer, frame_width, frame_height, region, color) == buffer,
{
    assert(painted(buffer, frame_width, frame_height, region, color) =~= buffer);
}

/// With no matches nothing is redacted.
pub proof fn lemma_no_matches_redact_nothing(buffer: Seq<u8>, frame_width: u32, frame_height: u32)
    ensures
        redacted(buffer, frame_width, frame_height, Seq::<MatchView>::empty()) == buffer,
{
    assert(redacted(buffer, frame_width, frame_height, Seq::<MatchView>::empty()) =~= buffer);
}

/// Paints the redaction colour over the region of every match, each clamped
/// to the frame.
pub fn apply_redaction(
    rgba_buffer: &mut Vec<u8>,
    width: u32,
    height: u32,
    matches: &Vec<SensitiveMatch>,
)
    ensures
        final(rgba_buffer)@ == redacted(old(rgba_buffer)@, width, height, matches_view(matches@)),
{
    let ghost start = rgba_buffer@;
    let color = Rgba { r: 0, g: 0, b: 0, a: 255 };
    let mut k: usize = 0;
    proof {
        assert(matches_view(matches@).take(0) =~= Seq::<MatchView>::empty());
        lemma_no_matches_redact_nothing(start, width, height);
    }
    while k < matches.len()
        invariant
            k <= matches.len(),
            color == redaction_color(),
            rgba_buffer@ == redacted(start, width, height, matches_view(matches@).take(k as int)),
        decreases matches.len() - k,
    {
        let region = Region {
            x: matches[k].x,
            y: matches[k].y,
            width: matches[k].width,
            height: matches[k].height,
        };
        proof {
            let done = matches_view(matches@).take(k as int);
            assert(region == region_of(matches[k as int]@));
            assert(matches_view(matches@).take(k + 1) =~= done.push(matches[k as int]@));
            lemma_redacted_push(start, width, height, done, matches[k as int]@);
        }
        fill_region(rgba_buffer, width, height, region, color);
        k += 1;
    }
    assert(matches_view(matches@).take(k as int) =~= matches_view(matches@));
}

/// Paints the diagnostic block: opaque red over the top-left 200 by 100
/// pixels, clamped to the frame.
pub fn test_redaction(rgba_buffer: &mut Vec<u8>, width: u32, height: u32)
    ensures
        final(rgba_buffer)@ == painted(
            old(rgba_buffer)@,
            width,
            height,
            test_region(),
            test_color(),
        ),
{
    fill_region(
        rgba_buffer,
        width,
        height,
        Region { x: 0, y: 0, width: 200, height: 100 },
        Rgba { r: 255, g: 0, b: 0, a: 255 },
    );
}

} // verus!
