//! Copying a core's frame into a packed 8-bit-per-channel buffer.

use vstd::prelude::*;
use crate::format::PixelFormat;
use crate::pixel::{
    argb555_rgb, argb555to888, lemma_argb555_rgb_from_bytes, lemma_rgb565_rgb_from_bytes, rgb565_rgb,
    rgb565to888,
};

verus! {

/// The three bytes of pixel `p` in a buffer with `stride` bytes per pixel.
pub open spec fn rgb_at(s: Seq<u8>, stride: int, p: int) -> (u8, u8, u8) {
    (s[stride * p], s[stride * p + 1], s[stride * p + 2])
}

/// Bytes per pixel that a copy reads from the core's frame.
pub open spec fn source_stride(format: PixelFormat) -> int {
    match format {
        PixelFormat::ARGB8888 => 4,
        _ => 2,
    }
}

/// Bytes per pixel that a copy writes to the destination.
pub open spec fn target_stride(format: PixelFormat) -> int {
    match format {
        PixelFormat::ARGB8888 => 4,
        _ => 3,
    }
}

/// The 8-bit colour that a copy writes for pixel `p` of `frame`.
pub open spec fn copied_rgb(format: PixelFormat, frame: Seq<u8>, p: int) -> (u8, u8, u8) {
    match format {
        PixelFormat::ARGB1555 => argb555_rgb(frame[2 * p], frame[2 * p + 1]),
        PixelFormat::RGB565 => rgb565_rgb(frame[2 * p], frame[2 * p + 1]),
        PixelFormat::ARGB8888 => (frame[4 * p + 1], frame[4 * p + 2], frame[4 * p + 3]),
    }
}

/// Whether the copy of `pixels` pixels touches only bytes within both buffers:
/// the frame must hold every pixel read, the destination every byte written.
pub open spec fn copy_fits(format: PixelFormat, pixels: int, frame_len: int, target_len: int) -> bool {
    &&& source_stride(format) * pixels <= frame_len
    &&& pixels > 0 ==> target_stride(format) * (pixels - 1) + 3 <= target_len
}

/// Whether byte `k` of the destination is one that a copy of `pixels` pixels
/// writes (the fourth byte of each 32-bit pixel is skipped).
pub open spec fn written_byte(format: PixelFormat, pixels: int, k: int) -> bool {
    &&& 0 <= k < target_stride(format) * pixels
    &&& k % target_stride(format) < 3
}

/// `after` is `before` with the first `pixels` pixels of `frame` copied in:
/// pixel `p` becomes three 8-bit channels at `target_stride * p`, and every
/// other byte keeps its value.
pub open spec fn frame_copied(
    format: PixelFormat,
    pixels: int,
    frame: Seq<u8>,
    before: Seq<u8>,
    after: Seq<u8>,
) -> bool {
    &&& after.len() == before.len()
    &&& forall|p: int| 0 <= p < pixels ==> #[trigger] rgb_at(after, target_stride(format), p) == copied_rgb(format, frame, p)
    &&& forall|k: int| 0 <= k < after.len() && !written_byte(format, pixels, k) ==> #[trigger] after[k] == before[k]
}

proof fn lemma_pixel_index(y: usize, x: usize, w: usize, h: usize)
    requires
        y < h,
        x < w,
    ensures
        y * w + x < w * h,
        y * w + x + 1 <= w * h,
{
    assert(y * w + x < w * h) by (nonlinear_arith)
        requires
            y < h,
            x < w,
    ;
}

proof fn lemma_row_done(y: usize, w: usize)
    ensures
        y * w + w == (y + 1) * w,
{
    assert(y * w + w == (y + 1) * w) by (nonlinear_arith);
}

/// Converts the first `w * h` 16-bit pixels of `fb` to 8-bit RGB triples in `slice`.
fn copy_16bit(fb: &[u8], w: usize, h: usize, format: PixelFormat, slice: &mut [u8])
    requires
        format != PixelFormat::ARGB8888,
        copy_fits(format, w * h, fb@.len() as int, old(slice)@.len() as int),
    ensures
        frame_copied(format, w * h, fb@, old(slice)@, final(slice)@),
{
    let ghost before = slice@;
    let ghost n = w * h;
    let frame_len = fb.len();
    let target_len = slice.len();
    for y in 0..h
        invariant
            format != PixelFormat::ARGB8888,
            frame_len == fb@.len(),
            target_len == before.len(),
            n == w * h,
            copy_fits(format, n, fb@.len() as int, before.len() as int),
            frame_copied(format, y * w, fb@, before, slice@),
    {
        for x in 0..w
            invariant
                format != PixelFormat::ARGB8888,
                y < h,
                frame_len == fb@.len(),
                target_len == before.len(),
                n == w * h,
                copy_fits(format, n, fb@.len() as int, before.len() as int),
                frame_copied(format, y * w + x, fb@, before, slice@),
        {
            proof {
                lemma_pixel_index(y, x, w, h);
            }
            let start = y * w + x;
            let gb = fb[start * 2];
            let arg = fb[start * 2 + 1];
            let (red, green, blue) = match format {
                PixelFormat::RGB565 => rgb565to888(gb, arg),
                _ => argb555to888(gb, arg),
            };
            let ghost mid = slice@;
            slice[start * 3] = red;
            slice[start * 3 + 1] = green;
            slice[start * 3 + 2] = blue;
            proof {
                let s = start as int;
                assert(rgb_at(slice@, 3, s) == copied_rgb(format, fb@, s));
                assert forall|p: int| 0 <= p < s + 1 implies #[trigger] rgb_at(slice@, 3, p)
                    == copied_rgb(format, fb@, p) by {
                    if p < s {
                        assert(rgb_at(mid, 3, p) == copied_rgb(format, fb@, p));
                    }
                }
                assert forall|k: int| 0 <= k < slice@.len() && !written_byte(format, s + 1, k)
                    implies #[trigger] slice@[k] == before[k] by {
                    assert(mid[k] == before[k]);
                }
            }
        }
        proof {
            lemma_row_done(y, w);
        }
    }
    proof {
        lemma_row_done(0, w);
        assert(h * w == w * h) by (nonlinear_arith);
    }
}

/// Copies the red, green and blue bytes of the first `w * h` 32-bit pixels of
/// `fb` into the first three bytes of each 4-byte group of `slice`.
fn copy_32bit(fb: &[u8], w: usize, h: usize, slice: &mut [u8])
    requires
        copy_fits(PixelFormat::ARGB8888, w * h, fb@.len() as int, old(slice)@.len() as int),
    ensures
        frame_copied(PixelFormat::ARGB8888, w * h, fb@, old(slice)@, final(slice)@),
{
    let ghost format = PixelFormat::ARGB8888;
    let ghost before = slice@;
    let ghost n = w * h;
    let frame_len = fb.len();
    let target_len = slice.len();
    for y in 0..h
        invariant
            format == PixelFormat::ARGB8888,
            frame_len == fb@.len(),
            target_len == before.len(),
            n == w * h,
            copy_fits(format, n, fb@.len() as int, before.len() as int),
            frame_copied(format, y * w, fb@, before, slice@),
    {
        for x in 0..w
            invariant
                format == PixelFormat::ARGB8888,
                y < h,
                frame_len == fb@.len(),
                target_len == before.len(),
                n == w * h,
                copy_fits(format, n, fb@.len() as int, before.len() as int),
                frame_copied(format, y * w + x, fb@, before, slice@),
        {
            proof {
                lemma_pixel_index(y, x, w, h);
            }
            let start = y * w + x;
            let off = start * 4;
            let ghost mid = slice@;
            slice[off] = fb[off + 1];
            slice[off + 1] = fb[off + 2];
            slice[off + 2] = fb[off + 3];
            proof {
                let s = (y * w + x) as int;
                assert(rgb_at(slice@, 4, s) == copied_rgb(format, fb@, s));
                assert forall|p: int| 0 <= p < s + 1 implies #[trigger] rgb_at(slice@, 4, p)
                    == copied_rgb(format, fb@, p) by {
                    if p < s {
                        assert(rgb_at(mid, 4, p) == copied_rgb(format, fb@, p));
                    }
                }
                assert forall|k: int| 0 <= k < slice@.len() && !written_byte(format, s + 1, k)
                    implies #[trigger] slice@[k] == before[k] by {
                    assert(mid[k] == before[k]);
                }
            }
        }
        proof {
            lemma_row_done(y, w);
        }
    }
    proof {
        lemma_row_done(0, w);
        assert(h * w == w * h) by (nonlinear_arith);
    }
}

/// Copies the first `w * h` pixels of `fb`, laid out as `format` says, into
/// `slice` as 8-bit red, green and blue: three bytes per pixel for the 16-bit
/// formats, the first three of every four bytes for ARGB8888.
pub fn copy_pixels(fb: &[u8], w: usize, h: usize, format: PixelFormat, slice: &mut [u8])
    requires
        copy_fits(format, w * h, fb@.len() as int, old(slice)@.len() as int),
    ensures
        frame_copied(format, w * h, fb@, old(slice)@, final(slice)@),
{
    match format {
        PixelFormat::ARGB8888 => copy_32bit(fb, w, h, slice),
        _ => copy_16bit(fb, w, h, format, slice),
    }
}

/// A copy of an ARGB1555 frame writes, for each pixel `p`, three bytes at
/// `3 * p`: red, green and blue in that order, each 5-bit field `f` of the
/// pixel's two bytes widened to `8 * f + f / 4`; the bytes past the last
/// pixel keep their values.
pub proof fn lemma_argb1555_copy(pixels: int, frame: Seq<u8>, before: Seq<u8>, after: Seq<u8>, p: int, k: int)
    requires
        frame_copied(PixelFormat::ARGB1555, pixels, frame, before, after),
        0 <= p < pixels,
    ensures
        ({
            let lo = frame[2 * p];
            let hi = frame[2 * p + 1];
            let r = (hi / 4) % 32;
            let g = (hi % 4) * 8 + lo / 32;
            let b = lo % 32;
            &&& after[3 * p] == 8 * r + r / 4
            &&& after[3 * p + 1] == 8 * g + g / 4
            &&& after[3 * p + 2] == 8 * b + b / 4
        }),
        3 * pixels <= k < after.len() ==> after[k] == before[k],
{
    assert(rgb_at(after, target_stride(PixelFormat::ARGB1555), p) == copied_rgb(PixelFormat::ARGB1555, frame, p));
    lemma_argb555_rgb_from_bytes(frame[2 * p], frame[2 * p + 1]);
    if 3 * pixels <= k < after.len() {
        assert(!written_byte(PixelFormat::ARGB1555, pixels, k));
    }
}

/// A copy of an RGB565 frame writes, for each pixel `p`, three bytes at
/// `3 * p`: red, green and blue in that order, the 5-bit fields `f` widened
/// to `8 * f + f / 4` and the 6-bit green `g` to `4 * g + g / 16`; the bytes
/// past the last pixel keep their values.
pub proof fn lemma_rgb565_copy(pixels: int, frame: Seq<u8>, before: Seq<u8>, after: Seq<u8>, p: int, k: int)
    requires
        frame_copied(PixelFormat::RGB565, pixels, frame, before, after),
        0 <= p < pixels,
    ensures
        ({
            let lo = frame[2 * p];
            let hi = frame[2 * p + 1];
            let r = hi / 8;
            let g = (hi % 8) * 8 + lo / 32;
            let b = lo % 32;
            &&& after[3 * p] == 8 * r + r / 4
            &&& after[3 * p + 1] == 4 * g + g / 16
            &&& after[3 * p + 2] == 8 * b + b / 4
        }),
        3 * pixels <= k < after.len() ==> after[k] == before[k],
{
    assert(rgb_at(after, target_stride(PixelFormat::RGB565), p) == copied_rgb(PixelFormat::RGB565, frame, p));
    lemma_rgb565_rgb_from_bytes(frame[2 * p], frame[2 * p + 1]);
    if 3 * pixels <= k < after.len() {
        assert(!written_byte(PixelFormat::RGB565, pixels, k));
    }
}

/// A copy of an ARGB8888 frame moves, for each pixel `p`, the red, green and
/// blue bytes (the second to fourth of the pixel) to `4 * p`, `4 * p + 1` and
/// `4 * p + 2`, leaves the fourth byte of each group and every byte past the
/// last pixel as it was, and drops alpha.
pub proof fn lemma_argb8888_copy(pixels: int, frame: Seq<u8>, before: Seq<u8>, after: Seq<u8>, p: int, k: int)
    requires
        frame_copied(PixelFormat::ARGB8888, pixels, frame, before, after),
        0 <= p < pixels,
    ensures
        after[4 * p] == frame[4 * p + 1],
        after[4 * p + 1] == frame[4 * p + 2],
        after[4 * p + 2] == frame[4 * p + 3],
        0 <= k < after.len() && (k % 4 == 3 || k >= 4 * pixels) ==> after[k] == before[k],
{
    assert(rgb_at(after, target_stride(PixelFormat::ARGB8888), p) == copied_rgb(PixelFormat::ARGB8888, frame, p));
    if 0 <= k < after.len() && (k % 4 == 3 || k >= 4 * pixels) {
        assert(!written_byte(PixelFormat::ARGB8888, pixels, k));
    }
}

} // verus!
