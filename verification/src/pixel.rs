//! Conversions of one 16-bit libretro pixel into 8-bit red, green and blue.

use vstd::prelude::*;

verus! {

/// The 16-bit pixel stored, native little-endian, in the two bytes `lo`, `hi`.
pub open spec fn pixel16(lo: u8, hi: u8) -> u16 {
    (((hi as u16) << 8u16) | (lo as u16)) as u16
}

/// A 5-bit field widened to 8 bits: shifted to the top, with its own high
/// bits repeated in the three low bits that the shift leaves empty.
pub open spec fn expand5(v: int) -> int {
    v * 8 + v / 4
}

/// A 6-bit field widened to 8 bits: shifted to the top, with its own high
/// bits repeated in the two low bits that the shift leaves empty.
pub open spec fn expand6(v: int) -> int {
    v * 4 + v / 16
}

/// Red, green and blue fields of an ARGB1555 pixel (bits 10..15, 5..10, 0..5;
/// the alpha bit 15 is ignored).
pub open spec fn argb1555_fields(lo: u8, hi: u8) -> (int, int, int) {
    let p = pixel16(lo, hi);
    (((p >> 10u16) & 0x1fu16) as int, ((p >> 5u16) & 0x1fu16) as int, (p & 0x1fu16) as int)
}

/// Red, green and blue fields of an RGB565 pixel (bits 11..16, 5..11, 0..5).
pub open spec fn rgb565_fields(lo: u8, hi: u8) -> (int, int, int) {
    let p = pixel16(lo, hi);
    (((p >> 11u16) & 0x1fu16) as int, ((p >> 5u16) & 0x3fu16) as int, (p & 0x1fu16) as int)
}

/// The 8-bit colour of an ARGB1555 pixel.
pub open spec fn argb555_rgb(lo: u8, hi: u8) -> (u8, u8, u8) {
    let f = argb1555_fields(lo, hi);
    (expand5(f.0) as u8, expand5(f.1) as u8, expand5(f.2) as u8)
}

/// The 8-bit colour of an RGB565 pixel.
pub open spec fn rgb565_rgb(lo: u8, hi: u8) -> (u8, u8, u8) {
    let f = rgb565_fields(lo, hi);
    (expand5(f.0) as u8, expand6(f.1) as u8, expand5(f.2) as u8)
}

proof fn lemma_widen5(v: u8)
    requires
        v < 32,
    ensures
        ((v << 3u8) | (v >> 2u8)) as int == expand5(v as int),
        expand5(v as int) < 256,
{
    assert(((v << 3u8) | (v >> 2u8)) == v * 8 + v / 4) by (bit_vector)
        requires
            v < 32u8,
    ;
}

proof fn lemma_widen6(v: u8)
    requires
        v < 64,
    ensures
        ((v << 2u8) | (v >> 4u8)) as int == expand6(v as int),
        expand6(v as int) < 256,
{
    assert(((v << 2u8) | (v >> 4u8)) == v * 4 + v / 16) by (bit_vector)
        requires
            v < 64u8,
    ;
}

/// Converts an ARGB1555 pixel, given as its low and high byte, to 8-bit red,
/// green and blue.
pub fn argb555to888(lo: u8, hi: u8) -> (rgb: (u8, u8, u8))
    ensures
        rgb == argb555_rgb(lo, hi),
{
    let r = (hi & 0b0111_1100) >> 2;
    assert(((hi & 0x03u8) << 3u8) + ((lo & 0xe0u8) >> 5u8) < 32) by (bit_vector);
    let g = ((hi & 0b0000_0011) << 3) + ((lo & 0b1110_0000) >> 5);
    let b = lo & 0b0001_1111;
    proof {
        assert(r < 32 && r as int == (((((hi as u16) << 8u16) | (lo as u16)) >> 10u16) & 0x1fu16))
            by (bit_vector)
            requires
                r == (hi & 0x7cu8) >> 2u8,
        ;
        assert(g < 32 && g as int == (((((hi as u16) << 8u16) | (lo as u16)) >> 5u16) & 0x1fu16))
            by (bit_vector)
            requires
                g == ((hi & 0x03u8) << 3u8) + ((lo & 0xe0u8) >> 5u8),
        ;
        assert(b < 32 && b as int == ((((hi as u16) << 8u16) | (lo as u16)) & 0x1fu16))
            by (bit_vector)
            requires
                b == lo & 0x1fu8,
        ;
        lemma_widen5(r);
        lemma_widen5(g);
        lemma_widen5(b);
    }
    // Use high bits for empty low bits
    let r = (r << 3) | (r >> 2);
    let g = (g << 3) | (g >> 2);
    let b = (b << 3) | (b >> 2);
    (r, g, b)
}

/// Converts an RGB565 pixel, given as its low and high byte, to 8-bit red,
/// green and blue.
pub fn rgb565to888(lo: u8, hi: u8) -> (rgb: (u8, u8, u8))
    ensures
        rgb == rgb565_rgb(lo, hi),
{
    let r = (hi & 0b1111_1000) >> 3;
    assert(((hi & 0x07u8) << 3u8) + ((lo & 0xe0u8) >> 5u8) < 64) by (bit_vector);
    let g = ((hi & 0b0000_0111) << 3) + ((lo & 0b1110_0000) >> 5);
    let b = lo & 0b0001_1111;
    proof {
        assert(r < 32 && r as int == (((((hi as u16) << 8u16) | (lo as u16)) >> 11u16) & 0x1fu16))
            by (bit_vector)
            requires
                r == (hi & 0xf8u8) >> 3u8,
        ;
        assert(g < 64 && g as int == (((((hi as u16) << 8u16) | (lo as u16)) >> 5u16) & 0x3fu16))
            by (bit_vector)
            requires
                g == ((hi & 0x07u8) << 3u8) + ((lo & 0xe0u8) >> 5u8),
        ;
        assert(b < 32 && b as int == ((((hi as u16) << 8u16) | (lo as u16)) & 0x1fu16))
            by (bit_vector)
            requires
                b == lo & 0x1fu8,
        ;
        lemma_widen5(r);
        lemma_widen6(g);
        lemma_widen5(b);
    }
    // Use high bits for empty low bits
    let r = (r << 3) | (r >> 2);
    let g = (g << 2) | (g >> 4);
    let b = (b << 3) | (b >> 2);
    (r, g, b)
}

/// A 5-bit field spans the whole 8-bit range: 0 stays 0 and 31 becomes 255.
pub proof fn lemma_expand5_full_range(v: int)
    requires
        0 <= v < 32,
    ensures
        expand5(0) == 0,
        expand5(31) == 255,
        0 <= expand5(v) <= 255,
{
}

/// Widening a 5-bit field keeps its order strictly, so no two fields share a value.
pub proof fn lemma_expand5_strictly_increasing(a: int, b: int)
    requires
        0 <= a < b < 32,
    ensures
        expand5(a) < expand5(b),
{
}

/// The widened value holds the field in its top five bits and the field's own
/// top three bits in its low three.
pub proof fn lemma_expand5_replicates(v: int)
    requires
        0 <= v < 32,
    ensures
        expand5(v) / 8 == v,
        expand5(v) % 8 == v / 4,
{
}

/// A 6-bit field spans the whole 8-bit range: 0 stays 0 and 63 becomes 255.
pub proof fn lemma_expand6_full_range(v: int)
    requires
        0 <= v < 64,
    ensures
        expand6(0) == 0,
        expand6(63) == 255,
        0 <= expand6(v) <= 255,
{
}

/// Widening a 6-bit field keeps its order strictly, so no two fields share a value.
pub proof fn lemma_expand6_strictly_increasing(a: int, b: int)
    requires
        0 <= a < b < 64,
    ensures
        expand6(a) < expand6(b),
{
}

/// The widened value holds the field in its top six bits and the field's own
/// top two bits in its low two.
pub proof fn lemma_expand6_replicates(v: int)
    requires
        0 <= v < 64,
    ensures
        expand6(v) / 4 == v,
        expand6(v) % 4 == v / 16,
{
}

/// Both conversions give back every field in the high bits of its channel, so
/// two pixels that differ in a colour field convert to different colours.
pub proof fn lemma_fields_read_back(lo: u8, hi: u8)
    ensures
        argb555_rgb(lo, hi).0 / 8 == argb1555_fields(lo, hi).0,
        argb555_rgb(lo, hi).1 / 8 == argb1555_fields(lo, hi).1,
        argb555_rgb(lo, hi).2 / 8 == argb1555_fields(lo, hi).2,
        rgb565_rgb(lo, hi).0 / 8 == rgb565_fields(lo, hi).0,
        rgb565_rgb(lo, hi).1 / 4 == rgb565_fields(lo, hi).1,
        rgb565_rgb(lo, hi).2 / 8 == rgb565_fields(lo, hi).2,
{
    let p = pixel16(lo, hi);
    assert(((p >> 10u16) & 0x1fu16) < 32u16 && ((p >> 5u16) & 0x1fu16) < 32u16 && (p & 0x1fu16) < 32u16) by (bit_vector);
    assert(((p >> 11u16) & 0x1fu16) < 32u16 && ((p >> 5u16) & 0x3fu16) < 64u16) by (bit_vector);
    let a = argb1555_fields(lo, hi);
    let c = rgb565_fields(lo, hi);
    lemma_expand5_replicates(a.0);
    lemma_expand5_replicates(a.1);
    lemma_expand5_replicates(a.2);
    lemma_expand5_replicates(c.0);
    lemma_expand6_replicates(c.1);
    lemma_expand5_replicates(c.2);
}

/// Two RGB565 pixels convert to the same colour only when they are the same pixel.
pub proof fn lemma_rgb565_one_to_one(lo1: u8, hi1: u8, lo2: u8, hi2: u8)
    requires
        rgb565_rgb(lo1, hi1) == rgb565_rgb(lo2, hi2),
    ensures
        lo1 == lo2,
        hi1 == hi2,
{
    lemma_fields_read_back(lo1, hi1);
    lemma_fields_read_back(lo2, hi2);
    let p = pixel16(lo1, hi1);
    let q = pixel16(lo2, hi2);
    assert(p == q) by (bit_vector)
        requires
            (p >> 11u16) & 0x1fu16 == (q >> 11u16) & 0x1fu16,
            (p >> 5u16) & 0x3fu16 == (q >> 5u16) & 0x3fu16,
            p & 0x1fu16 == q & 0x1fu16,
    ;
    assert(lo1 == lo2 && hi1 == hi2) by (bit_vector)
        requires
            (((hi1 as u16) << 8u16) | (lo1 as u16)) == (((hi2 as u16) << 8u16) | (lo2 as u16)),
    ;
}

/// The byte fields of an ARGB1555 pixel `lo`, `hi`: red is bits 2..7 of
/// `hi`, green the low two bits of `hi` above the top three of `lo`, blue the
/// low five bits of `lo`; the top bit of `hi` (alpha) takes no part.
proof fn lemma_argb1555_fields_from_bytes(lo: u8, hi: u8)
    ensures
        argb1555_fields(lo, hi).0 == (hi / 4) % 32,
        argb1555_fields(lo, hi).1 == (hi % 4) * 8 + lo / 32,
        argb1555_fields(lo, hi).2 == lo % 32,
{
    assert((((((hi as u16) << 8u16) | (lo as u16)) >> 10u16) & 0x1fu16) == (hi / 4) % 32) by (bit_vector);
    assert((((((hi as u16) << 8u16) | (lo as u16)) >> 5u16) & 0x1fu16) == (hi % 4) * 8 + lo / 32) by (bit_vector);
    assert(((((hi as u16) << 8u16) | (lo as u16)) & 0x1fu16) == lo % 32) by (bit_vector);
}

/// The byte fields of an RGB565 pixel `lo`, `hi`: red is the top five bits of
/// `hi`, green the low three bits of `hi` above the top three of `lo`, blue
/// the low five bits of `lo`.
proof fn lemma_rgb565_fields_from_bytes(lo: u8, hi: u8)
    ensures
        rgb565_fields(lo, hi).0 == hi / 8,
        rgb565_fields(lo, hi).1 == (hi % 8) * 8 + lo / 32,
        rgb565_fields(lo, hi).2 == lo % 32,
{
    assert((((((hi as u16) << 8u16) | (lo as u16)) >> 11u16) & 0x1fu16) == hi / 8) by (bit_vector);
    assert((((((hi as u16) << 8u16) | (lo as u16)) >> 5u16) & 0x3fu16) == (hi % 8) * 8 + lo / 32) by (bit_vector);
    assert(((((hi as u16) << 8u16) | (lo as u16)) & 0x1fu16) == lo % 32) by (bit_vector);
}

/// The colour of an ARGB1555 pixel, in the order red, green, blue, computed
/// from its two bytes: each 5-bit field `f` becomes `8 * f + f / 4`.
pub proof fn lemma_argb555_rgb_from_bytes(lo: u8, hi: u8)
    ensures
        ({
            let r = (hi / 4) % 32;
            let g = (hi % 4) * 8 + lo / 32;
            let b = lo % 32;
            &&& argb555_rgb(lo, hi).0 == 8 * r + r / 4
            &&& argb555_rgb(lo, hi).1 == 8 * g + g / 4
            &&& argb555_rgb(lo, hi).2 == 8 * b + b / 4
        }),
{
    lemma_argb1555_fields_from_bytes(lo, hi);
}

/// The colour of an RGB565 pixel, in the order red, green, blue, computed
/// from its two bytes: each 5-bit field `f` becomes `8 * f + f / 4`, the
/// 6-bit green `g` becomes `4 * g + g / 16`.
pub proof fn lemma_rgb565_rgb_from_bytes(lo: u8, hi: u8)
    ensures
        ({
            let r = hi / 8;
            let g = (hi % 8) * 8 + lo / 32;
            let b = lo % 32;
            &&& rgb565_rgb(lo, hi).0 == 8 * r + r / 4
            &&& rgb565_rgb(lo, hi).1 == 4 * g + g / 16
            &&& rgb565_rgb(lo, hi).2 == 8 * b + b / 4
        }),
{
    lemma_rgb565_fields_from_bytes(lo, hi);
}

} // verus!
