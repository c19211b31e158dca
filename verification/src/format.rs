//! The pixel formats a libretro core may ask for.

use vstd::prelude::*;

verus! {

/// How a core lays out one pixel of its frame.
#[derive(Clone, Copy, Debug, PartialEq, Eq, Structural)]
pub enum PixelFormat {
    /// 16 bits, native endian: one ignored alpha bit, then 5 bits each of red, green, blue.
    ARGB1555,
    /// 32 bits, native endian: 8 bits each of alpha (ignored), red, green, blue.
    ARGB8888,
    /// 16 bits, native endian: 5 bits red, 6 bits green, 5 bits blue.
    RGB565,
}

/// The format that the libretro API numbers `value`, if any.
pub open spec fn format_numbered(value: u32) -> Option<PixelFormat> {
    if value == 0 {
        Some(PixelFormat::ARGB1555)
    } else if value == 1 {
        Some(PixelFormat::ARGB8888)
    } else if value == 2 {
        Some(PixelFormat::RGB565)
    } else {
        None
    }
}

/// The colour depth, in bits, that a frontend records for each format.
pub open spec fn depth_of(format: PixelFormat) -> usize {
    match format {
        PixelFormat::ARGB1555 => 15,
        PixelFormat::ARGB8888 => 32,
        PixelFormat::RGB565 => 16,
    }
}

/// `libretro_sys::PixelFormat::from_uint`, which returns the variant whose
/// discriminant equals `value` (`ARGB1555 = 0`, `ARGB8888 = 1`, `RGB565 = 2`)
/// and `None` for any other value; the variant is handed on as this crate's own.
#[verifier::external_body]
pub(crate) fn pixel_format_from_uint(value: u32) -> (format: Option<PixelFormat>)
    ensures
        format == format_numbered(value),
{
    match libretro_sys::PixelFormat::from_uint(value) {
        Some(libretro_sys::PixelFormat::ARGB1555) => Some(PixelFormat::ARGB1555),
        Some(libretro_sys::PixelFormat::ARGB8888) => Some(PixelFormat::ARGB8888),
        Some(libretro_sys::PixelFormat::RGB565) => Some(PixelFormat::RGB565),
        None => None,
    }
}

/// The colour depth, in bits, that a frontend records for `format`.
pub fn image_depth(format: PixelFormat) -> (depth: usize)
    ensures
        depth == depth_of(format),
{
    match format {
        PixelFormat::ARGB1555 => 15,
        PixelFormat::ARGB8888 => 32,
        PixelFormat::RGB565 => 16,
    }
}

} // verus!
