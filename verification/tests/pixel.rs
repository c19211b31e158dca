use retro_rs::{argb555to888, rgb565to888};

#[test]
fn argb555_black_and_white() {
    assert_eq!(argb555to888(0x00, 0x00), (0, 0, 0));
    assert_eq!(argb555to888(0xff, 0x7f), (255, 255, 255));
}

#[test]
fn argb555_ignores_alpha_bit() {
    assert_eq!(argb555to888(0xff, 0xff), (255, 255, 255));
    assert_eq!(argb555to888(0x34, 0x92), argb555to888(0x34, 0x12));
}

#[test]
fn argb555_primary_channels() {
    assert_eq!(argb555to888(0x00, 0x7c), (255, 0, 0));
    assert_eq!(argb555to888(0xe0, 0x03), (0, 255, 0));
    assert_eq!(argb555to888(0x1f, 0x00), (0, 0, 255));
}

#[test]
fn argb555_mixed_pixel() {
    // 0x1234: red 4, green 17, blue 20
    assert_eq!(argb555to888(0x34, 0x12), (33, 140, 165));
    // 0x4210: every field 16, widened to 128 | 4
    assert_eq!(argb555to888(0x10, 0x42), (132, 132, 132));
}

#[test]
fn argb555_repeats_high_bits_in_low_bits() {
    for v in 0u16..32 {
        let pixel = v << 10 | v << 5 | v;
        let (r, g, b) = argb555to888((pixel & 0xff) as u8, (pixel >> 8) as u8);
        for c in [r, g, b] {
            assert_eq!((c >> 3) as u16, v);
            assert_eq!((c & 7) as u16, v >> 2);
        }
    }
}

#[test]
fn rgb565_black_and_white() {
    assert_eq!(rgb565to888(0x00, 0x00), (0, 0, 0));
    assert_eq!(rgb565to888(0xff, 0xff), (255, 255, 255));
}

#[test]
fn rgb565_primary_channels() {
    assert_eq!(rgb565to888(0x00, 0xf8), (255, 0, 0));
    assert_eq!(rgb565to888(0xe0, 0x07), (0, 255, 0));
    assert_eq!(rgb565to888(0x1f, 0x00), (0, 0, 255));
}

#[test]
fn rgb565_mixed_pixel() {
    // 0x1234: red 2, green 17, blue 20
    assert_eq!(rgb565to888(0x34, 0x12), (16, 69, 165));
}

#[test]
fn rgb565_repeats_high_bits_in_low_bits() {
    // green fields 32 and 33 widen to 128 | 2 and 132 | 2
    assert_eq!(rgb565to888(0x00, 0x04), (0, 130, 0));
    assert_eq!(rgb565to888(0x20, 0x04), (0, 134, 0));
    let mut last = None;
    for g in 0u16..64 {
        let pixel = g << 5;
        let (_, green, _) = rgb565to888((pixel & 0xff) as u8, (pixel >> 8) as u8);
        assert_eq!((green >> 2) as u16, g);
        assert_eq!((green & 3) as u16, g >> 4);
        if let Some(prev) = last {
            assert!(green > prev);
        }
        last = Some(green);
    }
    assert_eq!(last, Some(255));
    for v in 0u16..32 {
        let pixel = v << 11 | v;
        let (r, _, b) = rgb565to888((pixel & 0xff) as u8, (pixel >> 8) as u8);
        assert_eq!(((r >> 3) as u16, (r & 7) as u16), (v, v >> 2));
        assert_eq!(((b >> 3) as u16, (b & 7) as u16), (v, v >> 2));
    }
}

#[test]
fn rgb565_is_one_to_one() {
    let mut seen = std::collections::HashSet::new();
    for pixel in 0u32..=0xffff {
        let rgb = rgb565to888((pixel & 0xff) as u8, (pixel >> 8) as u8);
        assert!(seen.insert(rgb));
    }
}
