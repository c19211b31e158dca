use retro_rs::{copy_pixels, Buttons, EmulatorContext, InputReply, PixelFormat, RetroRsError};

fn context_with_frame(format: u32, width: u32, height: u32, pitch: usize) -> EmulatorContext {
    let mut ctx = EmulatorContext::new();
    assert!(ctx.set_pixel_format(format));
    ctx.video_refresh(true, width, height, pitch);
    ctx
}

#[test]
fn new_context_is_empty() {
    let ctx = EmulatorContext::new();
    assert_eq!(ctx.pixel_format(), PixelFormat::ARGB1555);
    assert_eq!(ctx.image_depth(), 0);
    assert_eq!(ctx.framebuffer_size(), (0, 0));
    assert_eq!(ctx.framebuffer_pitch(), 0);
    assert!(!ctx.has_frame());
    assert_eq!(ctx.framebuffer_len(), None);
    assert!(ctx.audio_samples().is_empty());
    assert_eq!(ctx.buttons(), Buttons::new());
}

#[test]
fn known_pixel_formats_are_recorded_with_depth() {
    let mut ctx = EmulatorContext::new();
    assert!(ctx.set_pixel_format(1));
    assert_eq!(ctx.pixel_format(), PixelFormat::ARGB8888);
    assert_eq!(ctx.image_depth(), 32);
    assert!(ctx.set_pixel_format(2));
    assert_eq!(ctx.pixel_format(), PixelFormat::RGB565);
    assert_eq!(ctx.image_depth(), 16);
    assert!(ctx.set_pixel_format(0));
    assert_eq!(ctx.pixel_format(), PixelFormat::ARGB1555);
    assert_eq!(ctx.image_depth(), 15);
}

#[test]
fn unknown_pixel_format_is_refused_and_changes_nothing() {
    let mut ctx = EmulatorContext::new();
    assert!(ctx.set_pixel_format(2));
    assert!(!ctx.set_pixel_format(3));
    assert!(!ctx.set_pixel_format(u32::MAX));
    assert_eq!(ctx.pixel_format(), PixelFormat::RGB565);
    assert_eq!(ctx.image_depth(), 16);
}

#[test]
fn video_refresh_records_geometry() {
    let ctx = context_with_frame(0, 3, 2, 6);
    assert!(ctx.has_frame());
    assert_eq!(ctx.framebuffer_size(), (3, 2));
    assert_eq!(ctx.framebuffer_pitch(), 6);
    assert_eq!(ctx.framebuffer_len(), Some(36));
}

#[test]
fn duplicate_frame_keeps_last_frame() {
    let mut ctx = context_with_frame(0, 3, 2, 6);
    ctx.video_refresh(false, 10, 10, 20);
    assert!(ctx.has_frame());
    assert_eq!(ctx.framebuffer_size(), (3, 2));
    assert_eq!(ctx.framebuffer_pitch(), 6);
}

#[test]
fn audio_samples_append_and_batches_replace() {
    let mut ctx = EmulatorContext::new();
    ctx.audio_sample(1, -1);
    ctx.audio_sample(2, -2);
    assert_eq!(ctx.audio_samples(), &[1, -1, 2, -2]);
    let taken = ctx.audio_sample_batch(&[7, 8, 9, 10, 11, 12], 3);
    assert_eq!(taken, 3);
    assert_eq!(ctx.audio_samples(), &[7, 8, 9, 10, 11, 12]);
    ctx.audio_sample(5, 6);
    assert_eq!(ctx.audio_samples(), &[7, 8, 9, 10, 11, 12, 5, 6]);
}

#[test]
fn begin_run_drops_audio_and_records_inputs() {
    let mut ctx = EmulatorContext::new();
    ctx.audio_sample(1, 2);
    let inputs = Buttons::new().set(8, true).set(4, true);
    ctx.begin_run(inputs);
    assert!(ctx.audio_samples().is_empty());
    assert_eq!(ctx.buttons(), inputs);
    assert_eq!(ctx.input_state(0, 0, 0, 8), InputReply::Value(1));
    assert_eq!(ctx.input_state(0, 0, 0, 4), InputReply::Value(1));
    assert_eq!(ctx.input_state(0, 0, 0, 5), InputReply::Value(0));
    assert_eq!(ctx.input_state(0, 0, 0, 8).value(), 1);
}

#[test]
fn input_outside_first_joypad_reads_zero() {
    let mut ctx = EmulatorContext::new();
    ctx.begin_run(Buttons::new().set(0, true).set(16, true));
    assert_eq!(ctx.input_state(1, 0, 0, 0), InputReply::Unsupported);
    assert_eq!(ctx.input_state(0, 1, 0, 0), InputReply::Unsupported);
    assert_eq!(ctx.input_state(0, 0, 1, 0), InputReply::Unsupported);
    assert_eq!(ctx.input_state(1, 0, 0, 0).value(), 0);
    assert_eq!(ctx.input_state(0, 0, 0, 16), InputReply::Value(1));
    assert_eq!(ctx.input_state(0, 0, 0, 17), InputReply::UnexpectedId(17));
    assert_eq!(ctx.input_state(0, 0, 0, 17).value(), 0);
}

#[test]
fn reset_forgets_frame_audio_and_inputs() {
    let mut ctx = context_with_frame(2, 4, 4, 8);
    ctx.audio_sample(3, 4);
    ctx.begin_run(Buttons::new().set(3, true));
    ctx.reset();
    assert!(!ctx.has_frame());
    assert_eq!(ctx.framebuffer_len(), None);
    assert!(ctx.audio_samples().is_empty());
    assert_eq!(ctx.input_state(0, 0, 0, 3), InputReply::Value(0));
    assert_eq!(ctx.pixel_format(), PixelFormat::RGB565);
    assert_eq!(ctx.framebuffer_size(), (4, 4));
    let mut out = [0u8; 48];
    assert_eq!(ctx.copy_framebuffer(None, &mut out), Err(RetroRsError::NoFramebufferError));
}

#[test]
fn copy_without_frame_fails_and_leaves_buffer() {
    let ctx = EmulatorContext::new();
    let mut out = [0xaau8; 3];
    assert_eq!(ctx.copy_framebuffer(None, &mut out), Err(RetroRsError::NoFramebufferError));
    assert_eq!(out, [0xaa; 3]);
}

#[test]
fn copy_rgb565_frame() {
    let ctx = context_with_frame(2, 2, 1, 2);
    let fb = [0x00, 0xf8, 0x1f, 0x00];
    let mut out = [0xaau8; 8];
    assert_eq!(ctx.copy_framebuffer(Some(&fb), &mut out), Ok(()));
    assert_eq!(out, [255, 0, 0, 0, 0, 255, 0xaa, 0xaa]);
}

#[test]
fn copy_argb1555_frame() {
    let ctx = context_with_frame(0, 1, 2, 2);
    assert_eq!(ctx.framebuffer_len(), Some(4));
    let fb = [0xe0, 0x03, 0x10, 0x42];
    let mut out = [0u8; 6];
    assert_eq!(ctx.copy_framebuffer(Some(&fb), &mut out), Ok(()));
    assert_eq!(out, [0, 255, 0, 132, 132, 132]);
}

#[test]
fn copy_argb8888_frame_skips_alpha() {
    let ctx = context_with_frame(1, 2, 1, 4);
    let fb = [9, 1, 2, 3, 9, 4, 5, 6];
    let mut out = [0xaau8; 8];
    assert_eq!(ctx.copy_framebuffer(Some(&fb), &mut out), Ok(()));
    assert_eq!(out, [1, 2, 3, 0xaa, 4, 5, 6, 0xaa]);
    let mut short = [0u8; 7];
    assert_eq!(ctx.copy_framebuffer(Some(&fb), &mut short), Ok(()));
    assert_eq!(short, [1, 2, 3, 0, 4, 5, 6]);
}

#[test]
fn copy_larger_frame_row_by_row() {
    let w = 3usize;
    let h = 2usize;
    let mut fb = Vec::new();
    for i in 0..(w * h) as u16 {
        let pixel = i << 11 | (2 * i) << 5 | (31 - i);
        fb.push((pixel & 0xff) as u8);
        fb.push((pixel >> 8) as u8);
    }
    let mut out = vec![0u8; 3 * w * h];
    copy_pixels(&fb, w, h, PixelFormat::RGB565, &mut out);
    for p in 0..w * h {
        let rgb = retro_rs::rgb565to888(fb[2 * p], fb[2 * p + 1]);
        assert_eq!((out[3 * p], out[3 * p + 1], out[3 * p + 2]), rgb);
    }
}

#[test]
fn empty_frame_copies_nothing() {
    let ctx = context_with_frame(2, 0, 5, 0);
    let mut out = [7u8; 2];
    assert_eq!(ctx.copy_framebuffer(Some(&[]), &mut out), Ok(()));
    assert_eq!(out, [7, 7]);
}
