# retro_rs

The verified core of a small libretro frontend.

- `src/pixel.rs`: ARGB1555 and RGB565 pixels to 8-bit RGB.
- `src/format.rs`: the pixel formats a core may choose, and their depths.
- `src/framebuffer.rs`: copying a core's frame into an RGB buffer.
- `src/buttons.rs`: the joypad state reported to the core.
- `src/context.rs`: what the frontend records between the core's callbacks
  (frame geometry, format, inputs, audio), as a state with exact transitions.
- `src/environment.rs`: which environment requests are answered, and the
  shared-library extension of a core per platform.
- `app/`: the frontend proper: loading the core with `libloading`, the C
  callbacks, and the `Emulator` handle, all of it built on the library.
