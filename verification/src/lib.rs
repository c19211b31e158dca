//! Frame, input and audio bookkeeping for a libretro frontend, with the
//! pixel-format conversions it uses to turn a core's frame into RGB.

pub mod buttons;
pub mod context;
pub mod environment;
pub mod error;
pub mod format;
pub mod framebuffer;
pub mod pixel;

pub use buttons::Buttons;
pub use context::{EmulatorContext, InputReply};
pub use environment::{
    core_library_extension, environment_command, environment_reply, EnvironmentCommand, Platform,
    CAN_DUPE,
};
pub use error::RetroRsError;
pub use format::PixelFormat;
pub use framebuffer::copy_pixels;
pub use pixel::{argb555to888, rgb565to888};
