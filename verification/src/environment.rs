//! Which of the core's environment requests the frontend answers, and where
//! a frontend finds the core's shared library.

use vstd::prelude::*;

verus! {

/// The environment requests that the frontend answers.
#[derive(Clone, Copy, Debug, PartialEq, Eq, Structural)]
pub enum EnvironmentCommand {
    /// The core names the pixel format of its frames.
    SetPixelFormat,
    /// The core asks where its system files are.
    GetSystemDirectory,
    /// The core asks whether it may hand over a duplicate frame without data.
    GetCanDupe,
    /// The core describes its memory.
    SetMemoryMaps,
    /// Any other request, which the frontend refuses.
    Unsupported,
}

/// The request that libretro numbers `cmd`.
pub open spec fn command_numbered(cmd: u32) -> EnvironmentCommand {
    if cmd == 10 {
        EnvironmentCommand::SetPixelFormat
    } else if cmd == 9 {
        EnvironmentCommand::GetSystemDirectory
    } else if cmd == 3 {
        EnvironmentCommand::GetCanDupe
    } else if cmd == 0x10024 {
        EnvironmentCommand::SetMemoryMaps
    } else {
        EnvironmentCommand::Unsupported
    }
}

/// `libretro_sys::ENVIRONMENT_SET_PIXEL_FORMAT`, defined there as 10.
#[verifier::external_body]
fn set_pixel_format_code() -> (code: u32)
    ensures
        code == 10,
{
    libretro_sys::ENVIRONMENT_SET_PIXEL_FORMAT
}

/// `libretro_sys::ENVIRONMENT_GET_SYSTEM_DIRECTORY`, defined there as 9.
#[verifier::external_body]
fn get_system_directory_code() -> (code: u32)
    ensures
        code == 9,
{
    libretro_sys::ENVIRONMENT_GET_SYSTEM_DIRECTORY
}

/// `libretro_sys::ENVIRONMENT_GET_CAN_DUPE`, defined there as 3.
#[verifier::external_body]
fn get_can_dupe_code() -> (code: u32)
    ensures
        code == 3,
{
    libretro_sys::ENVIRONMENT_GET_CAN_DUPE
}

/// `libretro_sys::ENVIRONMENT_SET_MEMORY_MAPS`, defined there as
/// `36 | ENVIRONMENT_EXPERIMENTAL` with `ENVIRONMENT_EXPERIMENTAL = 0x10000`.
#[verifier::external_body]
fn set_memory_maps_code() -> (code: u32)
    ensures
        code == 0x10024,
{
    libretro_sys::ENVIRONMENT_SET_MEMORY_MAPS
}

/// Classifies the environment request numbered `cmd`.
pub fn environment_command(cmd: u32) -> (command: EnvironmentCommand)
    ensures
        command == command_numbered(cmd),
{
    if cmd == set_pixel_format_code() {
        EnvironmentCommand::SetPixelFormat
    } else if cmd == get_system_directory_code() {
        EnvironmentCommand::GetSystemDirectory
    } else if cmd == get_can_dupe_code() {
        EnvironmentCommand::GetCanDupe
    } else if cmd == set_memory_maps_code() {
        EnvironmentCommand::SetMemoryMaps
    } else {
        EnvironmentCommand::Unsupported
    }
}

/// What a frontend tells a core that asks whether it may hand over a
/// duplicate frame without data: it may.
pub const CAN_DUPE: bool = true;

/// Whether a request succeeds, as the frontend reports it to the core.
pub open spec fn reply_to(command: EnvironmentCommand, format_accepted: bool) -> bool {
    match command {
        EnvironmentCommand::SetPixelFormat => format_accepted,
        EnvironmentCommand::Unsupported => false,
        _ => true,
    }
}

/// The answer to a request: a pixel format request succeeds when the format
/// is known (`format_accepted`), an unsupported request fails, and the
/// others succeed.
pub fn environment_reply(command: EnvironmentCommand, format_accepted: bool) -> (reply: bool)
    ensures
        reply == reply_to(command, format_accepted),
{
    match command {
        EnvironmentCommand::SetPixelFormat => format_accepted,
        EnvironmentCommand::GetSystemDirectory => true,
        EnvironmentCommand::GetCanDupe => true,
        EnvironmentCommand::SetMemoryMaps => true,
        EnvironmentCommand::Unsupported => false,
    }
}

/// Each answered request has exactly one number (10, 9, 3 and 0x10024, as
/// libretro numbers them), and every other number is refused.
pub proof fn lemma_answered_requests(cmd: u32)
    ensures
        command_numbered(cmd) == EnvironmentCommand::SetPixelFormat <==> cmd == 10,
        command_numbered(cmd) == EnvironmentCommand::GetSystemDirectory <==> cmd == 9,
        command_numbered(cmd) == EnvironmentCommand::GetCanDupe <==> cmd == 3,
        command_numbered(cmd) == EnvironmentCommand::SetMemoryMaps <==> cmd == 0x10024,
        command_numbered(cmd) == EnvironmentCommand::Unsupported <==> !(cmd == 10 || cmd == 9 || cmd
            == 3 || cmd == 0x10024),
        !reply_to(command_numbered(cmd), true) <==> !(cmd == 10 || cmd == 9 || cmd == 3 || cmd
            == 0x10024),
{
}

/// The operating systems a frontend tells apart when it loads a core.
#[derive(Clone, Copy, Debug, PartialEq, Eq, Structural)]
pub enum Platform {
    Windows,
    MacOs,
    Linux,
    Other,
}

/// The file extension of a core's shared library on `platform`, or `None`
/// where cores cannot be loaded.
pub fn core_library_extension(platform: Platform) -> (ext: Option<&'static str>)
    ensures
        platform == Platform::Windows ==> (ext matches Some(e) && e@ == "dll"@),
        platform == Platform::MacOs ==> (ext matches Some(e) && e@ == "dylib"@),
        platform == Platform::Linux ==> (ext matches Some(e) && e@ == "so"@),
        platform == Platform::Other ==> ext is None,
{
    match platform {
        Platform::Windows => Some("dll"),
        Platform::MacOs => Some("dylib"),
        Platform::Linux => Some("so"),
        Platform::Other => None,
    }
}

} // verus!
