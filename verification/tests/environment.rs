use retro_rs::{
    core_library_extension, environment_command, environment_reply, Buttons, EnvironmentCommand,
    Platform, CAN_DUPE,
};

#[test]
fn environment_requests_are_classified() {
    assert_eq!(
        environment_command(libretro_sys::ENVIRONMENT_SET_PIXEL_FORMAT),
        EnvironmentCommand::SetPixelFormat
    );
    assert_eq!(
        environment_command(libretro_sys::ENVIRONMENT_GET_SYSTEM_DIRECTORY),
        EnvironmentCommand::GetSystemDirectory
    );
    assert_eq!(
        environment_command(libretro_sys::ENVIRONMENT_GET_CAN_DUPE),
        EnvironmentCommand::GetCanDupe
    );
    assert_eq!(
        environment_command(libretro_sys::ENVIRONMENT_SET_MEMORY_MAPS),
        EnvironmentCommand::SetMemoryMaps
    );
    assert_eq!(environment_command(10), EnvironmentCommand::SetPixelFormat);
    assert_eq!(environment_command(0x10024), EnvironmentCommand::SetMemoryMaps);
    assert_eq!(environment_command(36), EnvironmentCommand::Unsupported);
    assert_eq!(
        environment_command(libretro_sys::ENVIRONMENT_SHUTDOWN),
        EnvironmentCommand::Unsupported
    );
}

#[test]
fn core_library_extensions() {
    assert_eq!(core_library_extension(Platform::Windows), Some("dll"));
    assert_eq!(core_library_extension(Platform::MacOs), Some("dylib"));
    assert_eq!(core_library_extension(Platform::Linux), Some("so"));
    assert_eq!(core_library_extension(Platform::Other), None);
}

#[test]
fn buttons_set_and_get() {
    let b = Buttons::new();
    for id in 0..40 {
        assert_eq!(b.get(id), 0);
    }
    let b = b.set(libretro_sys::DEVICE_ID_JOYPAD_A as usize, true).set(16, true);
    assert_eq!(b.get(8), 1);
    assert_eq!(b.get(16), 1);
    assert_eq!(b.get(7), 0);
    assert_eq!(b.get(40), 0);
    let b = b.set(8, false);
    assert_eq!(b.get(8), 0);
    assert_eq!(b.get(16), 1);
}

#[test]
fn environment_replies() {
    assert!(environment_reply(EnvironmentCommand::SetPixelFormat, true));
    assert!(!environment_reply(EnvironmentCommand::SetPixelFormat, false));
    assert!(environment_reply(EnvironmentCommand::GetSystemDirectory, false));
    assert!(environment_reply(EnvironmentCommand::GetCanDupe, false));
    assert!(environment_reply(EnvironmentCommand::SetMemoryMaps, false));
    assert!(!environment_reply(EnvironmentCommand::Unsupported, true));
    assert!(CAN_DUPE);
}
