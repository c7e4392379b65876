use micvol::error::Error;
use micvol::ffi::{
    bool_flag, copied_count, error_code, mute_flag, mute_state_from_flag, MICVOL_ERR_COREAUDIO,
    MICVOL_ERR_DEVICE_NOT_FOUND, MICVOL_ERR_NOT_SUPPORTED, MICVOL_ERR_NO_DEFAULT_INPUT,
    MICVOL_ERR_VOLUME_OUT_OF_RANGE, MICVOL_OK,
};
use micvol::types::MuteState;

#[test]
fn error_codes() {
    assert_eq!(error_code(&Error::CoreAudio(-50)), MICVOL_ERR_COREAUDIO);
    assert_eq!(error_code(&Error::DeviceNotFound), MICVOL_ERR_DEVICE_NOT_FOUND);
    assert_eq!(error_code(&Error::NoDefaultInputDevice), MICVOL_ERR_NO_DEFAULT_INPUT);
    assert_eq!(error_code(&Error::VolumeOutOfRange(2.0f32.to_bits())), MICVOL_ERR_VOLUME_OUT_OF_RANGE);
    assert_eq!(error_code(&Error::NotSupported("x".to_string())), MICVOL_ERR_NOT_SUPPORTED);
    assert_eq!(MICVOL_OK, 0);
    assert_eq!(error_code(&Error::CoreAudio(-50)), -1);
    assert_eq!(error_code(&Error::NotSupported(String::new())), -5);
}

#[test]
fn flags() {
    assert_eq!(mute_state_from_flag(0), MuteState::Unmuted);
    assert_eq!(mute_state_from_flag(1), MuteState::Muted);
    assert_eq!(mute_state_from_flag(-3), MuteState::Muted);
    assert_eq!(mute_flag(MuteState::Muted), 1);
    assert_eq!(mute_flag(MuteState::Unmuted), 0);
    for s in [MuteState::Muted, MuteState::Unmuted] {
        assert_eq!(mute_state_from_flag(mute_flag(s)), s);
    }
    assert_eq!(bool_flag(true), 1);
    assert_eq!(bool_flag(false), 0);
}

#[test]
fn copy_count() {
    assert_eq!(copied_count(3, 10), 3);
    assert_eq!(copied_count(10, 3), 3);
    assert_eq!(copied_count(0, 0), 0);
    assert_eq!(copied_count(5, 5), 5);
}
