use micvol::error::Error;
use micvol::types::{clamp_unit, decimal_string, DeviceId, DeviceInfo, MuteState, Volume};

fn bits(x: f32) -> u32 {
    x.to_bits()
}

#[test]
fn volume_new_accepts_unit_range() {
    for x in [0.0f32, 0.25, 0.5, 0.73, 1.0, -0.0] {
        let v = Volume::new(bits(x)).expect("in range");
        assert_eq!(v.to_bits(), bits(x));
    }
}

#[test]
fn volume_new_rejects_out_of_range() {
    for x in [1.0001f32, 2.0, -0.1, -1.0, f32::INFINITY, f32::NEG_INFINITY, f32::NAN, f32::MIN_POSITIVE * -1.0] {
        match Volume::new(bits(x)) {
            Err(Error::VolumeOutOfRange(b)) => assert_eq!(b, bits(x)),
            other => panic!("expected VolumeOutOfRange for {x}, got {other:?}"),
        }
    }
}

#[test]
fn volume_max_and_muted() {
    assert_eq!(Volume::max().to_bits(), bits(1.0));
    assert_eq!(Volume::muted().to_bits(), bits(0.0));
    assert!(Volume::max().is_audible());
    assert!(!Volume::muted().is_audible());
    assert!(!Volume::new(bits(-0.0)).unwrap().is_audible());
    assert!(Volume::new(bits(f32::MIN_POSITIVE)).unwrap().is_audible());
}

#[test]
fn volume_compares_as_scalars() {
    let zero = Volume::muted();
    let neg_zero = Volume::new(bits(-0.0)).unwrap();
    let half = Volume::new(bits(0.5)).unwrap();
    assert!(zero == neg_zero);
    assert!(zero < half);
    assert!(half < Volume::max());
    assert!(half != Volume::max());
}

#[test]
fn clamp_matches_f32_clamp() {
    let samples = [
        0.0f32, -0.0, 0.3, 1.0, 1.5, 100.0, -0.5, -100.0, f32::INFINITY, f32::NEG_INFINITY,
        f32::MIN_POSITIVE, -f32::MIN_POSITIVE, f32::MAX, f32::MIN,
    ];
    for x in samples {
        assert_eq!(clamp_unit(bits(x)), x.clamp(0.0, 1.0).to_bits(), "clamp of {x}");
    }
    let nan = f32::NAN;
    assert!(f32::from_bits(clamp_unit(bits(nan))).is_nan());
    let neg_nan = -f32::NAN;
    assert_eq!(clamp_unit(bits(neg_nan)), bits(neg_nan));
}

#[test]
fn device_id_round_trip_and_display() {
    let id = DeviceId::from_raw(73);
    assert_eq!(id.raw(), 73);
    assert_eq!(id.to_string(), "AudioDevice(73)");
    assert_eq!(DeviceId::from_raw(0).to_string(), "AudioDevice(0)");
    assert_eq!(DeviceId::from_raw(u32::MAX).to_string(), "AudioDevice(4294967295)");
}

#[test]
fn decimal_string_matches_std() {
    for n in [0u32, 7, 9, 10, 42, 100, 1009, 65535, 123456789, u32::MAX] {
        assert_eq!(decimal_string(n), n.to_string());
    }
}

#[test]
fn device_info_display() {
    let info = DeviceInfo {
        id: DeviceId::from_raw(42),
        name: "AirPods Pro".to_string(),
        channels: 1,
        is_default: true,
    };
    assert_eq!(info.to_string(), "AirPods Pro (AudioDevice(42), 1ch, default)");
    let other = DeviceInfo { is_default: false, channels: 2, ..info };
    assert_eq!(other.to_string(), "AirPods Pro (AudioDevice(42), 2ch)");
}

#[test]
fn mute_state_conversions() {
    assert_eq!(MuteState::from_muted(true), MuteState::Muted);
    assert_eq!(MuteState::from_muted(false), MuteState::Unmuted);
    assert!(MuteState::Muted.is_muted());
    assert!(!MuteState::Unmuted.is_muted());
}
