use micvol::error::Error;
use micvol::manager::{
    default_input_device, get_mute, get_volume, input_devices, set_mute, set_volume, DeviceAnswer,
    DeviceQuery, DeviceStep,
};
use micvol::types::{DeviceId, DeviceInfo, MuteState, Volume};
use micvol::coreaudio::{mute_address, volume_address};
use micvol::hal::HalRequest;

fn query<T: std::fmt::Debug>(step: DeviceStep<T>) -> DeviceQuery {
    match step {
        DeviceStep::Query(q) => q,
        DeviceStep::Done(r) => panic!("expected a query, got {r:?}"),
    }
}

fn done<T>(step: DeviceStep<T>) -> Result<T, Error> {
    match step {
        DeviceStep::Done(r) => r,
        DeviceStep::Query(q) => panic!("expected a result, got {q:?}"),
    }
}

fn id(raw: u32) -> DeviceId {
    DeviceId::from_raw(raw)
}

#[test]
fn get_volume_clamps_and_rejects_nan() {
    let v = get_volume(Ok(0.4f32.to_bits())).unwrap();
    assert_eq!(v.to_bits(), 0.4f32.to_bits());
    assert_eq!(get_volume(Ok(1.7f32.to_bits())).unwrap().to_bits(), 1.0f32.to_bits());
    assert_eq!(get_volume(Ok((-0.2f32).to_bits())).unwrap().to_bits(), 0.0f32.to_bits());
    assert_eq!(get_volume(Ok((-0.0f32).to_bits())).unwrap().to_bits(), (-0.0f32).to_bits());
    assert!(matches!(get_volume(Ok(f32::NAN.to_bits())), Err(Error::VolumeOutOfRange(_))));
    assert!(matches!(get_volume(Err(Error::CoreAudio(4))), Err(Error::CoreAudio(4))));
}

#[test]
fn volume_written_reads_back_the_same() {
    for x in [0.0f32, 0.2, 0.5, 1.0] {
        let v = Volume::new(x.to_bits()).unwrap();
        let (machine, _) = set_volume(&id(1), v);
        drop(machine);
        assert!(get_volume(Ok(v.to_bits())).unwrap() == v);
    }
}

#[test]
fn get_mute_maps_switch() {
    assert_eq!(get_mute(Ok(true)).unwrap(), MuteState::Muted);
    assert_eq!(get_mute(Ok(false)).unwrap(), MuteState::Unmuted);
    assert!(matches!(get_mute(Err(Error::DeviceNotFound)), Err(Error::DeviceNotFound)));
}

#[test]
fn set_volume_and_mute_start_with_a_probe() {
    let (_, first) = set_volume(&id(8), Volume::max());
    assert_eq!(first, HalRequest::HasProperty { object: 8, address: volume_address(0) });
    let (_, first) = set_mute(&id(8), MuteState::Muted);
    assert_eq!(first, HalRequest::HasProperty { object: 8, address: mute_address() });
}

#[test]
fn input_devices_lists_only_input_devices() {
    let (mut m, first) = input_devices();
    assert!(matches!(first, DeviceQuery::DefaultInput));
    assert!(matches!(query(m.resume(DeviceAnswer::DefaultInput(Ok(42)))), DeviceQuery::DeviceList));
    let q = query(m.resume(DeviceAnswer::DeviceList(Ok(vec![41, 42, 77, 90]))));
    assert!(matches!(q, DeviceQuery::Channels(d) if d == id(41)));
    // 41: an output-only device.
    let q = query(m.resume(DeviceAnswer::Channels(Ok(0))));
    assert!(matches!(q, DeviceQuery::Channels(d) if d == id(42)));
    let q = query(m.resume(DeviceAnswer::Channels(Ok(1))));
    assert!(matches!(q, DeviceQuery::Name(d) if d == id(42)));
    let q = query(m.resume(DeviceAnswer::Name(Ok("AirPods Pro".to_string()))));
    assert!(matches!(q, DeviceQuery::Channels(d) if d == id(77)));
    // 77: channel count cannot be read.
    let q = query(m.resume(DeviceAnswer::Channels(Err(Error::CoreAudio(-1)))));
    assert!(matches!(q, DeviceQuery::Channels(d) if d == id(90)));
    let q = query(m.resume(DeviceAnswer::Channels(Ok(2))));
    assert!(matches!(q, DeviceQuery::Name(d) if d == id(90)));
    let devices = done(m.resume(DeviceAnswer::Name(Err(Error::CoreAudio(-2))))).unwrap();
    assert_eq!(devices.len(), 2);
    assert_eq!(devices[0].id, id(42));
    assert_eq!(devices[0].name, "AirPods Pro");
    assert_eq!(devices[0].channels, 1);
    assert!(devices[0].is_default);
    assert_eq!(devices[1].id, id(90));
    assert_eq!(devices[1].name, "Unknown");
    assert_eq!(devices[1].channels, 2);
    assert!(!devices[1].is_default);
}

#[test]
fn input_devices_without_default_or_devices() {
    let (mut m, _) = input_devices();
    query(m.resume(DeviceAnswer::DefaultInput(Err(Error::NoDefaultInputDevice))));
    let devices = done(m.resume(DeviceAnswer::DeviceList(Ok(vec![])))).unwrap();
    assert!(devices.is_empty());

    let (mut m, _) = input_devices();
    query(m.resume(DeviceAnswer::DefaultInput(Err(Error::NoDefaultInputDevice))));
    query(m.resume(DeviceAnswer::DeviceList(Ok(vec![5]))));
    query(m.resume(DeviceAnswer::Channels(Ok(1))));
    let devices: Vec<DeviceInfo> = done(m.resume(DeviceAnswer::Name(Ok("Mic".to_string())))).unwrap();
    assert_eq!(devices.len(), 1);
    assert!(!devices[0].is_default);
}

#[test]
fn input_devices_fails_when_list_fails() {
    let (mut m, _) = input_devices();
    query(m.resume(DeviceAnswer::DefaultInput(Ok(1))));
    assert!(matches!(done(m.resume(DeviceAnswer::DeviceList(Err(Error::CoreAudio(-9))))), Err(Error::CoreAudio(-9))));
}

#[test]
fn default_input_device_lookup() {
    let (mut m, first) = default_input_device();
    assert!(matches!(first, DeviceQuery::DefaultInput));
    let q = query(m.resume(DeviceAnswer::DefaultInput(Ok(42))));
    assert!(matches!(q, DeviceQuery::Name(d) if d == id(42)));
    let q = query(m.resume(DeviceAnswer::Name(Err(Error::CoreAudio(1)))));
    assert!(matches!(q, DeviceQuery::Channels(d) if d == id(42)));
    let info = done(m.resume(DeviceAnswer::Channels(Err(Error::CoreAudio(2))))).unwrap();
    assert_eq!(info.id, id(42));
    assert_eq!(info.name, "Unknown");
    assert_eq!(info.channels, 0);
    assert!(info.is_default);

    let (mut m, _) = default_input_device();
    assert!(matches!(
        done(m.resume(DeviceAnswer::DefaultInput(Err(Error::NoDefaultInputDevice)))),
        Err(Error::NoDefaultInputDevice)
    ));
}

#[test]
fn answers_match_queries() {
    let q = DeviceQuery::ReadMute(id(1));
    assert!(DeviceAnswer::Mute(Ok(MuteState::Muted)).responds(&q));
    assert!(!DeviceAnswer::Written(Ok(())).responds(&q));
}
