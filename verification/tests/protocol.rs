use micvol::coreaudio::{
    default_input_device_id, device_name, devices_address, mute_address,
    stream_configuration_address, total_channels, channel_total_fits, volume_address,
    all_device_ids, get_mute, get_volume_scalar, input_channel_count, set_mute, set_volume_scalar,
};
use micvol::error::Error;
use micvol::hal::{check, HalReply, HalRequest, HalStep, SYSTEM_OBJECT};

fn done<T>(step: HalStep<T>) -> Result<T, Error> {
    match step {
        HalStep::Done(r) => r,
        HalStep::Call(req) => panic!("expected a result, got request {req:?}"),
    }
}

fn call<T: std::fmt::Debug>(step: HalStep<T>) -> HalRequest {
    match step {
        HalStep::Call(req) => req,
        HalStep::Done(r) => panic!("expected a request, got {r:?}"),
    }
}

#[test]
fn check_maps_status() {
    assert!(check(0).is_ok());
    assert!(matches!(check(-50), Err(Error::CoreAudio(-50))));
    assert!(matches!(check(0x77686f3f), Err(Error::CoreAudio(0x77686f3f))));
}

#[test]
fn default_input_device_cases() {
    assert_eq!(default_input_device_id(0, 73).unwrap(), 73);
    assert!(matches!(default_input_device_id(0, 0), Err(Error::NoDefaultInputDevice)));
    assert!(matches!(default_input_device_id(-1, 73), Err(Error::CoreAudio(-1))));
}

#[test]
fn device_name_cases() {
    assert_eq!(device_name(0, Some("Mic".to_string())).unwrap(), "Mic");
    assert_eq!(device_name(0, None).unwrap(), "Unknown");
    assert!(matches!(device_name(7, None), Err(Error::CoreAudio(7))));
}

#[test]
fn device_list_reads_size_then_ids() {
    let (mut m, first) = all_device_ids();
    assert_eq!(first, HalRequest::GetDataSize { object: SYSTEM_OBJECT, address: devices_address() });
    let next = call(m.resume(HalReply::DataSize { status: 0, size: 12 }));
    assert_eq!(
        next,
        HalRequest::GetWords { object: SYSTEM_OBJECT, address: devices_address(), count: 3 }
    );
    let ids = done(m.resume(HalReply::Words { status: 0, values: vec![41, 42, 77] })).unwrap();
    assert_eq!(ids, vec![41, 42, 77]);
}

#[test]
fn device_list_empty_and_errors() {
    let (mut m, _) = all_device_ids();
    assert!(done(m.resume(HalReply::DataSize { status: 0, size: 3 })).unwrap().is_empty());
    let (mut m, _) = all_device_ids();
    assert!(matches!(done(m.resume(HalReply::DataSize { status: -3, size: 8 })), Err(Error::CoreAudio(-3))));
    let (mut m, _) = all_device_ids();
    call(m.resume(HalReply::DataSize { status: 0, size: 8 }));
    assert!(matches!(
        done(m.resume(HalReply::Words { status: 9, values: vec![] })),
        Err(Error::CoreAudio(9))
    ));
}

#[test]
fn channel_count_sums_buffers() {
    let (mut m, first) = input_channel_count(42);
    assert_eq!(first, HalRequest::GetDataSize { object: 42, address: stream_configuration_address() });
    let next = call(m.resume(HalReply::DataSize { status: 0, size: 40 }));
    assert_eq!(
        next,
        HalRequest::GetStreamChannels { object: 42, address: stream_configuration_address(), size: 40 }
    );
    assert_eq!(done(m.resume(HalReply::StreamChannels { status: 0, channels: vec![1, 2] })).unwrap(), 3);
}

#[test]
fn channel_count_empty_and_errors() {
    let (mut m, _) = input_channel_count(42);
    assert_eq!(done(m.resume(HalReply::DataSize { status: 0, size: 0 })).unwrap(), 0);
    let (mut m, _) = input_channel_count(42);
    assert!(matches!(done(m.resume(HalReply::DataSize { status: 5, size: 0 })), Err(Error::CoreAudio(5))));
    let (mut m, _) = input_channel_count(42);
    call(m.resume(HalReply::DataSize { status: 0, size: 24 }));
    assert!(matches!(
        done(m.resume(HalReply::StreamChannels { status: 6, channels: vec![] })),
        Err(Error::CoreAudio(6))
    ));
}

#[test]
fn channel_totals() {
    assert_eq!(total_channels(&vec![]), 0);
    assert_eq!(total_channels(&vec![2, 2, 4]), 8);
    assert!(channel_total_fits(&vec![u32::MAX]));
    assert!(channel_total_fits(&vec![u32::MAX - 1, 1]));
    assert!(!channel_total_fits(&vec![u32::MAX, 1]));
}

#[test]
fn volume_read_prefers_master() {
    let (mut m, first) = get_volume_scalar(5);
    assert_eq!(first, HalRequest::HasProperty { object: 5, address: volume_address(0) });
    let next = call(m.resume(HalReply::Present(true)));
    assert_eq!(next, HalRequest::GetWord { object: 5, address: volume_address(0) });
    assert_eq!(done(m.resume(HalReply::Word { status: 0, value: 0.5f32.to_bits() })).unwrap(), 0.5f32.to_bits());
}

#[test]
fn volume_read_falls_back_to_channel_1() {
    let (mut m, _) = get_volume_scalar(5);
    let next = call(m.resume(HalReply::Present(false)));
    assert_eq!(next, HalRequest::HasProperty { object: 5, address: volume_address(1) });
    let next = call(m.resume(HalReply::Present(true)));
    assert_eq!(next, HalRequest::GetWord { object: 5, address: volume_address(1) });
    assert!(matches!(done(m.resume(HalReply::Word { status: -7, value: 0 })), Err(Error::CoreAudio(-7))));
}

#[test]
fn volume_read_without_control_is_not_supported() {
    let (mut m, _) = get_volume_scalar(5);
    call(m.resume(HalReply::Present(false)));
    match done(m.resume(HalReply::Present(false))) {
        Err(Error::NotSupported(msg)) => assert_eq!(msg, "device has no volume control"),
        other => panic!("unexpected {other:?}"),
    }
}

#[test]
fn volume_write_follows_the_same_probe() {
    let v = 0.75f32.to_bits();
    let (mut m, _) = set_volume_scalar(9, v);
    let next = call(m.resume(HalReply::Present(false)));
    assert_eq!(next, HalRequest::HasProperty { object: 9, address: volume_address(1) });
    let next = call(m.resume(HalReply::Present(true)));
    assert_eq!(next, HalRequest::SetWord { object: 9, address: volume_address(1), value: v });
    assert!(done(m.resume(HalReply::Status(0))).is_ok());

    let (mut m, _) = set_volume_scalar(9, v);
    let next = call(m.resume(HalReply::Present(true)));
    assert_eq!(next, HalRequest::SetWord { object: 9, address: volume_address(0), value: v });
    assert!(matches!(done(m.resume(HalReply::Status(3))), Err(Error::CoreAudio(3))));

    let (mut m, _) = set_volume_scalar(9, v);
    call(m.resume(HalReply::Present(false)));
    assert!(matches!(done(m.resume(HalReply::Present(false))), Err(Error::NotSupported(_))));
}

#[test]
fn mute_read_cases() {
    let (mut m, first) = get_mute(3);
    assert_eq!(first, HalRequest::HasProperty { object: 3, address: mute_address() });
    assert_eq!(done(m.resume(HalReply::Present(false))).unwrap(), false);

    let (mut m, _) = get_mute(3);
    let next = call(m.resume(HalReply::Present(true)));
    assert_eq!(next, HalRequest::GetWord { object: 3, address: mute_address() });
    assert_eq!(done(m.resume(HalReply::Word { status: 0, value: 2 })).unwrap(), true);

    let (mut m, _) = get_mute(3);
    call(m.resume(HalReply::Present(true)));
    assert_eq!(done(m.resume(HalReply::Word { status: 0, value: 0 })).unwrap(), false);

    let (mut m, _) = get_mute(3);
    call(m.resume(HalReply::Present(true)));
    assert!(matches!(done(m.resume(HalReply::Word { status: 1, value: 1 })), Err(Error::CoreAudio(1))));
}

#[test]
fn mute_write_cases() {
    let (mut m, _) = set_mute(3, true);
    assert!(done(m.resume(HalReply::Present(false))).is_ok());

    let (mut m, _) = set_mute(3, true);
    let next = call(m.resume(HalReply::Present(true)));
    assert_eq!(next, HalRequest::SetWord { object: 3, address: mute_address(), value: 1 });
    assert!(done(m.resume(HalReply::Status(0))).is_ok());

    let (mut m, _) = set_mute(3, false);
    let next = call(m.resume(HalReply::Present(true)));
    assert_eq!(next, HalRequest::SetWord { object: 3, address: mute_address(), value: 0 });
    assert!(matches!(done(m.resume(HalReply::Status(-2))), Err(Error::CoreAudio(-2))));
}

#[test]
fn reply_kinds_match_requests() {
    let req = HalRequest::GetWord { object: 1, address: mute_address() };
    assert!(HalReply::Word { status: 0, value: 0 }.answers(&req));
    assert!(!HalReply::Status(0).answers(&req));
    assert!(!HalReply::Present(true).answers(&req));
}

#[test]
fn array_reply_must_hold_requested_count() {
    let req = HalRequest::GetWords { object: SYSTEM_OBJECT, address: devices_address(), count: 2 };
    assert!(HalReply::Words { status: 0, values: vec![1, 2] }.answers(&req));
    assert!(!HalReply::Words { status: 0, values: vec![1] }.answers(&req));
    assert!(HalReply::Words { status: -1, values: vec![] }.answers(&req));
}

#[test]
fn volume_write_keeps_value_through_fallback() {
    let v = 0.25f32.to_bits();
    let (mut m, _) = set_volume_scalar(4, v);
    call(m.resume(HalReply::Present(false)));
    let next = call(m.resume(HalReply::Present(true)));
    assert_eq!(next, HalRequest::SetWord { object: 4, address: volume_address(1), value: v });
}
