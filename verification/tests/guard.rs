use micvol::error::Error;
use micvol::guard::VolumeGuard;
use micvol::manager::{DeviceAnswer, DeviceQuery, DeviceStep};
use micvol::types::{DeviceId, MuteState, Volume};

fn query<T: std::fmt::Debug>(step: DeviceStep<T>) -> DeviceQuery {
    match step {
        DeviceStep::Query(q) => q,
        DeviceStep::Done(r) => panic!("expected a query, got {r:?}"),
    }
}

fn done<T>(step: DeviceStep<T>) -> Result<T, Error> {
    match step {
        DeviceStep::Done(r) => r,
        DeviceStep::Query(q) => panic!("expected a result, got {q:?}"),
    }
}

fn vol(x: f32) -> Volume {
    Volume::new(x.to_bits()).unwrap()
}

fn setup(device: DeviceId, target: Volume, before: Volume, mute: MuteState) -> VolumeGuard {
    let (mut s, first) = VolumeGuard::with_volume(&device, target);
    assert!(matches!(first, DeviceQuery::ReadVolume(d) if d == device));
    let q = query(s.resume(DeviceAnswer::Volume(Ok(before))));
    assert!(matches!(q, DeviceQuery::ReadMute(d) if d == device));
    let q = query(s.resume(DeviceAnswer::Mute(Ok(mute))));
    assert!(matches!(q, DeviceQuery::WriteVolume(d, v) if d == device && v == target));
    let step = s.resume(DeviceAnswer::Written(Ok(())));
    let step = if target.is_audible() {
        let q = query(step);
        assert!(matches!(q, DeviceQuery::WriteMute(d, MuteState::Unmuted) if d == device));
        s.resume(DeviceAnswer::Written(Ok(())))
    } else {
        step
    };
    assert!(s.is_finished());
    done(step).unwrap()
}

#[test]
fn maximize_saves_and_restores() {
    let device = DeviceId::from_raw(42);
    let (mut s, _) = VolumeGuard::maximize(&device);
    query(s.resume(DeviceAnswer::Volume(Ok(vol(0.73)))));
    query(s.resume(DeviceAnswer::Mute(Ok(MuteState::Muted))));
    let q = query(s.resume(DeviceAnswer::Written(Ok(()))));
    assert!(matches!(q, DeviceQuery::WriteMute(_, MuteState::Unmuted)));
    let mut g = done(s.resume(DeviceAnswer::Written(Ok(())))).unwrap();
    assert_eq!(g.original_volume().to_bits(), 0.73f32.to_bits());
    assert_eq!(g.original_mute(), MuteState::Muted);
    assert!(!g.restored());

    let (mut r, step) = g.restore();
    let q = query(step);
    assert!(matches!(q, DeviceQuery::WriteVolume(d, v) if d == device && v == vol(0.73)));
    let q = query(r.resume(DeviceAnswer::Written(Ok(()))));
    assert!(matches!(q, DeviceQuery::WriteMute(d, MuteState::Muted) if d == device));
    assert!(done(r.resume(DeviceAnswer::Written(Ok(())))).is_ok());
    assert!(g.restored());
}

#[test]
fn silent_target_does_not_unmute() {
    let g = setup(DeviceId::from_raw(1), Volume::muted(), vol(0.5), MuteState::Unmuted);
    assert_eq!(g.original_volume().to_bits(), 0.5f32.to_bits());
}

#[test]
fn audible_target_unmutes() {
    let g = setup(DeviceId::from_raw(1), vol(0.2), vol(0.9), MuteState::Muted);
    assert_eq!(g.original_mute(), MuteState::Muted);
}

#[test]
fn restore_happens_once() {
    let mut g = setup(DeviceId::from_raw(3), Volume::max(), vol(0.1), MuteState::Unmuted);
    let (mut r, step) = g.restore();
    query(step);
    query(r.resume(DeviceAnswer::Written(Ok(()))));
    assert!(done(r.resume(DeviceAnswer::Written(Ok(())))).is_ok());
    let (_, again) = g.restore();
    assert!(matches!(again, DeviceStep::Done(Ok(()))));
    assert!(g.restored());
}

#[test]
fn restore_reports_volume_error_first() {
    let mut g = setup(DeviceId::from_raw(3), Volume::max(), vol(0.1), MuteState::Unmuted);
    let (mut r, step) = g.restore();
    query(step);
    let q = query(r.resume(DeviceAnswer::Written(Err(Error::CoreAudio(-1)))));
    assert!(matches!(q, DeviceQuery::WriteMute(_, MuteState::Unmuted)));
    assert!(matches!(done(r.resume(DeviceAnswer::Written(Err(Error::CoreAudio(-2))))), Err(Error::CoreAudio(-1))));
}

#[test]
fn restore_reports_mute_error_when_volume_ok() {
    let mut g = setup(DeviceId::from_raw(3), Volume::max(), vol(0.1), MuteState::Unmuted);
    let (mut r, step) = g.restore();
    query(step);
    query(r.resume(DeviceAnswer::Written(Ok(()))));
    assert!(matches!(done(r.resume(DeviceAnswer::Written(Err(Error::CoreAudio(-2))))), Err(Error::CoreAudio(-2))));
}

#[test]
fn setup_stops_at_first_failure() {
    let device = DeviceId::from_raw(5);
    let (mut s, _) = VolumeGuard::maximize(&device);
    assert!(matches!(done(s.resume(DeviceAnswer::Volume(Err(Error::NotSupported("x".to_string()))))), Err(Error::NotSupported(_))));
    assert!(s.is_finished());

    let (mut s, _) = VolumeGuard::maximize(&device);
    query(s.resume(DeviceAnswer::Volume(Ok(vol(0.3)))));
    assert!(matches!(done(s.resume(DeviceAnswer::Mute(Err(Error::CoreAudio(8))))), Err(Error::CoreAudio(8))));

    let (mut s, _) = VolumeGuard::maximize(&device);
    query(s.resume(DeviceAnswer::Volume(Ok(vol(0.3)))));
    query(s.resume(DeviceAnswer::Mute(Ok(MuteState::Unmuted))));
    assert!(matches!(done(s.resume(DeviceAnswer::Written(Err(Error::CoreAudio(9))))), Err(Error::CoreAudio(9))));

    let (mut s, _) = VolumeGuard::maximize(&device);
    query(s.resume(DeviceAnswer::Volume(Ok(vol(0.3)))));
    query(s.resume(DeviceAnswer::Mute(Ok(MuteState::Unmuted))));
    query(s.resume(DeviceAnswer::Written(Ok(()))));
    assert!(matches!(done(s.resume(DeviceAnswer::Written(Err(Error::CoreAudio(10))))), Err(Error::CoreAudio(10))));
}
