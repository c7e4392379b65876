//! Volume guard: save a device's volume and mute state, set a target
//! volume, and later put the saved state back.
//!
//! Setting up a guard ([`VolumeGuard::with_volume`], [`VolumeGuard::maximize`])
//! and restoring it ([`VolumeGuard::restore`]) are state machines over
//! device queries. A guard restores at most once: a second restore does
//! nothing and succeeds.

use crate::error::Error;
use crate::manager::{responds, DeviceAnswer, DeviceQuery, DeviceStep};
use crate::types::{is_positive_bits, DeviceId, MuteState, Volume, ONE_BITS};
use vstd::prelude::*;

verus! {

/// The saved state of a device, to be put back by [`VolumeGuard::restore`].
#[derive(Debug)]
pub struct VolumeGuard {
    device_id: DeviceId,
    original_volume: Volume,
    original_mute: MuteState,
    restored: bool,
}

/// Where a [`GuardSetup`] stands.
#[derive(Debug, Clone, Copy)]
enum SetupStage {
    ReadingVolume,
    ReadingMute { volume: Volume },
    WritingVolume { volume: Volume, mute: MuteState },
    WritingMute { volume: Volume, mute: MuteState },
    Finished,
}

/// Sets up a [`VolumeGuard`]: reads the volume, then the mute state, of the
/// device; writes the target volume; and, when the target is above `0.0`,
/// unmutes the device. The first failure ends the setup with that error.
#[derive(Debug)]
pub struct GuardSetup {
    device: DeviceId,
    target: Volume,
    stage: SetupStage,
}

/// Where a [`Restore`] stands.
#[derive(Debug)]
enum RestoreStage {
    WritingVolume,
    WritingMute { volume_result: Result<(), Error> },
    Finished,
}

/// Restores a device: writes the saved volume, then the saved mute state
/// (whether or not the first write succeeded), and reports the volume
/// write's error if there was one, else the mute write's outcome.
#[derive(Debug)]
pub struct Restore {
    device: DeviceId,
    volume: Volume,
    mute: MuteState,
    stage: RestoreStage,
}

impl VolumeGuard {
    /// The guarded device.
    pub closed spec fn device(self) -> DeviceId {
        self.device_id
    }

    /// The volume saved when the guard was set up.
    pub closed spec fn saved_volume(self) -> Volume {
        self.original_volume
    }

    /// The mute state saved when the guard was set up.
    pub closed spec fn saved_mute(self) -> MuteState {
        self.original_mute
    }

    /// Whether the guard has already restored the device.
    pub closed spec fn is_restored(self) -> bool {
        self.restored
    }

    /// A guard fresh from setup.
    pub closed spec fn fresh(device: DeviceId, volume: Volume, mute: MuteState) -> VolumeGuard {
        VolumeGuard { device_id: device, original_volume: volume, original_mute: mute, restored: false }
    }

    /// The guard after `restore`, the restore machine, and its first step:
    /// a guard that has restored already stays as it is and succeeds at once;
    /// otherwise it is marked restored and the saved volume is written.
    pub closed spec fn restore_start(self) -> (VolumeGuard, Restore, DeviceStep<()>) {
        let machine = Restore {
            device: self.device_id,
            volume: self.original_volume,
            mute: self.original_mute,
            stage: if self.restored {
                RestoreStage::Finished
            } else {
                RestoreStage::WritingVolume
            },
        };
        if self.restored {
            (self, machine, DeviceStep::Done(Ok(())))
        } else {
            (
                VolumeGuard { restored: true, ..self },
                machine,
                DeviceStep::Query(DeviceQuery::WriteVolume(self.device_id, self.original_volume)),
            )
        }
    }

    /// Starts setting up a guard that sets the volume of `device` to `target`.
    pub fn with_volume(device: &DeviceId, target: Volume) -> (r: (GuardSetup, DeviceQuery))
        ensures
            r == GuardSetup::start(*device, target),
            r.1 == DeviceQuery::ReadVolume(*device),
            r.0.pending() == Some(r.1),
            r.0.device() == *device,
            r.0.target() == target,
    {
        (
            GuardSetup { device: *device, target, stage: SetupStage::ReadingVolume },
            DeviceQuery::ReadVolume(*device),
        )
    }

    /// Starts setting up a guard that sets the volume of `device` to `1.0`.
    pub fn maximize(device: &DeviceId) -> (r: (GuardSetup, DeviceQuery))
        ensures
            r == GuardSetup::start(*device, r.0.target()),
            r.0.target()@ == ONE_BITS,
            r.1 == DeviceQuery::ReadVolume(*device),
            r.0.pending() == Some(r.1),
    {
        Self::with_volume(device, Volume::max())
    }

    /// The saved volume.
    pub fn original_volume(&self) -> (v: Volume)
        ensures
            v == self.saved_volume(),
    {
        self.original_volume
    }

    /// The saved mute state.
    pub fn original_mute(&self) -> (m: MuteState)
        ensures
            m == self.saved_mute(),
    {
        self.original_mute
    }

    /// The guarded device.
    pub fn device_id(&self) -> (d: DeviceId)
        ensures
            d == self.device(),
    {
        self.device_id
    }

    /// Whether the guard has already restored the device.
    pub fn restored(&self) -> (b: bool)
        ensures
            b == self.is_restored(),
    {
        self.restored
    }

    /// Starts restoring the device (see [`VolumeGuard::restore_start`]).
    pub fn restore(&mut self) -> (r: (Restore, DeviceStep<()>))
        ensures
            (*final(self), r.0, r.1) == old(self).restore_start(),
            final(self).is_restored(),
            old(self).is_restored() ==> r.1 == DeviceStep::<()>::Done(Ok(())),
            r.1 matches DeviceStep::Query(q) ==> r.0.pending() == Some(q),
            r.1 is Done ==> r.0.pending() is None,
            !old(self).is_restored() ==> r.1 == DeviceStep::<()>::Query(
                DeviceQuery::WriteVolume(old(self).device(), old(self).saved_volume()),
            ),
            final(self).device() == old(self).device(),
            final(self).saved_volume() == old(self).saved_volume(),
            final(self).saved_mute() == old(self).saved_mute(),
            r.0.device() == old(self).device(),
            r.0.volume() == old(self).saved_volume(),
            r.0.mute() == old(self).saved_mute(),
            r.0.volume_written() is None,
    {
        let machine = Restore {
            device: self.device_id,
            volume: self.original_volume,
            mute: self.original_mute,
            stage: if self.restored {
                RestoreStage::Finished
            } else {
                RestoreStage::WritingVolume
            },
        };
        if self.restored {
            (machine, DeviceStep::Done(Ok(())))
        } else {
            self.restored = true;
            (machine, DeviceStep::Query(DeviceQuery::WriteVolume(self.device_id, self.original_volume)))
        }
    }
}

impl GuardSetup {
    /// The device being guarded.
    pub closed spec fn device(self) -> DeviceId {
        self.device
    }

    /// The volume the setup writes.
    pub closed spec fn target(self) -> Volume {
        self.target
    }

    /// A fresh setup of `device` towards `target`, and its first query.
    pub closed spec fn start(device: DeviceId, target: Volume) -> (GuardSetup, DeviceQuery) {
        (
            GuardSetup { device, target, stage: SetupStage::ReadingVolume },
            DeviceQuery::ReadVolume(device),
        )
    }

    /// The query whose answer the setup waits for (`None` once finished).
    pub closed spec fn pending(self) -> Option<DeviceQuery> {
        match self.stage {
            SetupStage::ReadingVolume => Some(DeviceQuery::ReadVolume(self.device)),
            SetupStage::ReadingMute { .. } => Some(DeviceQuery::ReadMute(self.device)),
            SetupStage::WritingVolume { .. } => Some(
                DeviceQuery::WriteVolume(self.device, self.target),
            ),
            SetupStage::WritingMute { .. } => Some(
                DeviceQuery::WriteMute(self.device, MuteState::Unmuted),
            ),
            SetupStage::Finished => None,
        }
    }

    /// The setup after `answer`, and what it wants next.
    pub closed spec fn next(self, answer: DeviceAnswer) -> (GuardSetup, DeviceStep<VolumeGuard>) {
        let finished = GuardSetup { stage: SetupStage::Finished, ..self };
        match (self.stage, answer) {
            (SetupStage::ReadingVolume, DeviceAnswer::Volume(r)) => match r {
                Err(e) => (finished, DeviceStep::Done(Err(e))),
                Ok(volume) => (
                    GuardSetup { stage: SetupStage::ReadingMute { volume }, ..self },
                    DeviceStep::Query(DeviceQuery::ReadMute(self.device)),
                ),
            },
            (SetupStage::ReadingMute { volume }, DeviceAnswer::Mute(r)) => match r {
                Err(e) => (finished, DeviceStep::Done(Err(e))),
                Ok(mute) => (
                    GuardSetup { stage: SetupStage::WritingVolume { volume, mute }, ..self },
                    DeviceStep::Query(DeviceQuery::WriteVolume(self.device, self.target)),
                ),
            },
            (SetupStage::WritingVolume { volume, mute }, DeviceAnswer::Written(r)) => match r {
                Err(e) => (finished, DeviceStep::Done(Err(e))),
                Ok(()) => if is_positive_bits(self.target@) {
                    (
                        GuardSetup { stage: SetupStage::WritingMute { volume, mute }, ..self },
                        DeviceStep::Query(DeviceQuery::WriteMute(self.device, MuteState::Unmuted)),
                    )
                } else {
                    (finished, DeviceStep::Done(Ok(VolumeGuard::fresh(self.device, volume, mute))))
                },
            },
            (SetupStage::WritingMute { volume, mute }, DeviceAnswer::Written(r)) => match r {
                Err(e) => (finished, DeviceStep::Done(Err(e))),
                Ok(()) => (
                    finished,
                    DeviceStep::Done(Ok(VolumeGuard::fresh(self.device, volume, mute))),
                ),
            },
            _ => (self, DeviceStep::Done(Err(Error::DeviceNotFound))),
        }
    }

    /// Whether the setup has finished.
    pub fn is_finished(&self) -> (b: bool)
        ensures
            b == (self.pending() is None),
    {
        matches!(self.stage, SetupStage::Finished)
    }

    /// Takes the answer to the pending query.
    pub fn resume(&mut self, answer: DeviceAnswer) -> (step: DeviceStep<VolumeGuard>)
        requires
            old(self).pending() matches Some(q) && responds(q, answer),
        ensures
            (*final(self), step) == old(self).next(answer),
            step matches DeviceStep::Query(q) ==> final(self).pending() == Some(q),
            step is Done ==> final(self).pending() is None,
    {
        proof {
            use_type_invariant(&self.target);
        }
        let stage = self.stage;
        match (stage, answer) {
            (SetupStage::ReadingVolume, DeviceAnswer::Volume(r)) => match r {
                Err(e) => {
                    self.stage = SetupStage::Finished;
                    DeviceStep::Done(Err(e))
                },
                Ok(volume) => {
                    self.stage = SetupStage::ReadingMute { volume };
                    DeviceStep::Query(DeviceQuery::ReadMute(self.device))
                },
            },
            (SetupStage::ReadingMute { volume }, DeviceAnswer::Mute(r)) => match r {
                Err(e) => {
                    self.stage = SetupStage::Finished;
                    DeviceStep::Done(Err(e))
                },
                Ok(mute) => {
                    self.stage = SetupStage::WritingVolume { volume, mute };
                    DeviceStep::Query(DeviceQuery::WriteVolume(self.device, self.target))
                },
            },
            (SetupStage::WritingVolume { volume, mute }, DeviceAnswer::Written(r)) => match r {
                Err(e) => {
                    self.stage = SetupStage::Finished;
                    DeviceStep::Done(Err(e))
                },
                Ok(()) => {
                    if self.target.is_audible() {
                        self.stage = SetupStage::WritingMute { volume, mute };
                        DeviceStep::Query(DeviceQuery::WriteMute(self.device, MuteState::Unmuted))
                    } else {
                        self.stage = SetupStage::Finished;
                        DeviceStep::Done(
                            Ok(
                                VolumeGuard {
                                    device_id: self.device,
                                    original_volume: volume,
                                    original_mute: mute,
                                    restored: false,
                                },
                            ),
                        )
                    }
                },
            },
            (SetupStage::WritingMute { volume, mute }, DeviceAnswer::Written(r)) => {
                self.stage = SetupStage::Finished;
                match r {
                    Err(e) => DeviceStep::Done(Err(e)),
                    Ok(()) => DeviceStep::Done(
                        Ok(
                            VolumeGuard {
                                device_id: self.device,
                                original_volume: volume,
                                original_mute: mute,
                                restored: false,
                            },
                        ),
                    ),
                }
            },
            _ => {
                proof {
                    assert(false);
                }
                DeviceStep::Done(Err(Error::DeviceNotFound))
            },
        }
    }
}

impl Restore {
    /// The device being restored.
    pub closed spec fn device(self) -> DeviceId {
        self.device
    }

    /// The volume written back.
    pub closed spec fn volume(self) -> Volume {
        self.volume
    }

    /// The mute state written back.
    pub closed spec fn mute(self) -> MuteState {
        self.mute
    }

    /// The outcome of the volume write, once it has been answered.
    pub closed spec fn volume_written(self) -> Option<Result<(), Error>> {
        match self.stage {
            RestoreStage::WritingMute { volume_result } => Some(volume_result),
            _ => None,
        }
    }

    /// The query whose answer the restore waits for (`None` once finished).
    pub closed spec fn pending(self) -> Option<DeviceQuery> {
        match self.stage {
            RestoreStage::WritingVolume => Some(DeviceQuery::WriteVolume(self.device, self.volume)),
            RestoreStage::WritingMute { .. } => Some(DeviceQuery::WriteMute(self.device, self.mute)),
            RestoreStage::Finished => None,
        }
    }

    /// The restore after `answer`, and what it wants next.
    pub closed spec fn next(self, answer: DeviceAnswer) -> (Restore, DeviceStep<()>) {
        match (self.stage, answer) {
            (RestoreStage::WritingVolume, DeviceAnswer::Written(r)) => (
                Restore { stage: RestoreStage::WritingMute { volume_result: r }, ..self },
                DeviceStep::Query(DeviceQuery::WriteMute(self.device, self.mute)),
            ),
            (RestoreStage::WritingMute { volume_result }, DeviceAnswer::Written(r)) => (
                Restore { stage: RestoreStage::Finished, ..self },
                DeviceStep::Done(
                    match volume_result {
                        Err(e) => Err(e),
                        Ok(()) => r,
                    },
                ),
            ),
            _ => (self, DeviceStep::Done(Err(Error::DeviceNotFound))),
        }
    }

    /// Takes the answer to the pending query.
    pub fn resume(&mut self, answer: DeviceAnswer) -> (step: DeviceStep<()>)
        requires
            old(self).pending() matches Some(q) && responds(q, answer),
        ensures
            (*final(self), step) == old(self).next(answer),
            step matches DeviceStep::Query(q) ==> final(self).pending() == Some(q),
            step is Done ==> final(self).pending() is None,
            final(self).device() == old(self).device(),
            final(self).volume() == old(self).volume(),
            final(self).mute() == old(self).mute(),
            old(self).pending() matches Some(DeviceQuery::WriteVolume(..)) ==> {
                &&& step == DeviceStep::<()>::Query(
                    DeviceQuery::WriteMute(old(self).device(), old(self).mute()),
                )
                &&& final(self).volume_written() == Some(answer->Written_0)
            },
            old(self).pending() matches Some(DeviceQuery::WriteMute(..)) ==> step
                == DeviceStep::<()>::Done(
                match old(self).volume_written() {
                    Some(Err(e)) => Err(e),
                    _ => answer->Written_0,
                },
            ),
    {
        let mut stage = RestoreStage::Finished;
        std::mem::swap(&mut stage, &mut self.stage);
        match (stage, answer) {
            (RestoreStage::WritingVolume, DeviceAnswer::Written(r)) => {
                self.stage = RestoreStage::WritingMute { volume_result: r };
                DeviceStep::Query(DeviceQuery::WriteMute(self.device, self.mute))
            },
            (RestoreStage::WritingMute { volume_result }, DeviceAnswer::Written(r)) => {
                DeviceStep::Done(
                    match volume_result {
                        Err(e) => Err(e),
                        Ok(()) => r,
                    },
                )
            },
            _ => {
                proof {
                    assert(false);
                }
                DeviceStep::Done(Err(Error::DeviceNotFound))
            },
        }
    }
}

/// The error an answer carries, if any.
pub open spec fn answer_error(answer: DeviceAnswer) -> Option<Error> {
    match answer {
        DeviceAnswer::Volume(Err(e)) => Some(e),
        DeviceAnswer::Mute(Err(e)) => Some(e),
        DeviceAnswer::Written(Err(e)) => Some(e),
        _ => None,
    }
}

/// A guard set up over a device whose volume reads as `volume` and whose
/// mute state reads as `mute`, with every write succeeding, holds exactly
/// `volume` and `mute`; it unmutes the device exactly when `target` is
/// above `0.0`; and restoring it writes `volume` back first and `mute`
/// second, whatever the first write answered.
pub proof fn lemma_setup_then_restore(
    device: DeviceId,
    target: Volume,
    volume: Volume,
    mute: MuteState,
    volume_written: Result<(), Error>,
)
    ensures
        ({
            let (s0, q0) = GuardSetup::start(device, target);
            let (s1, t1) = s0.next(DeviceAnswer::Volume(Ok(volume)));
            let (s2, t2) = s1.next(DeviceAnswer::Mute(Ok(mute)));
            let (s3, t3) = s2.next(DeviceAnswer::Written(Ok(())));
            let (s4, t4) = if is_positive_bits(target@) {
                s3.next(DeviceAnswer::Written(Ok(())))
            } else {
                (s3, t3)
            };
            &&& q0 == DeviceQuery::ReadVolume(device)
            &&& t1 == DeviceStep::<VolumeGuard>::Query(DeviceQuery::ReadMute(device))
            &&& t2 == DeviceStep::<VolumeGuard>::Query(DeviceQuery::WriteVolume(device, target))
            &&& (is_positive_bits(target@) <==> t3 == DeviceStep::<VolumeGuard>::Query(
                DeviceQuery::WriteMute(device, MuteState::Unmuted),
            ))
            &&& s4.pending() is None
            &&& t4 matches DeviceStep::Done(Ok(g)) && {
                let (g1, m, first) = g.restore_start();
                &&& g.device() == device
                &&& g.saved_volume() == volume
                &&& g.saved_mute() == mute
                &&& !g.is_restored()
                &&& g1.is_restored()
                &&& first == DeviceStep::<()>::Query(DeviceQuery::WriteVolume(device, volume))
                &&& m.pending() == Some(DeviceQuery::WriteVolume(device, volume))
                &&& m.next(DeviceAnswer::Written(volume_written)).1 == DeviceStep::<()>::Query(
                    DeviceQuery::WriteMute(device, mute),
                )
            }
        }),
{
}

/// A guard restores at most once: after a restore it is marked restored,
/// still guards the same device with the same saved state, and restoring
/// it again changes nothing and succeeds without any write.
pub proof fn lemma_restore_once(guard: VolumeGuard)
    ensures
        ({
            let (g1, _, _) = guard.restore_start();
            let (g2, m2, step2) = g1.restore_start();
            &&& g1.is_restored()
            &&& g1.device() == guard.device()
            &&& g1.saved_volume() == guard.saved_volume()
            &&& g1.saved_mute() == guard.saved_mute()
            &&& g2 == g1
            &&& step2 == DeviceStep::<()>::Done(Ok(()))
            &&& m2.pending() is None
        }),
{
}

/// The outcome of a restore is the volume write's error if it failed, and
/// otherwise the outcome of the mute write.
pub proof fn lemma_restore_outcome(
    guard: VolumeGuard,
    volume_written: Result<(), Error>,
    mute_written: Result<(), Error>,
)
    requires
        !guard.is_restored(),
    ensures
        ({
            let (_, m0, _) = guard.restore_start();
            let (m1, _) = m0.next(DeviceAnswer::Written(volume_written));
            let (m2, step) = m1.next(DeviceAnswer::Written(mute_written));
            &&& step == DeviceStep::<()>::Done(
                match volume_written {
                    Err(e) => Err(e),
                    Ok(()) => mute_written,
                },
            )
            &&& m2.pending() is None
        }),
{
}

/// The setup ends at the first failure, with that failure.
pub proof fn lemma_setup_stops_at_first_error(setup: GuardSetup, answer: DeviceAnswer)
    requires
        setup.pending() matches Some(q) && responds(q, answer),
        answer_error(answer) is Some,
    ensures
        setup.next(answer).1 == DeviceStep::<VolumeGuard>::Done(Err(answer_error(answer)->Some_0)),
        setup.next(answer).0.pending() is None,
{
}

/// A maximizing guard always unmutes the device after writing the volume.
pub proof fn lemma_maximize_unmutes(device: DeviceId, target: Volume, volume: Volume, mute: MuteState)
    requires
        target@ == ONE_BITS,
    ensures
        ({
            let (s0, _) = GuardSetup::start(device, target);
            let (s1, _) = s0.next(DeviceAnswer::Volume(Ok(volume)));
            let (s2, _) = s1.next(DeviceAnswer::Mute(Ok(mute)));
            s2.next(DeviceAnswer::Written(Ok(()))).1 == DeviceStep::<VolumeGuard>::Query(
                DeviceQuery::WriteMute(device, MuteState::Unmuted),
            )
        }),
{
}

} // verus!
