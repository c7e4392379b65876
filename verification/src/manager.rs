//! Device management: enumeration, the default input device, and volume
//! and mute control, on top of the property protocol of [`crate::coreaudio`].
//!
//! The composite operations are state machines whose steps are device
//! queries ([`DeviceQuery`]); each query is answered with the outcome of
//! the corresponding [`crate::coreaudio`] operation ([`DeviceAnswer`]).

use crate::coreaudio::{
    mute_address, mute_word, set_volume_scalar, unknown_name, unknown_name_string, volume_address,
    SetMute, SetVolumeScalar,
};
use crate::error::Error;
use crate::hal::{HalRequest, ELEMENT_MASTER};
use crate::types::{
    clamp_unit, clamp_unit_bits, denotes_above_one, denotes_below_zero, denotes_unit_number,
    encodes_nan, in_unit_range, is_nan_bits, lemma_clamp_meaning, lemma_clamp_unit_range,
    lemma_unit_range_meaning, mute_state_of, DeviceId, DeviceInfo, MuteState, Volume, ONE_BITS,
    ZERO_BITS,
};
use vstd::prelude::*;

verus! {

/// A device-level operation that a manager state machine asks for.
#[derive(Debug, Clone, Copy)]
pub enum DeviceQuery {
    /// The default input device ([`crate::coreaudio::default_input_device_id`]).
    DefaultInput,
    /// All device identifiers ([`crate::coreaudio::AllDeviceIds`]).
    DeviceList,
    /// The input channel count ([`crate::coreaudio::InputChannelCount`]).
    Channels(DeviceId),
    /// The device name ([`crate::coreaudio::device_name`]).
    Name(DeviceId),
    /// The volume ([`get_volume`] over [`crate::coreaudio::GetVolumeScalar`]).
    ReadVolume(DeviceId),
    /// The mute state ([`get_mute`] over [`crate::coreaudio::GetMute`]).
    ReadMute(DeviceId),
    /// Set the volume ([`set_volume`]).
    WriteVolume(DeviceId, Volume),
    /// Set the mute state ([`set_mute`]).
    WriteMute(DeviceId, MuteState),
}

/// The outcome of a [`DeviceQuery`].
#[derive(Debug)]
pub enum DeviceAnswer {
    DefaultInput(Result<u32, Error>),
    DeviceList(Result<Vec<u32>, Error>),
    Channels(Result<u32, Error>),
    Name(Result<String, Error>),
    Volume(Result<Volume, Error>),
    Mute(Result<MuteState, Error>),
    Written(Result<(), Error>),
}

/// What a manager state machine wants next: a device query, or its result.
#[derive(Debug)]
pub enum DeviceStep<T> {
    Query(DeviceQuery),
    Done(Result<T, Error>),
}

/// `answer` is of the kind that `query` is answered with.
pub open spec fn responds(query: DeviceQuery, answer: DeviceAnswer) -> bool {
    match query {
        DeviceQuery::DefaultInput => answer is DefaultInput,
        DeviceQuery::DeviceList => answer is DeviceList,
        DeviceQuery::Channels(_) => answer is Channels,
        DeviceQuery::Name(_) => answer is Name,
        DeviceQuery::ReadVolume(_) => answer is Volume,
        DeviceQuery::ReadMute(_) => answer is Mute,
        DeviceQuery::WriteVolume(..) => answer is Written,
        DeviceQuery::WriteMute(..) => answer is Written,
    }
}

impl DeviceAnswer {
    /// Whether this answer is of the kind that `query` is answered with.
    pub fn responds(&self, query: &DeviceQuery) -> (b: bool)
        ensures
            b == responds(*query, *self),
    {
        match query {
            DeviceQuery::DefaultInput => matches!(self, DeviceAnswer::DefaultInput(_)),
            DeviceQuery::DeviceList => matches!(self, DeviceAnswer::DeviceList(_)),
            DeviceQuery::Channels(_) => matches!(self, DeviceAnswer::Channels(_)),
            DeviceQuery::Name(_) => matches!(self, DeviceAnswer::Name(_)),
            DeviceQuery::ReadVolume(_) => matches!(self, DeviceAnswer::Volume(_)),
            DeviceQuery::ReadMute(_) => matches!(self, DeviceAnswer::Mute(_)),
            DeviceQuery::WriteVolume(..) => matches!(self, DeviceAnswer::Written(_)),
            DeviceQuery::WriteMute(..) => matches!(self, DeviceAnswer::Written(_)),
        }
    }
}

/// The volume read from a device whose scalar read returned `scalar`: the
/// scalar is clamped to `[0.0, 1.0]`, so only a NaN is out of range.
pub open spec fn volume_result(scalar: Result<u32, Error>) -> Result<u32, Error> {
    match scalar {
        Err(e) => Err(e),
        Ok(bits) => if in_unit_range(clamp_unit_bits(bits)) {
            Ok(clamp_unit_bits(bits))
        } else {
            Err(Error::VolumeOutOfRange(clamp_unit_bits(bits)))
        },
    }
}

/// The device volume from the outcome of [`crate::coreaudio::GetVolumeScalar`].
pub fn get_volume(scalar: Result<u32, Error>) -> (r: Result<Volume, Error>)
    ensures
        match (r, volume_result(scalar)) {
            (Ok(v), Ok(bits)) => v@ == bits,
            (Err(e), Err(f)) => e == f,
            _ => false,
        },
        scalar matches Ok(b) ==> {
            &&& denotes_unit_number(b) ==> (r matches Ok(v) && v@ == b)
            &&& denotes_above_one(b) ==> (r matches Ok(v) && v@ == ONE_BITS)
            &&& denotes_below_zero(b) ==> (r matches Ok(v) && v@ == ZERO_BITS)
            &&& encodes_nan(b) ==> (r matches Err(e) && e == Error::VolumeOutOfRange(b))
        },
{
    proof {
        if scalar is Ok {
            lemma_volume_meaning(scalar->Ok_0);
        }
    }
    match scalar {
        Err(e) => Err(e),
        Ok(bits) => Volume::new(clamp_unit(bits)),
    }
}

/// Reading a volume never fails on range unless the hardware scalar is a
/// NaN, and reading back a scalar that is already in `[0.0, 1.0]` (such as
/// one written by [`set_volume`]) gives that same volume.
pub proof fn lemma_volume_read(bits: u32)
    ensures
        volume_result(Ok(bits)) is Ok <==> !is_nan_bits(bits),
        volume_result(Ok(bits)) matches Ok(b) ==> in_unit_range(b),
        in_unit_range(bits) ==> volume_result(Ok(bits)) == Ok::<u32, Error>(bits),
{
    lemma_clamp_unit_range(bits);
}

/// What reading the volume gives, by the number the hardware scalar
/// denotes: a number in `[0.0, 1.0]` is the volume as it is (so a guard
/// saves exactly the volume it read), a number above `1.0` reads as `1.0`,
/// a number below `0.0` as `0.0`, and a NaN is out of range.
pub proof fn lemma_volume_meaning(bits: u32)
    ensures
        denotes_unit_number(bits) ==> volume_result(Ok(bits)) == Ok::<u32, Error>(bits),
        denotes_above_one(bits) ==> volume_result(Ok(bits)) == Ok::<u32, Error>(ONE_BITS),
        denotes_below_zero(bits) ==> volume_result(Ok(bits)) == Ok::<u32, Error>(ZERO_BITS),
        encodes_nan(bits) ==> volume_result(Ok(bits)) == Err::<u32, Error>(
            Error::VolumeOutOfRange(bits),
        ),
{
    lemma_clamp_meaning(bits);
    lemma_unit_range_meaning(bits);
    lemma_unit_range_meaning(clamp_unit_bits(bits));
}

/// The mute switch value written for a state reads back as that state.
pub proof fn lemma_mute_round_trip(state: MuteState)
    ensures
        mute_state_of(mute_word(state == MuteState::Muted) != 0) == state,
{
}

/// Starts setting the volume of `device` (writes the scalar's encoding).
pub fn set_volume(device: &DeviceId, volume: Volume) -> (r: (SetVolumeScalar, HalRequest))
    ensures
        r.0.value() == volume@,
        r.0.pending() == Some(r.1),
        r.1 == (HalRequest::HasProperty {
            object: device.0,
            address: volume_address(ELEMENT_MASTER),
        }),
{
    set_volume_scalar(device.raw(), volume.to_bits())
}

/// The mute state from the outcome of [`crate::coreaudio::GetMute`].
pub fn get_mute(muted: Result<bool, Error>) -> (r: Result<MuteState, Error>)
    ensures
        r == (match muted {
            Ok(m) => Ok(mute_state_of(m)),
            Err(e) => Err::<MuteState, Error>(e),
        }),
{
    match muted {
        Ok(m) => Ok(MuteState::from_muted(m)),
        Err(e) => Err(e),
    }
}

/// Starts setting the mute state of `device` (on for `Muted`).
pub fn set_mute(device: &DeviceId, state: MuteState) -> (r: (SetMute, HalRequest))
    ensures
        r.0.muted() == (state == MuteState::Muted),
        r.0.pending() == Some(r.1),
        r.1 == (HalRequest::HasProperty { object: device.0, address: mute_address() }),
{
    crate::coreaudio::set_mute(device.raw(), state.is_muted())
}

/// `listed` is a listing of input devices drawn, in order, from the first
/// `bound` identifiers of `ids`: `positions[k]` is where `listed[k]` stands
/// in `ids`, every listed device has at least one input channel, and it is
/// marked default exactly when its identifier is `default`.
pub open spec fn listed_in_order(
    default: Option<u32>,
    ids: Seq<u32>,
    bound: int,
    listed: Seq<DeviceInfo>,
    positions: Seq<int>,
) -> bool {
    &&& 0 <= bound <= ids.len()
    &&& positions.len() == listed.len()
    &&& forall|k: int| 0 <= k < positions.len() ==> 0 <= #[trigger] positions[k] < bound
    &&& forall|j: int, k: int|
        0 <= j < k < positions.len() ==> #[trigger] positions[j] < #[trigger] positions[k]
    &&& forall|k: int|
        0 <= k < listed.len() ==> {
            &&& ids[positions[k]] == (#[trigger] listed[k]).id.0
            &&& listed[k].channels > 0
            &&& listed[k].is_default == (default == Some(listed[k].id.0))
        }
}

/// `listed` is drawn in order from all of `ids` as [`listed_in_order`] says.
pub open spec fn is_input_listing(default: Option<u32>, ids: Seq<u32>, listed: Seq<DeviceInfo>) -> bool {
    exists|positions: Seq<int>| listed_in_order(default, ids, ids.len() as int, listed, positions)
}

/// Where [`InputDevices`] stands.
enum ScanStage {
    Default,
    List { default: Option<u32> },
    Channels {
        default: Option<u32>,
        ids: Vec<u32>,
        index: usize,
        listed: Vec<DeviceInfo>,
        positions: Ghost<Seq<int>>,
    },
    Name {
        default: Option<u32>,
        ids: Vec<u32>,
        index: usize,
        channels: u32,
        listed: Vec<DeviceInfo>,
        positions: Ghost<Seq<int>>,
    },
    Finished,
}

/// Enumerates the audio input devices.
///
/// Asks the default input device (a failure there only means that no device
/// is marked default) and the list of all devices (a failure there is the
/// result). Then, device by device in the order of that list, asks the
/// input channel count; a device whose count cannot be read or is zero is
/// not an input device and is skipped, any other device is listed with its
/// name (`"Unknown"` when the name cannot be read), its channel count, and
/// whether it is the default input device.
pub struct InputDevices {
    stage: ScanStage,
}

impl InputDevices {
    #[verifier::type_invariant]
    closed spec fn inv(self) -> bool {
        match self.stage {
            ScanStage::Channels { default, ids, index, listed, positions } => {
                &&& index < ids@.len()
                &&& listed_in_order(default, ids@, index as int, listed@, positions@)
            },
            ScanStage::Name { default, ids, index, channels, listed, positions } => {
                &&& index < ids@.len()
                &&& channels > 0
                &&& listed_in_order(default, ids@, index as int, listed@, positions@)
            },
            _ => true,
        }
    }

    /// The query whose answer the machine waits for (`None` once finished).
    pub closed spec fn pending(self) -> Option<DeviceQuery> {
        match self.stage {
            ScanStage::Default => Some(DeviceQuery::DefaultInput),
            ScanStage::List { .. } => Some(DeviceQuery::DeviceList),
            ScanStage::Channels { ids, index, .. } => Some(
                DeviceQuery::Channels(DeviceId(ids@[index as int])),
            ),
            ScanStage::Name { ids, index, .. } => Some(
                DeviceQuery::Name(DeviceId(ids@[index as int])),
            ),
            ScanStage::Finished => None,
        }
    }

    /// The default input device, once asked (`None` if there is none).
    pub closed spec fn default_id(self) -> Option<u32> {
        match self.stage {
            ScanStage::List { default } => default,
            ScanStage::Channels { default, .. } => default,
            ScanStage::Name { default, .. } => default,
            _ => None,
        }
    }

    /// The identifiers of all devices, once read.
    pub closed spec fn ids(self) -> Seq<u32> {
        match self.stage {
            ScanStage::Channels { ids, .. } => ids@,
            ScanStage::Name { ids, .. } => ids@,
            _ => Seq::empty(),
        }
    }

    /// How many identifiers have been dealt with.
    pub closed spec fn index(self) -> int {
        match self.stage {
            ScanStage::Channels { index, .. } => index as int,
            ScanStage::Name { index, .. } => index as int,
            _ => 0,
        }
    }

    /// The channel count of the device whose name is being asked.
    pub closed spec fn channels(self) -> u32 {
        match self.stage {
            ScanStage::Name { channels, .. } => channels,
            _ => 0,
        }
    }

    /// The devices listed so far.
    pub closed spec fn listed(self) -> Seq<DeviceInfo> {
        match self.stage {
            ScanStage::Channels { listed, .. } => listed@,
            ScanStage::Name { listed, .. } => listed@,
            _ => Seq::empty(),
        }
    }

    /// After the devices up to `index` of `ids` have been dealt with, with
    /// `listed` listed: either the scan is over and `listed` is the result,
    /// or the channel count of the next device is asked.
    pub open spec fn continues(
        self,
        step: DeviceStep<Vec<DeviceInfo>>,
        default: Option<u32>,
        ids: Seq<u32>,
        index: int,
        listed: Seq<DeviceInfo>,
    ) -> bool {
        if index >= ids.len() {
            &&& step matches DeviceStep::Done(Ok(devices)) && devices@ == listed
            &&& self.pending() is None
        } else {
            let query = DeviceQuery::Channels(DeviceId(ids[index]));
            &&& step == DeviceStep::<Vec<DeviceInfo>>::Query(query)
            &&& self.pending() == Some(query)
            &&& self.default_id() == default
            &&& self.ids() == ids
            &&& self.index() == index
            &&& self.listed() == listed
        }
    }

    /// The devices listed after `step`: its result when it is the final
    /// one, else those listed so far.
    pub open spec fn listing_after(self, step: DeviceStep<Vec<DeviceInfo>>) -> Seq<DeviceInfo> {
        match step {
            DeviceStep::Done(Ok(devices)) => devices@,
            _ => self.listed(),
        }
    }

    fn advance(
        &mut self,
        default: Option<u32>,
        ids: Vec<u32>,
        index: usize,
        listed: Vec<DeviceInfo>,
        positions: Ghost<Seq<int>>,
    ) -> (step: DeviceStep<Vec<DeviceInfo>>)
        requires
            listed_in_order(default, ids@, index as int, listed@, positions@),
        ensures
            final(self).continues(step, default, ids@, index as int, listed@),
            step matches DeviceStep::Done(Ok(devices)) ==> is_input_listing(
                default,
                ids@,
                devices@,
            ),
    {
        if index < ids.len() {
            let id = ids[index];
            self.stage = ScanStage::Channels { default, ids, index, listed, positions };
            DeviceStep::Query(DeviceQuery::Channels(DeviceId(id)))
        } else {
            self.stage = ScanStage::Finished;
            DeviceStep::Done(Ok(listed))
        }
    }

    /// Takes the answer to the pending query.
    pub fn resume(&mut self, answer: DeviceAnswer) -> (step: DeviceStep<Vec<DeviceInfo>>)
        requires
            old(self).pending() matches Some(q) && responds(q, answer),
        ensures
            match (old(self).pending()->Some_0, answer) {
                (DeviceQuery::DefaultInput, DeviceAnswer::DefaultInput(r)) => {
                    &&& step == DeviceStep::<Vec<DeviceInfo>>::Query(DeviceQuery::DeviceList)
                    &&& final(self).pending() == Some(DeviceQuery::DeviceList)
                    &&& final(self).default_id() == (match r {
                        Ok(id) => Some(id),
                        Err(_) => None::<u32>,
                    })
                },
                (DeviceQuery::DeviceList, DeviceAnswer::DeviceList(r)) => match r {
                    Err(e) => {
                        &&& step == DeviceStep::<Vec<DeviceInfo>>::Done(Err(e))
                        &&& final(self).pending() is None
                    },
                    Ok(ids) => final(self).continues(
                        step,
                        old(self).default_id(),
                        ids@,
                        0,
                        Seq::empty(),
                    ),
                },
                (DeviceQuery::Channels(device), DeviceAnswer::Channels(r)) => if r matches Ok(c)
                    && c > 0 {
                    &&& step == DeviceStep::<Vec<DeviceInfo>>::Query(DeviceQuery::Name(device))
                    &&& final(self).pending() == Some(DeviceQuery::Name(device))
                    &&& final(self).channels() == r->Ok_0
                    &&& final(self).default_id() == old(self).default_id()
                    &&& final(self).ids() == old(self).ids()
                    &&& final(self).index() == old(self).index()
                    &&& final(self).listed() == old(self).listed()
                } else {
                    final(self).continues(
                        step,
                        old(self).default_id(),
                        old(self).ids(),
                        old(self).index() + 1,
                        old(self).listed(),
                    )
                },
                (DeviceQuery::Name(device), DeviceAnswer::Name(r)) => {
                    let after = final(self).listing_after(step);
                    let info = after.last();
                    &&& after.len() == old(self).listed().len() + 1
                    &&& after.drop_last() == old(self).listed()
                    &&& info.id == device
                    &&& info.channels == old(self).channels()
                    &&& info.is_default == (old(self).default_id() == Some(device.0))
                    &&& info.name@ == (match r {
                        Ok(n) => n@,
                        Err(_) => unknown_name(),
                    })
                    &&& final(self).continues(
                        step,
                        old(self).default_id(),
                        old(self).ids(),
                        old(self).index() + 1,
                        after,
                    )
                },
                _ => false,
            },
            step matches DeviceStep::Done(Ok(devices)) ==> is_input_listing(
                old(self).default_id(),
                match answer {
                    DeviceAnswer::DeviceList(Ok(ids)) => ids@,
                    _ => old(self).ids(),
                },
                devices@,
            ),
    {
        proof {
            use_type_invariant(&*self);
        }
        let mut stage = ScanStage::Finished;
        std::mem::swap(&mut stage, &mut self.stage);
        match (stage, answer) {
            (ScanStage::Default, DeviceAnswer::DefaultInput(r)) => {
                let default = match r {
                    Ok(id) => Some(id),
                    Err(_) => None,
                };
                self.stage = ScanStage::List { default };
                DeviceStep::Query(DeviceQuery::DeviceList)
            },
            (ScanStage::List { default }, DeviceAnswer::DeviceList(r)) => match r {
                Err(e) => DeviceStep::Done(Err(e)),
                Ok(ids) => self.advance(default, ids, 0, Vec::new(), Ghost(Seq::empty())),
            },
            (ScanStage::Channels { default, ids, index, listed, positions }, DeviceAnswer::Channels(r)) => {
                assert(index < ids.len());
                match r {
                    Ok(c) if c > 0 => {
                        let id = ids[index];
                        self.stage = ScanStage::Name { default, ids, index, channels: c, listed, positions };
                        DeviceStep::Query(DeviceQuery::Name(DeviceId(id)))
                    },
                    _ => self.advance(default, ids, index + 1, listed, positions),
                }
            },
            (
                ScanStage::Name { default, ids, index, channels, mut listed, positions },
                DeviceAnswer::Name(r),
            ) => {
                assert(index < ids.len());
                let id = ids[index];
                let name = match r {
                    Ok(n) => n,
                    Err(_) => unknown_name_string(),
                };
                let is_default = match default {
                    Some(d) => d == id,
                    None => false,
                };
                listed.push(DeviceInfo { id: DeviceId(id), name, channels, is_default });
                self.advance(
                    default,
                    ids,
                    index + 1,
                    listed,
                    Ghost(positions@.push(index as int)),
                )
            },
            _ => {
                proof {
                    assert(false);
                }
                DeviceStep::Done(Err(Error::DeviceNotFound))
            },
        }
    }
}

/// Starts enumerating the input devices ([`InputDevices`]) by asking the
/// default input device.
pub fn input_devices() -> (r: (InputDevices, DeviceQuery))
    ensures
        r.1 == DeviceQuery::DefaultInput,
        r.0.pending() == Some(r.1),
{
    (InputDevices { stage: ScanStage::Default }, DeviceQuery::DefaultInput)
}

/// Where [`DefaultInputDevice`] stands.
enum LookupStage {
    Id,
    Name { id: u32 },
    Channels { id: u32, name: String },
    Finished,
}

/// Describes the default input device: asks its identifier (a failure
/// there is the result), then its name (`"Unknown"` when it cannot be
/// read), then its input channel count (`0` when it cannot be read).
pub struct DefaultInputDevice {
    stage: LookupStage,
}

impl DefaultInputDevice {
    /// The query whose answer the machine waits for (`None` once finished).
    pub closed spec fn pending(self) -> Option<DeviceQuery> {
        match self.stage {
            LookupStage::Id => Some(DeviceQuery::DefaultInput),
            LookupStage::Name { id } => Some(DeviceQuery::Name(DeviceId(id))),
            LookupStage::Channels { id, .. } => Some(DeviceQuery::Channels(DeviceId(id))),
            LookupStage::Finished => None,
        }
    }

    /// The name found for the device, once asked.
    pub closed spec fn name(self) -> Seq<char> {
        match self.stage {
            LookupStage::Channels { name, .. } => name@,
            _ => Seq::empty(),
        }
    }

    /// Takes the answer to the pending query.
    pub fn resume(&mut self, answer: DeviceAnswer) -> (step: DeviceStep<DeviceInfo>)
        requires
            old(self).pending() matches Some(q) && responds(q, answer),
        ensures
            match (old(self).pending()->Some_0, answer) {
                (DeviceQuery::DefaultInput, DeviceAnswer::DefaultInput(r)) => match r {
                    Err(e) => {
                        &&& step == DeviceStep::<DeviceInfo>::Done(Err(e))
                        &&& final(self).pending() is None
                    },
                    Ok(id) => {
                        &&& step == DeviceStep::<DeviceInfo>::Query(DeviceQuery::Name(DeviceId(id)))
                        &&& final(self).pending() == Some(DeviceQuery::Name(DeviceId(id)))
                    },
                },
                (DeviceQuery::Name(device), DeviceAnswer::Name(r)) => {
                    &&& step == DeviceStep::<DeviceInfo>::Query(DeviceQuery::Channels(device))
                    &&& final(self).pending() == Some(DeviceQuery::Channels(device))
                    &&& final(self).name() == (match r {
                        Ok(n) => n@,
                        Err(_) => unknown_name(),
                    })
                },
                (DeviceQuery::Channels(device), DeviceAnswer::Channels(r)) => {
                    &&& step matches DeviceStep::Done(Ok(info)) && {
                        &&& info.id == device
                        &&& info.name@ == old(self).name()
                        &&& info.channels == (match r {
                            Ok(c) => c,
                            Err(_) => 0,
                        })
                        &&& info.is_default
                    }
                    &&& final(self).pending() is None
                },
                _ => false,
            },
    {
        let mut stage = LookupStage::Finished;
        std::mem::swap(&mut stage, &mut self.stage);
        match (stage, answer) {
            (LookupStage::Id, DeviceAnswer::DefaultInput(r)) => match r {
                Err(e) => DeviceStep::Done(Err(e)),
                Ok(id) => {
                    self.stage = LookupStage::Name { id };
                    DeviceStep::Query(DeviceQuery::Name(DeviceId(id)))
                },
            },
            (LookupStage::Name { id }, DeviceAnswer::Name(r)) => {
                let name = match r {
                    Ok(n) => n,
                    Err(_) => unknown_name_string(),
                };
                self.stage = LookupStage::Channels { id, name };
                DeviceStep::Query(DeviceQuery::Channels(DeviceId(id)))
            },
            (LookupStage::Channels { id, name }, DeviceAnswer::Channels(r)) => {
                let channels = match r {
                    Ok(c) => c,
                    Err(_) => 0,
                };
                DeviceStep::Done(Ok(DeviceInfo { id: DeviceId(id), name, channels, is_default: true }))
            },
            _ => {
                proof {
                    assert(false);
                }
                DeviceStep::Done(Err(Error::DeviceNotFound))
            },
        }
    }
}

/// Starts describing the default input device ([`DefaultInputDevice`]) by
/// asking which device it is.
pub fn default_input_device() -> (r: (DefaultInputDevice, DeviceQuery))
    ensures
        r.1 == DeviceQuery::DefaultInput,
        r.0.pending() == Some(r.1),
{
    (DefaultInputDevice { stage: LookupStage::Id }, DeviceQuery::DefaultInput)
}

} // verus!
