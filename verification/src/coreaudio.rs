//! The CoreAudio property protocol: which properties the library reads and
//! writes, in what order, and how it interprets the answers.
//!
//! Calls that need several HAL round trips are state machines: `start`
//! returns the first request, and `resume` takes the reply to the pending
//! request and returns either the next request or the final result.

use crate::error::Error;
use crate::hal::{
    answers, check, status_result, HalReply, HalRequest, HalStep, PropertyAddress, ELEMENT_CHANNEL_1,
    ELEMENT_MASTER, OBJECT_ID_SIZE, SCOPE_GLOBAL, SCOPE_INPUT, SELECTOR_DEFAULT_INPUT_DEVICE,
    SELECTOR_DEVICES, SELECTOR_DEVICE_NAME, SELECTOR_MUTE, SELECTOR_STREAM_CONFIGURATION,
    SELECTOR_VOLUME_SCALAR, SYSTEM_OBJECT, UNKNOWN_OBJECT,
};
use vstd::prelude::*;

verus! {

/// Address of the system's default input device.
#[verifier::allow_in_spec]
pub fn default_input_address() -> PropertyAddress
    returns
        (PropertyAddress {
            selector: SELECTOR_DEFAULT_INPUT_DEVICE,
            scope: SCOPE_GLOBAL,
            element: ELEMENT_MASTER,
        }),
{
    PropertyAddress {
        selector: SELECTOR_DEFAULT_INPUT_DEVICE,
        scope: SCOPE_GLOBAL,
        element: ELEMENT_MASTER,
    }
}

/// Address of the list of all audio devices.
#[verifier::allow_in_spec]
pub fn devices_address() -> PropertyAddress
    returns
        (PropertyAddress { selector: SELECTOR_DEVICES, scope: SCOPE_GLOBAL, element: ELEMENT_MASTER }),
{
    PropertyAddress { selector: SELECTOR_DEVICES, scope: SCOPE_GLOBAL, element: ELEMENT_MASTER }
}

/// Address of a device's name (a `CFStringRef`).
#[verifier::allow_in_spec]
pub fn device_name_address() -> PropertyAddress
    returns
        (PropertyAddress {
            selector: SELECTOR_DEVICE_NAME,
            scope: SCOPE_GLOBAL,
            element: ELEMENT_MASTER,
        }),
{
    PropertyAddress { selector: SELECTOR_DEVICE_NAME, scope: SCOPE_GLOBAL, element: ELEMENT_MASTER }
}

/// Address of a device's input stream configuration (an `AudioBufferList`).
#[verifier::allow_in_spec]
pub fn stream_configuration_address() -> PropertyAddress
    returns
        (PropertyAddress {
            selector: SELECTOR_STREAM_CONFIGURATION,
            scope: SCOPE_INPUT,
            element: 0,
        }),
{
    PropertyAddress { selector: SELECTOR_STREAM_CONFIGURATION, scope: SCOPE_INPUT, element: 0 }
}

/// Address of the input volume scalar of `element`.
#[verifier::allow_in_spec]
pub fn volume_address(element: u32) -> PropertyAddress
    returns
        (PropertyAddress { selector: SELECTOR_VOLUME_SCALAR, scope: SCOPE_INPUT, element }),
{
    PropertyAddress { selector: SELECTOR_VOLUME_SCALAR, scope: SCOPE_INPUT, element }
}

/// Address of the input mute switch of the master element.
#[verifier::allow_in_spec]
pub fn mute_address() -> PropertyAddress
    returns
        (PropertyAddress { selector: SELECTOR_MUTE, scope: SCOPE_INPUT, element: ELEMENT_MASTER }),
{
    PropertyAddress { selector: SELECTOR_MUTE, scope: SCOPE_INPUT, element: ELEMENT_MASTER }
}

/// The name given to a device whose name cannot be read.
pub open spec fn unknown_name() -> Seq<char> {
    "Unknown"@
}

/// A fresh `"Unknown"`.
pub fn unknown_name_string() -> (s: String)
    ensures
        s@ == unknown_name(),
{
    String::from_str("Unknown")
}

/// Message of the error for a device without a volume control.
pub open spec fn no_volume_control_message() -> Seq<char> {
    "device has no volume control"@
}

/// The error for a device without a volume control.
pub fn no_volume_control() -> (e: Error)
    ensures
        e matches Error::NotSupported(m) && m@ == no_volume_control_message(),
{
    Error::NotSupported(String::from_str("device has no volume control"))
}

/// The single request behind [`default_input_device_id`].
pub fn default_input_request() -> (r: HalRequest)
    ensures
        r == (HalRequest::GetWord { object: SYSTEM_OBJECT, address: default_input_address() }),
{
    HalRequest::GetWord { object: SYSTEM_OBJECT, address: default_input_address() }
}

/// The default input device from the answer `(status, device_id)` to
/// [`default_input_request`]: a failed call is a `CoreAudio` error, and
/// `kAudioDeviceUnknown` means there is no default input device.
pub fn default_input_device_id(status: i32, device_id: u32) -> (r: Result<u32, Error>)
    ensures
        status != 0 ==> r == Err::<u32, Error>(Error::CoreAudio(status)),
        status == 0 && device_id == UNKNOWN_OBJECT ==> r == Err::<u32, Error>(
            Error::NoDefaultInputDevice,
        ),
        status == 0 && device_id != UNKNOWN_OBJECT ==> r == Ok::<u32, Error>(device_id),
{
    match check(status) {
        Err(e) => Err(e),
        Ok(()) => {
            if device_id == UNKNOWN_OBJECT {
                Err(Error::NoDefaultInputDevice)
            } else {
                Ok(device_id)
            }
        },
    }
}

/// A device's name from the answer to a read of [`device_name_address`]:
/// the status, and the string it returned (`None` for a null string).
pub fn device_name(status: i32, name: Option<String>) -> (r: Result<String, Error>)
    ensures
        status != 0 ==> r == Err::<String, Error>(Error::CoreAudio(status)),
        status == 0 ==> r is Ok,
        status == 0 ==> (r matches Ok(s) && s@ == (match name {
            Some(n) => n@,
            None => unknown_name(),
        })),
{
    match check(status) {
        Err(e) => Err(e),
        Ok(()) => match name {
            Some(n) => Ok(n),
            None => Ok(unknown_name_string()),
        },
    }
}

/// Where [`AllDeviceIds`] stands.
#[derive(Debug, Clone, Copy)]
enum DeviceListStage {
    Sizing,
    Reading { count: u32 },
    Finished,
}

/// Lists the identifiers of all audio devices: asks the size of the device
/// list, and reads it unless it is empty.
#[derive(Debug)]
pub struct AllDeviceIds {
    stage: DeviceListStage,
}

impl AllDeviceIds {
    /// The request whose reply the machine waits for (`None` once finished).
    pub closed spec fn pending(self) -> Option<HalRequest> {
        match self.stage {
            DeviceListStage::Sizing => Some(
                HalRequest::GetDataSize { object: SYSTEM_OBJECT, address: devices_address() },
            ),
            DeviceListStage::Reading { count } => Some(
                HalRequest::GetWords { object: SYSTEM_OBJECT, address: devices_address(), count },
            ),
            DeviceListStage::Finished => None,
        }
    }

    /// Takes the reply to the pending request. A failed size query is a
    /// `CoreAudio` error; a list of fewer than one identifier is empty
    /// without a read; otherwise the `size / 4` identifiers are read.
    pub fn resume(&mut self, reply: HalReply) -> (step: HalStep<Vec<u32>>)
        requires
            old(self).pending() matches Some(req) && answers(req, reply),
        ensures
            match (old(self).pending()->Some_0, reply) {
                (HalRequest::GetDataSize { .. }, HalReply::DataSize { status, size }) => if status
                    != 0 {
                    &&& step == HalStep::<Vec<u32>>::Done(Err(Error::CoreAudio(status)))
                    &&& final(self).pending() is None
                } else if size / OBJECT_ID_SIZE == 0 {
                    &&& step matches HalStep::Done(Ok(ids)) && ids@ == Seq::<u32>::empty()
                    &&& final(self).pending() is None
                } else {
                    let req = HalRequest::GetWords {
                        object: SYSTEM_OBJECT,
                        address: devices_address(),
                        count: size / OBJECT_ID_SIZE,
                    };
                    &&& step == HalStep::<Vec<u32>>::Call(req)
                    &&& final(self).pending() == Some(req)
                },
                (HalRequest::GetWords { count, .. }, HalReply::Words { status, values }) => {
                    &&& step == (if status != 0 {
                        HalStep::<Vec<u32>>::Done(Err(Error::CoreAudio(status)))
                    } else {
                        HalStep::<Vec<u32>>::Done(Ok(values))
                    })
                    &&& status == 0 ==> values@.len() == count
                    &&& final(self).pending() is None
                },
                _ => false,
            },
    {
        match (self.stage, reply) {
            (DeviceListStage::Sizing, HalReply::DataSize { status, size }) => {
                if status != 0 {
                    self.stage = DeviceListStage::Finished;
                    return HalStep::Done(Err(Error::CoreAudio(status)));
                }
                let count = size / OBJECT_ID_SIZE;
                if count == 0 {
                    self.stage = DeviceListStage::Finished;
                    HalStep::Done(Ok(Vec::new()))
                } else {
                    self.stage = DeviceListStage::Reading { count };
                    HalStep::Call(
                        HalRequest::GetWords { object: SYSTEM_OBJECT, address: devices_address(), count },
                    )
                }
            },
            (DeviceListStage::Reading { .. }, HalReply::Words { status, values }) => {
                self.stage = DeviceListStage::Finished;
                if status != 0 {
                    HalStep::Done(Err(Error::CoreAudio(status)))
                } else {
                    HalStep::Done(Ok(values))
                }
            },
            _ => {
                proof {
                    assert(false);
                }
                HalStep::Done(Err(Error::DeviceNotFound))
            },
        }
    }
}

/// Starts listing all devices ([`AllDeviceIds`]) by asking the size of
/// the device list.
pub fn all_device_ids() -> (r: (AllDeviceIds, HalRequest))
    ensures
        r.1 == (HalRequest::GetDataSize { object: SYSTEM_OBJECT, address: devices_address() }),
        r.0.pending() == Some(r.1),
{
    (
        AllDeviceIds { stage: DeviceListStage::Sizing },
        HalRequest::GetDataSize { object: SYSTEM_OBJECT, address: devices_address() },
    )
}

/// Total number of channels over all buffers of a stream configuration.
pub open spec fn channel_total(channels: Seq<u32>) -> nat
    decreases channels.len(),
{
    if channels.len() == 0 {
        0
    } else {
        channel_total(channels.drop_last()) + channels.last() as nat
    }
}

/// `channel_total` is the plain sum of the buffers' channel counts: no
/// buffers have no channels, and one more buffer adds its channel count.
pub proof fn lemma_channel_total_sum(channels: Seq<u32>, c: u32)
    ensures
        channel_total(Seq::<u32>::empty()) == 0,
        channel_total(channels.push(c)) == channel_total(channels) + c,
        channel_total(seq![c]) == c,
{
    assert(channels.push(c).drop_last() =~= channels);
    assert(seq![c].drop_last() =~= Seq::<u32>::empty());
}

/// The total over a prefix never exceeds the total over the whole.
pub proof fn lemma_channel_total_prefix(channels: Seq<u32>, i: int)
    requires
        0 <= i <= channels.len(),
    ensures
        channel_total(channels.take(i)) <= channel_total(channels),
    decreases channels.len(),
{
    if i < channels.len() {
        assert(channels.drop_last().take(i) =~= channels.take(i));
        lemma_channel_total_prefix(channels.drop_last(), i);
    } else {
        assert(channels.take(i) =~= channels);
    }
}

/// Whether the channel counts add up to at most `u32::MAX`.
pub fn channel_total_fits(channels: &Vec<u32>) -> (b: bool)
    ensures
        b == (channel_total(channels@) <= u32::MAX),
{
    let mut total: u64 = 0;
    let mut i: usize = 0;
    while i < channels.len()
        invariant
            i <= channels.len(),
            total == channel_total(channels@.take(i as int)),
            total <= u32::MAX,
        decreases channels.len() - i,
    {
        assert(channels@.take(i as int + 1).drop_last() =~= channels@.take(i as int));
        total = total + channels[i] as u64;
        if total > u32::MAX as u64 {
            proof {
                lemma_channel_total_prefix(channels@, i as int + 1);
            }
            return false;
        }
        i = i + 1;
    }
    assert(channels@.take(i as int) =~= channels@);
    true
}

/// Sums the channel counts of the buffers of a stream configuration.
pub fn total_channels(channels: &Vec<u32>) -> (total: u32)
    requires
        channel_total(channels@) <= u32::MAX,
    ensures
        total == channel_total(channels@),
{
    let mut total: u32 = 0;
    let mut i: usize = 0;
    while i < channels.len()
        invariant
            i <= channels.len(),
            total == channel_total(channels@.take(i as int)),
            channel_total(channels@) <= u32::MAX,
        decreases channels.len() - i,
    {
        assert(channels@.take(i as int + 1).drop_last() =~= channels@.take(i as int));
        proof {
            lemma_channel_total_prefix(channels@, i as int + 1);
        }
        total = total + channels[i];
        i = i + 1;
    }
    assert(channels@.take(i as int) =~= channels@);
    total
}

/// Where [`InputChannelCount`] stands.
#[derive(Debug, Clone, Copy)]
enum ChannelCountStage {
    Sizing,
    Reading { size: u32 },
    Finished,
}

/// Counts the input channels of a device: asks the size of its input
/// stream configuration, and reads it unless it is empty.
#[derive(Debug)]
pub struct InputChannelCount {
    device: u32,
    stage: ChannelCountStage,
}

impl InputChannelCount {
    /// The device whose channels are counted.
    pub closed spec fn device(self) -> u32 {
        self.device
    }

    /// The request whose reply the machine waits for (`None` once finished).
    pub closed spec fn pending(self) -> Option<HalRequest> {
        match self.stage {
            ChannelCountStage::Sizing => Some(
                HalRequest::GetDataSize {
                    object: self.device,
                    address: stream_configuration_address(),
                },
            ),
            ChannelCountStage::Reading { size } => Some(
                HalRequest::GetStreamChannels {
                    object: self.device,
                    address: stream_configuration_address(),
                    size,
                },
            ),
            ChannelCountStage::Finished => None,
        }
    }

    /// Takes the reply to the pending request: failed calls are `CoreAudio`
    /// errors, an empty configuration has no channels, and otherwise the
    /// result is the sum of the buffers' channel counts.
    pub fn resume(&mut self, reply: HalReply) -> (step: HalStep<u32>)
        requires
            old(self).pending() matches Some(req) && answers(req, reply),
            reply matches HalReply::StreamChannels { channels, .. } ==> channel_total(channels@)
                <= u32::MAX,
        ensures
            match (old(self).pending()->Some_0, reply) {
                (HalRequest::GetDataSize { .. }, HalReply::DataSize { status, size }) => if status
                    != 0 {
                    &&& step == HalStep::<u32>::Done(Err(Error::CoreAudio(status)))
                    &&& final(self).pending() is None
                } else if size == 0 {
                    &&& step == HalStep::<u32>::Done(Ok(0))
                    &&& final(self).pending() is None
                } else {
                    let req = HalRequest::GetStreamChannels {
                        object: old(self).device(),
                        address: stream_configuration_address(),
                        size,
                    };
                    &&& step == HalStep::<u32>::Call(req)
                    &&& final(self).pending() == Some(req)
                },
                (HalRequest::GetStreamChannels { .. }, HalReply::StreamChannels { status, channels }) => {
                    &&& step == (if status != 0 {
                        HalStep::<u32>::Done(Err(Error::CoreAudio(status)))
                    } else {
                        HalStep::<u32>::Done(Ok(channel_total(channels@) as u32))
                    })
                    &&& final(self).pending() is None
                },
                _ => false,
            },
    {
        match (self.stage, reply) {
            (ChannelCountStage::Sizing, HalReply::DataSize { status, size }) => {
                if status != 0 {
                    self.stage = ChannelCountStage::Finished;
                    HalStep::Done(Err(Error::CoreAudio(status)))
                } else if size == 0 {
                    self.stage = ChannelCountStage::Finished;
                    HalStep::Done(Ok(0))
                } else {
                    self.stage = ChannelCountStage::Reading { size };
                    HalStep::Call(
                        HalRequest::GetStreamChannels {
                            object: self.device,
                            address: stream_configuration_address(),
                            size,
                        },
                    )
                }
            },
            (ChannelCountStage::Reading { .. }, HalReply::StreamChannels { status, channels }) => {
                self.stage = ChannelCountStage::Finished;
                if status != 0 {
                    HalStep::Done(Err(Error::CoreAudio(status)))
                } else {
                    HalStep::Done(Ok(total_channels(&channels)))
                }
            },
            _ => {
                proof {
                    assert(false);
                }
                HalStep::Done(Err(Error::DeviceNotFound))
            },
        }
    }
}

/// Starts counting the input channels of `device` ([`InputChannelCount`])
/// by asking the size of its input stream configuration.
pub fn input_channel_count(device: u32) -> (r: (InputChannelCount, HalRequest))
    ensures
        r.1 == (HalRequest::GetDataSize {
            object: device,
            address: stream_configuration_address(),
        }),
        r.0.pending() == Some(r.1),
        r.0.device() == device,
{
    (
        InputChannelCount { device, stage: ChannelCountStage::Sizing },
        HalRequest::GetDataSize { object: device, address: stream_configuration_address() },
    )
}

/// Where a volume or mute machine stands: probing for the control on the
/// master element, probing channel 1, or accessing the found element.
#[derive(Debug, Clone, Copy)]
enum ProbeStage {
    Master,
    Channel1,
    Access { element: u32 },
    Finished,
}

/// Reads the input volume scalar (as its binary32 encoding): from the
/// master element when it has a volume control, else from channel 1 when
/// that has one, else fails with `NotSupported`.
#[derive(Debug)]
pub struct GetVolumeScalar {
    device: u32,
    stage: ProbeStage,
}

impl GetVolumeScalar {
    /// The request whose reply the machine waits for (`None` once finished).
    pub closed spec fn pending(self) -> Option<HalRequest> {
        match self.stage {
            ProbeStage::Master => Some(
                HalRequest::HasProperty {
                    object: self.device,
                    address: volume_address(ELEMENT_MASTER),
                },
            ),
            ProbeStage::Channel1 => Some(
                HalRequest::HasProperty {
                    object: self.device,
                    address: volume_address(ELEMENT_CHANNEL_1),
                },
            ),
            ProbeStage::Access { element } => Some(
                HalRequest::GetWord { object: self.device, address: volume_address(element) },
            ),
            ProbeStage::Finished => None,
        }
    }

    /// Takes the reply to the pending request.
    pub fn resume(&mut self, reply: HalReply) -> (step: HalStep<u32>)
        requires
            old(self).pending() matches Some(req) && answers(req, reply),
        ensures
            match (old(self).pending()->Some_0, reply) {
                (HalRequest::HasProperty { object, address }, HalReply::Present(present)) => if present {
                    let req = HalRequest::GetWord { object, address };
                    &&& step == HalStep::<u32>::Call(req)
                    &&& final(self).pending() == Some(req)
                } else if address.element == ELEMENT_MASTER {
                    let req = HalRequest::HasProperty {
                        object,
                        address: volume_address(ELEMENT_CHANNEL_1),
                    };
                    &&& step == HalStep::<u32>::Call(req)
                    &&& final(self).pending() == Some(req)
                } else {
                    &&& step matches HalStep::Done(Err(Error::NotSupported(m)))
                        && m@ == no_volume_control_message()
                    &&& final(self).pending() is None
                },
                (HalRequest::GetWord { .. }, HalReply::Word { status, value }) => {
                    &&& step == (if status != 0 {
                        HalStep::<u32>::Done(Err(Error::CoreAudio(status)))
                    } else {
                        HalStep::<u32>::Done(Ok(value))
                    })
                    &&& final(self).pending() is None
                },
                _ => false,
            },
    {
        match (self.stage, reply) {
            (ProbeStage::Master, HalReply::Present(present)) => {
                if present {
                    self.stage = ProbeStage::Access { element: ELEMENT_MASTER };
                    HalStep::Call(
                        HalRequest::GetWord {
                            object: self.device,
                            address: volume_address(ELEMENT_MASTER),
                        },
                    )
                } else {
                    self.stage = ProbeStage::Channel1;
                    HalStep::Call(
                        HalRequest::HasProperty {
                            object: self.device,
                            address: volume_address(ELEMENT_CHANNEL_1),
                        },
                    )
                }
            },
            (ProbeStage::Channel1, HalReply::Present(present)) => {
                if present {
                    self.stage = ProbeStage::Access { element: ELEMENT_CHANNEL_1 };
                    HalStep::Call(
                        HalRequest::GetWord {
                            object: self.device,
                            address: volume_address(ELEMENT_CHANNEL_1),
                        },
                    )
                } else {
                    self.stage = ProbeStage::Finished;
                    HalStep::Done(Err(no_volume_control()))
                }
            },
            (ProbeStage::Access { .. }, HalReply::Word { status, value }) => {
                self.stage = ProbeStage::Finished;
                if status != 0 {
                    HalStep::Done(Err(Error::CoreAudio(status)))
                } else {
                    HalStep::Done(Ok(value))
                }
            },
            _ => {
                proof {
                    assert(false);
                }
                HalStep::Done(Err(Error::DeviceNotFound))
            },
        }
    }
}

/// Starts reading the volume scalar of `device` ([`GetVolumeScalar`]) by
/// asking whether its master element has a volume control.
pub fn get_volume_scalar(device: u32) -> (r: (GetVolumeScalar, HalRequest))
    ensures
        r.1 == (HalRequest::HasProperty {
            object: device,
            address: volume_address(ELEMENT_MASTER),
        }),
        r.0.pending() == Some(r.1),
{
    (
        GetVolumeScalar { device, stage: ProbeStage::Master },
        HalRequest::HasProperty { object: device, address: volume_address(ELEMENT_MASTER) },
    )
}

/// Writes the input volume scalar (given by its binary32 encoding): to the
/// master element when it has a volume control, else to channel 1 when
/// that has one, else fails with `NotSupported`.
#[derive(Debug)]
pub struct SetVolumeScalar {
    device: u32,
    value: u32,
    stage: ProbeStage,
}

impl SetVolumeScalar {
    /// The request whose reply the machine waits for (`None` once finished).
    pub closed spec fn pending(self) -> Option<HalRequest> {
        match self.stage {
            ProbeStage::Master => Some(
                HalRequest::HasProperty {
                    object: self.device,
                    address: volume_address(ELEMENT_MASTER),
                },
            ),
            ProbeStage::Channel1 => Some(
                HalRequest::HasProperty {
                    object: self.device,
                    address: volume_address(ELEMENT_CHANNEL_1),
                },
            ),
            ProbeStage::Access { element } => Some(
                HalRequest::SetWord {
                    object: self.device,
                    address: volume_address(element),
                    value: self.value,
                },
            ),
            ProbeStage::Finished => None,
        }
    }

    /// The encoding that the machine writes.
    pub closed spec fn value(self) -> u32 {
        self.value
    }

    /// Takes the reply to the pending request.
    pub fn resume(&mut self, reply: HalReply) -> (step: HalStep<()>)
        requires
            old(self).pending() matches Some(req) && answers(req, reply),
        ensures
            final(self).value() == old(self).value(),
            match (old(self).pending()->Some_0, reply) {
                (HalRequest::HasProperty { object, address }, HalReply::Present(present)) => if present {
                    let req = HalRequest::SetWord { object, address, value: old(self).value() };
                    &&& step == HalStep::<()>::Call(req)
                    &&& final(self).pending() == Some(req)
                } else if address.element == ELEMENT_MASTER {
                    let req = HalRequest::HasProperty {
                        object,
                        address: volume_address(ELEMENT_CHANNEL_1),
                    };
                    &&& step == HalStep::<()>::Call(req)
                    &&& final(self).pending() == Some(req)
                } else {
                    &&& step matches HalStep::Done(Err(Error::NotSupported(m)))
                        && m@ == no_volume_control_message()
                    &&& final(self).pending() is None
                },
                (HalRequest::SetWord { .. }, HalReply::Status(status)) => {
                    &&& step == HalStep::<()>::Done(status_result(status))
                    &&& final(self).pending() is None
                },
                _ => false,
            },
    {
        match (self.stage, reply) {
            (ProbeStage::Master, HalReply::Present(present)) => {
                if present {
                    self.stage = ProbeStage::Access { element: ELEMENT_MASTER };
                    HalStep::Call(
                        HalRequest::SetWord {
                            object: self.device,
                            address: volume_address(ELEMENT_MASTER),
                            value: self.value,
                        },
                    )
                } else {
                    self.stage = ProbeStage::Channel1;
                    HalStep::Call(
                        HalRequest::HasProperty {
                            object: self.device,
                            address: volume_address(ELEMENT_CHANNEL_1),
                        },
                    )
                }
            },
            (ProbeStage::Channel1, HalReply::Present(present)) => {
                if present {
                    self.stage = ProbeStage::Access { element: ELEMENT_CHANNEL_1 };
                    HalStep::Call(
                        HalRequest::SetWord {
                            object: self.device,
                            address: volume_address(ELEMENT_CHANNEL_1),
                            value: self.value,
                        },
                    )
                } else {
                    self.stage = ProbeStage::Finished;
                    HalStep::Done(Err(no_volume_control()))
                }
            },
            (ProbeStage::Access { .. }, HalReply::Status(status)) => {
                self.stage = ProbeStage::Finished;
                HalStep::Done(check(status))
            },
            _ => {
                proof {
                    assert(false);
                }
                HalStep::Done(Err(Error::DeviceNotFound))
            },
        }
    }
}

/// Starts writing `value` as the volume scalar of `device`
/// ([`SetVolumeScalar`]) by asking whether its master element has a volume
/// control.
pub fn set_volume_scalar(device: u32, value: u32) -> (r: (SetVolumeScalar, HalRequest))
    ensures
        r.1 == (HalRequest::HasProperty {
            object: device,
            address: volume_address(ELEMENT_MASTER),
        }),
        r.0.pending() == Some(r.1),
        r.0.value() == value,
{
    (
        SetVolumeScalar { device, value, stage: ProbeStage::Master },
        HalRequest::HasProperty { object: device, address: volume_address(ELEMENT_MASTER) },
    )
}

/// Reads whether the input is muted. A device without a mute control on
/// its master element counts as not muted; otherwise any non-zero value of
/// the control means muted.
#[derive(Debug)]
pub struct GetMute {
    device: u32,
    stage: ProbeStage,
}

impl GetMute {
    /// The request whose reply the machine waits for (`None` once finished).
    pub closed spec fn pending(self) -> Option<HalRequest> {
        match self.stage {
            ProbeStage::Master => Some(
                HalRequest::HasProperty { object: self.device, address: mute_address() },
            ),
            ProbeStage::Access { .. } => Some(
                HalRequest::GetWord { object: self.device, address: mute_address() },
            ),
            _ => None,
        }
    }

    /// Takes the reply to the pending request.
    pub fn resume(&mut self, reply: HalReply) -> (step: HalStep<bool>)
        requires
            old(self).pending() matches Some(req) && answers(req, reply),
        ensures
            match (old(self).pending()->Some_0, reply) {
                (HalRequest::HasProperty { object, address }, HalReply::Present(present)) => if present {
                    let req = HalRequest::GetWord { object, address };
                    &&& step == HalStep::<bool>::Call(req)
                    &&& final(self).pending() == Some(req)
                } else {
                    &&& step == HalStep::<bool>::Done(Ok(false))
                    &&& final(self).pending() is None
                },
                (HalRequest::GetWord { .. }, HalReply::Word { status, value }) => {
                    &&& step == (if status != 0 {
                        HalStep::<bool>::Done(Err(Error::CoreAudio(status)))
                    } else {
                        HalStep::<bool>::Done(Ok(value != 0))
                    })
                    &&& final(self).pending() is None
                },
                _ => false,
            },
    {
        match (self.stage, reply) {
            (ProbeStage::Master, HalReply::Present(present)) => {
                if present {
                    self.stage = ProbeStage::Access { element: ELEMENT_MASTER };
                    HalStep::Call(HalRequest::GetWord { object: self.device, address: mute_address() })
                } else {
                    self.stage = ProbeStage::Finished;
                    HalStep::Done(Ok(false))
                }
            },
            (ProbeStage::Access { .. }, HalReply::Word { status, value }) => {
                self.stage = ProbeStage::Finished;
                if status != 0 {
                    HalStep::Done(Err(Error::CoreAudio(status)))
                } else {
                    HalStep::Done(Ok(value != 0))
                }
            },
            _ => {
                proof {
                    assert(false);
                }
                HalStep::Done(Err(Error::DeviceNotFound))
            },
        }
    }
}

/// Starts reading the mute switch of `device` ([`GetMute`]) by asking
/// whether it has one.
pub fn get_mute(device: u32) -> (r: (GetMute, HalRequest))
    ensures
        r.1 == (HalRequest::HasProperty { object: device, address: mute_address() }),
        r.0.pending() == Some(r.1),
{
    (
        GetMute { device, stage: ProbeStage::Master },
        HalRequest::HasProperty { object: device, address: mute_address() },
    )
}

/// The value written to the mute control: `1` for muted, `0` otherwise.
pub open spec fn mute_word(muted: bool) -> u32 {
    if muted {
        1
    } else {
        0
    }
}

/// Sets whether the input is muted. A device without a mute control on its
/// master element is left alone and the call succeeds.
#[derive(Debug)]
pub struct SetMute {
    device: u32,
    muted: bool,
    stage: ProbeStage,
}

impl SetMute {
    /// The request whose reply the machine waits for (`None` once finished).
    pub closed spec fn pending(self) -> Option<HalRequest> {
        match self.stage {
            ProbeStage::Master => Some(
                HalRequest::HasProperty { object: self.device, address: mute_address() },
            ),
            ProbeStage::Access { .. } => Some(
                HalRequest::SetWord {
                    object: self.device,
                    address: mute_address(),
                    value: mute_word(self.muted),
                },
            ),
            _ => None,
        }
    }

    /// Whether the machine mutes or unmutes.
    pub closed spec fn muted(self) -> bool {
        self.muted
    }

    /// Takes the reply to the pending request.
    pub fn resume(&mut self, reply: HalReply) -> (step: HalStep<()>)
        requires
            old(self).pending() matches Some(req) && answers(req, reply),
        ensures
            final(self).muted() == old(self).muted(),
            match (old(self).pending()->Some_0, reply) {
                (HalRequest::HasProperty { object, address }, HalReply::Present(present)) => if present {
                    let req = HalRequest::SetWord {
                        object,
                        address,
                        value: mute_word(old(self).muted()),
                    };
                    &&& step == HalStep::<()>::Call(req)
                    &&& final(self).pending() == Some(req)
                } else {
                    &&& step == HalStep::<()>::Done(Ok(()))
                    &&& final(self).pending() is None
                },
                (HalRequest::SetWord { .. }, HalReply::Status(status)) => {
                    &&& step == HalStep::<()>::Done(status_result(status))
                    &&& final(self).pending() is None
                },
                _ => false,
            },
    {
        match (self.stage, reply) {
            (ProbeStage::Master, HalReply::Present(present)) => {
                if present {
                    self.stage = ProbeStage::Access { element: ELEMENT_MASTER };
                    let value: u32 = if self.muted {
                        1
                    } else {
                        0
                    };
                    HalStep::Call(
                        HalRequest::SetWord { object: self.device, address: mute_address(), value },
                    )
                } else {
                    self.stage = ProbeStage::Finished;
                    HalStep::Done(Ok(()))
                }
            },
            (ProbeStage::Access { .. }, HalReply::Status(status)) => {
                self.stage = ProbeStage::Finished;
                HalStep::Done(check(status))
            },
            _ => {
                proof {
                    assert(false);
                }
                HalStep::Done(Err(Error::DeviceNotFound))
            },
        }
    }
}

/// Starts setting the mute switch of `device` ([`SetMute`]) by asking
/// whether it has one.
pub fn set_mute(device: u32, muted: bool) -> (r: (SetMute, HalRequest))
    ensures
        r.1 == (HalRequest::HasProperty { object: device, address: mute_address() }),
        r.0.pending() == Some(r.1),
        r.0.muted() == muted,
{
    (
        SetMute { device, muted, stage: ProbeStage::Master },
        HalRequest::HasProperty { object: device, address: mute_address() },
    )
}

} // verus!
