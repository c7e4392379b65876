//! The requests the library makes of the CoreAudio HAL and the replies it
//! expects, with the CoreAudio constants the requests are built from.
//!
//! A request names one `AudioObject*` call. Whoever performs it answers
//! with the reply of the matching kind (see [`answers`]).

use crate::error::Error;
use vstd::prelude::*;

verus! {

/// `kAudioObjectSystemObject`.
pub const SYSTEM_OBJECT: u32 = 1;

/// `kAudioObjectUnknown` (`kAudioDeviceUnknown`).
pub const UNKNOWN_OBJECT: u32 = 0;

/// `kAudioHardwarePropertyDefaultInputDevice` (`'dIn '`).
pub const SELECTOR_DEFAULT_INPUT_DEVICE: u32 = 0x6449_6E20;

/// `kAudioHardwarePropertyDevices` (`'dev#'`).
pub const SELECTOR_DEVICES: u32 = 0x6465_7623;

/// `kAudioDevicePropertyDeviceNameCFString` (`'lnam'`).
pub const SELECTOR_DEVICE_NAME: u32 = 0x6C6E_616D;

/// `kAudioDevicePropertyStreamConfiguration` (`'slay'`).
pub const SELECTOR_STREAM_CONFIGURATION: u32 = 0x736C_6179;

/// `kAudioDevicePropertyVolumeScalar` (`'volm'`).
pub const SELECTOR_VOLUME_SCALAR: u32 = 0x766F_6C6D;

/// `kAudioDevicePropertyMute` (`'mute'`).
pub const SELECTOR_MUTE: u32 = 0x6D75_7465;

/// `kAudioObjectPropertyScopeGlobal` (`'glob'`).
pub const SCOPE_GLOBAL: u32 = 0x676C_6F62;

/// `kAudioDevicePropertyScopeInput` (`'inpt'`).
pub const SCOPE_INPUT: u32 = 0x696E_7074;

/// `kAudioObjectPropertyElementMaster` (element 0).
pub const ELEMENT_MASTER: u32 = 0;

/// The first channel's element, the fallback for the volume control.
pub const ELEMENT_CHANNEL_1: u32 = 1;

/// Size in bytes of one `AudioObjectID`.
pub const OBJECT_ID_SIZE: u32 = 4;

/// An `AudioObjectPropertyAddress`.
#[derive(Debug, Clone, Copy, PartialEq, Eq, Structural)]
pub struct PropertyAddress {
    pub selector: u32,
    pub scope: u32,
    pub element: u32,
}

/// One call into the HAL.
#[derive(Debug, Clone, Copy, PartialEq, Eq, Structural)]
pub enum HalRequest {
    /// `AudioObjectHasProperty`.
    HasProperty { object: u32, address: PropertyAddress },
    /// `AudioObjectGetPropertyDataSize`.
    GetDataSize { object: u32, address: PropertyAddress },
    /// `AudioObjectGetPropertyData` for one 32-bit value.
    GetWord { object: u32, address: PropertyAddress },
    /// `AudioObjectGetPropertyData` for an array of `count` 32-bit values.
    GetWords { object: u32, address: PropertyAddress, count: u32 },
    /// `AudioObjectGetPropertyData` for an `AudioBufferList` of `size`
    /// bytes; the reply carries `mNumberChannels` of each buffer.
    GetStreamChannels { object: u32, address: PropertyAddress, size: u32 },
    /// `AudioObjectSetPropertyData` with one 32-bit value.
    SetWord { object: u32, address: PropertyAddress, value: u32 },
}

/// What the HAL answered to a [`HalRequest`].
#[derive(Debug)]
pub enum HalReply {
    /// Answer to `HasProperty`.
    Present(bool),
    /// Answer to `GetDataSize`: the status and the size in bytes.
    DataSize { status: i32, size: u32 },
    /// Answer to `GetWord`: the status and the value read.
    Word { status: i32, value: u32 },
    /// Answer to `GetWords`: the status and the values read (after a
    /// successful call, exactly the requested number of them).
    Words { status: i32, values: Vec<u32> },
    /// Answer to `GetStreamChannels`: the status and the channel count of
    /// each buffer.
    StreamChannels { status: i32, channels: Vec<u32> },
    /// Answer to `SetWord`: the status.
    Status(i32),
}

/// What a state machine wants next: a HAL call, or its final result.
#[derive(Debug)]
pub enum HalStep<T> {
    Call(HalRequest),
    Done(Result<T, Error>),
}

/// `reply` is of the kind that `request` is answered with; a successful
/// read of an array holds as many values as were requested.
pub open spec fn answers(request: HalRequest, reply: HalReply) -> bool {
    match request {
        HalRequest::HasProperty { .. } => reply is Present,
        HalRequest::GetDataSize { .. } => reply is DataSize,
        HalRequest::GetWord { .. } => reply is Word,
        HalRequest::GetWords { count, .. } => reply matches HalReply::Words { status, values }
            && (status != 0 || values@.len() == count),
        HalRequest::GetStreamChannels { .. } => reply is StreamChannels,
        HalRequest::SetWord { .. } => reply is Status,
    }
}

impl HalReply {
    /// Whether this reply is of the kind that `request` is answered with.
    pub fn answers(&self, request: &HalRequest) -> (b: bool)
        ensures
            b == answers(*request, *self),
    {
        match request {
            HalRequest::HasProperty { .. } => matches!(self, HalReply::Present(_)),
            HalRequest::GetDataSize { .. } => matches!(self, HalReply::DataSize { .. }),
            HalRequest::GetWord { .. } => matches!(self, HalReply::Word { .. }),
            HalRequest::GetWords { count, .. } => match self {
                HalReply::Words { status, values } => *status != 0 || values.len() == *count as usize,
                _ => false,
            },
            HalRequest::GetStreamChannels { .. } => matches!(self, HalReply::StreamChannels { .. }),
            HalRequest::SetWord { .. } => matches!(self, HalReply::Status(_)),
        }
    }
}

/// The outcome of an `OSStatus`: success for `0`, `CoreAudio(status)` otherwise.
pub open spec fn status_result(status: i32) -> Result<(), Error> {
    if status == 0 {
        Ok(())
    } else {
        Err(Error::CoreAudio(status))
    }
}

/// `status_result` is what CoreAudio's convention says: only `noErr` (`0`)
/// is success, and every other status is the error `CoreAudio(status)`.
pub proof fn lemma_status_meaning(status: i32)
    ensures
        status_result(status) is Ok <==> status == 0,
        status != 0 ==> status_result(status) == Err::<(), Error>(Error::CoreAudio(status)),
{
}

/// Turns an `OSStatus` into a result.
pub fn check(status: i32) -> (r: Result<(), Error>)
    ensures
        r == status_result(status),
        r is Ok <==> status == 0,
        status != 0 ==> r == Err::<(), Error>(Error::CoreAudio(status)),
{
    if status == 0 {
        Ok(())
    } else {
        Err(Error::CoreAudio(status))
    }
}

} // verus!
