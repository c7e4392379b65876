//! The C interface's conventions: status codes and the integer encodings
//! of flags. The exported functions themselves handle raw pointers and
//! live outside the verified library.

use crate::error::Error;
use crate::types::{mute_state_of, MuteState};
use vstd::prelude::*;

verus! {

/// Success.
pub const MICVOL_OK: i32 = 0;

/// A CoreAudio call failed.
pub const MICVOL_ERR_COREAUDIO: i32 = -1;

/// The device was not found.
pub const MICVOL_ERR_DEVICE_NOT_FOUND: i32 = -2;

/// There is no default input device.
pub const MICVOL_ERR_NO_DEFAULT_INPUT: i32 = -3;

/// A volume outside `[0.0, 1.0]`.
pub const MICVOL_ERR_VOLUME_OUT_OF_RANGE: i32 = -4;

/// The device lacks the control.
pub const MICVOL_ERR_NOT_SUPPORTED: i32 = -5;

/// A required pointer argument was null.
pub const MICVOL_ERR_NULL_POINTER: i32 = -6;

/// The status code reported for an error.
pub open spec fn spec_error_code(e: Error) -> i32 {
    match e {
        Error::CoreAudio(_) => MICVOL_ERR_COREAUDIO,
        Error::DeviceNotFound => MICVOL_ERR_DEVICE_NOT_FOUND,
        Error::NoDefaultInputDevice => MICVOL_ERR_NO_DEFAULT_INPUT,
        Error::VolumeOutOfRange(_) => MICVOL_ERR_VOLUME_OUT_OF_RANGE,
        Error::NotSupported(_) => MICVOL_ERR_NOT_SUPPORTED,
    }
}

/// The status code reported for an error.
pub fn error_code(e: &Error) -> (code: i32)
    ensures
        code == spec_error_code(*e),
{
    match e {
        Error::CoreAudio(_) => MICVOL_ERR_COREAUDIO,
        Error::DeviceNotFound => MICVOL_ERR_DEVICE_NOT_FOUND,
        Error::NoDefaultInputDevice => MICVOL_ERR_NO_DEFAULT_INPUT,
        Error::VolumeOutOfRange(_) => MICVOL_ERR_VOLUME_OUT_OF_RANGE,
        Error::NotSupported(_) => MICVOL_ERR_NOT_SUPPORTED,
    }
}

/// Which kind of error `e` is, as a number.
pub open spec fn error_kind(e: Error) -> int {
    match e {
        Error::CoreAudio(_) => 0,
        Error::DeviceNotFound => 1,
        Error::NoDefaultInputDevice => 2,
        Error::VolumeOutOfRange(_) => 3,
        Error::NotSupported(_) => 4,
    }
}

/// Every error is reported with a negative code, distinct from success and
/// from the null-pointer code, and two errors share a code exactly when
/// they are of the same kind.
pub proof fn lemma_error_codes(a: Error, b: Error)
    ensures
        spec_error_code(a) < 0,
        spec_error_code(a) != MICVOL_OK,
        spec_error_code(a) != MICVOL_ERR_NULL_POINTER,
        (spec_error_code(a) == spec_error_code(b)) <==> (error_kind(a) == error_kind(b)),
{
}

/// The mute state for a C flag: any non-zero value means muted.
pub fn mute_state_from_flag(muted: i32) -> (s: MuteState)
    ensures
        s == mute_state_of(muted != 0),
{
    MuteState::from_muted(muted != 0)
}

/// The C flag for a mute state: `1` for muted, `0` for unmuted.
pub fn mute_flag(state: MuteState) -> (flag: i32)
    ensures
        flag == (if state == MuteState::Muted {
            1i32
        } else {
            0i32
        }),
{
    if state.is_muted() {
        1
    } else {
        0
    }
}

/// The C flag for a boolean: `1` for true, `0` for false.
pub fn bool_flag(b: bool) -> (flag: i32)
    ensures
        flag == (if b {
            1i32
        } else {
            0i32
        }),
{
    if b {
        1
    } else {
        0
    }
}

/// Reading back the flag written for a mute state gives that state.
pub proof fn lemma_mute_flag_round_trip(state: MuteState)
    ensures
        mute_state_of((if state == MuteState::Muted {
            1i32
        } else {
            0i32
        }) != 0) == state,
{
}

/// How many of `available` devices fit in a caller's buffer of `capacity`
/// entries.
pub fn copied_count(available: usize, capacity: u32) -> (n: u32)
    ensures
        n as int == (if available < capacity as usize {
            available as int
        } else {
            capacity as int
        }),
        n <= capacity,
        n as int <= available,
{
    if available < capacity as usize {
        available as u32
    } else {
        capacity
    }
}

} // verus!
