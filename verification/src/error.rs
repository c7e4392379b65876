//! The library's error type.

use vstd::prelude::*;

verus! {

/// Everything that can go wrong while talking to an audio device.
#[derive(Debug)]
pub enum Error {
    /// A CoreAudio call returned a non-zero `OSStatus`.
    CoreAudio(i32),
    /// The requested device does not exist.
    DeviceNotFound,
    /// The system has no default input device.
    NoDefaultInputDevice,
    /// A volume scalar outside `[0.0, 1.0]`, given by its binary32 encoding.
    VolumeOutOfRange(u32),
    /// The device lacks the requested control (e.g. no hardware volume).
    NotSupported(String),
}

/// The result type used throughout the library.
pub type Result<T> = core::result::Result<T, Error>;

} // verus!
