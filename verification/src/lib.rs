//! Microphone input-volume control for the CoreAudio hardware abstraction
//! layer (HAL), written as a sans-I/O core.
//!
//! Every decision the library makes (which property to query, the
//! fallback from the master element to channel 1, how a status code turns
//! into an error, which devices count as input devices, how a volume guard
//! saves and restores the hardware gain) lives here and is verified.
//! The calls into CoreAudio themselves are performed by the caller: the
//! state machines in [`coreaudio`], [`manager`] and [`guard`] hand out the
//! next request and take back the reply.
//!
//! Volumes are carried as the IEEE-754 binary32 encoding of the hardware
//! scalar, so that all range checks are exact integer reasoning.

pub mod coreaudio;
pub mod error;
pub mod ffi;
pub mod guard;
pub mod hal;
pub mod manager;
pub mod types;

pub use error::Error;
pub use guard::VolumeGuard;
pub use types::{DeviceId, DeviceInfo, MuteState, Volume};
