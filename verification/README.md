# micvol

Hardware-level microphone volume control for macOS (CoreAudio HAL), with
its decision logic verified in Verus.

Recording with the input volume at 30% uses only 30% of the A/D
converter's range; raising the hardware gain before recording captures the
full dynamic range. `VolumeGuard` does that and restores the previous
volume and mute state afterwards.

## Layout

- `src/` — the verified library, written sans-I/O:
  - `hal.rs`: CoreAudio constants, the HAL requests and replies, `OSStatus` checking;
  - `coreaudio.rs`: the property protocol (default input device, device list,
    names, input channel count, volume scalar with fallback from the master
    element to channel 1, mute switch) as state machines over HAL requests;
  - `manager.rs`: device enumeration and lookup, volume and mute control, as
    state machines over device queries;
  - `guard.rs`: volume guard setup and restore, with its laws;
  - `types.rs`, `error.rs`, `ffi.rs`: the data types, the error type, and the
    C interface's codes and flag encodings.
  Volumes are carried as the IEEE-754 binary32 encoding of the scalar.
- `app/` — the CoreAudio bindings that perform the requests, the public
  blocking API, `VolumeGuard` with `Drop`, the error type with its messages,
  and the `extern "C"` interface.
- `tests/` — scripted conversations with the state machines.
