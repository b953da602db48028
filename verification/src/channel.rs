//! Sensor-channel bookkeeping: the fixed mapping from logical sensor
//! channels to physical pin numbers, and the error raised when hardware
//! cannot be brought up.

use vstd::prelude::*;

verus! {

/// Raised when a sensor or buzzer cannot be constructed: the channel index
/// is outside the supported range, the pin cannot be claimed, or the
/// digital-I/O / PWM backend is unreachable. Fatal at construction; no
/// runtime error path exists once sampling starts.
#[derive(Clone, Copy, Debug, PartialEq, Eq, Structural)]
pub enum HardwareInitError {
    /// The logical channel index is not one of the supported channels.
    BadChannel,
    /// The mapped pin exists but could not be claimed or armed.
    PinUnavailable,
    /// The hardware backend itself could not be reached.
    BackendUnreachable,
}

/// The physical pin wired to each logical sensor channel.
pub open spec fn spec_pin_for_channel(channel: usize) -> u8 {
    if channel == 1 {
        23
    } else if channel == 2 {
        8
    } else if channel == 3 {
        25
    } else {
        4
    }
}

/// Maps a logical sensor channel (1 to 4) to its physical pin number.
/// Any other index is rejected rather than panicking.
pub fn pin_for_channel(channel: usize) -> (r: Result<u8, HardwareInitError>)
    ensures
        1 <= channel <= 4 ==> r == Ok::<u8, HardwareInitError>(spec_pin_for_channel(channel)),
        !(1 <= channel <= 4) ==> r == Err::<u8, HardwareInitError>(HardwareInitError::BadChannel),
{
    match channel {
        1 => Ok(23),
        2 => Ok(8),
        3 => Ok(25),
        4 => Ok(4),
        _ => Err(HardwareInitError::BadChannel),
    }
}

} // verus!
