//! Actuation rules: humidity to servo angle and fan relay state.
//!
//! The transducer reports values scaled by ten (one implied decimal
//! digit), so all thresholds here are in tenths: a humidity register of
//! 700 means 70.0 %.  The servo angle is one of three fixed bands with
//! no hysteresis; the fan follows a single 80 % threshold, evaluated as
//! two independent conditions, so a reading of exactly 80.0 % fires
//! neither and the previous state persists.

use vstd::prelude::*;

verus! {

/// Humidity below which the servo aims at 0 degrees, in tenths of a
/// percent.
pub const ANGLE_LOW_TENTHS: u16 = 600;

/// Humidity above which the servo aims at 120 degrees, in tenths of a
/// percent.
pub const ANGLE_HIGH_TENTHS: u16 = 700;

/// Humidity threshold of the fan relay, in tenths of a percent.
pub const FAN_THRESHOLD_TENTHS: u16 = 800;

/// The target servo angle for a humidity reading: 120 degrees above the
/// high band, 0 below the low band, 60 between them, re-evaluated fresh
/// on every successful poll.
pub open spec fn angle_for(humidity_tenths: u16) -> i32 {
    if humidity_tenths > ANGLE_HIGH_TENTHS {
        120
    } else if humidity_tenths < ANGLE_LOW_TENTHS {
        0
    } else {
        60
    }
}

/// The fan state after a humidity reading: on above the threshold, off
/// below it, unchanged at exactly the threshold (both conditions are
/// strict, so neither fires there).
pub open spec fn fan_after(humidity_tenths: u16, previous: bool) -> bool {
    if humidity_tenths > FAN_THRESHOLD_TENTHS {
        true
    } else if humidity_tenths < FAN_THRESHOLD_TENTHS {
        false
    } else {
        previous
    }
}

/// The outputs of the control loop, persisted across polls and mutated
/// only right after a successful humidity read.
#[derive(Clone, Copy, Debug, PartialEq, Eq, Structural)]
pub struct ActuationState {
    /// Target servo angle in degrees: 0, 60 or 120.
    pub target_deg: i32,
    /// Whether the fan relay is commanded on.
    pub fan_on: bool,
}

/// The only angles the banding rule produces.
pub open spec fn banded(state: ActuationState) -> bool {
    state.target_deg == 0 || state.target_deg == 60 || state.target_deg == 120
}

impl ActuationState {
    /// The state before the first successful poll: servo at 0 degrees,
    /// fan off.
    pub fn new() -> (state: Self)
        ensures
            state.target_deg == 0,
            !state.fan_on,
            banded(state),
    {
        ActuationState { target_deg: 0, fan_on: false }
    }

    /// Apply one successful humidity reading, in tenths of a percent:
    /// re-band the servo angle and run the fan threshold rules.
    pub fn update(&mut self, humidity_tenths: u16)
        ensures
            final(self).target_deg == angle_for(humidity_tenths),
            final(self).fan_on == fan_after(humidity_tenths, old(self).fan_on),
            banded(*final(self)),
    {
        self.target_deg = if humidity_tenths > ANGLE_HIGH_TENTHS {
            120
        } else if humidity_tenths < ANGLE_LOW_TENTHS {
            0
        } else {
            60
        };
        if humidity_tenths > FAN_THRESHOLD_TENTHS {
            self.fan_on = true;
        }
        if humidity_tenths < FAN_THRESHOLD_TENTHS {
            self.fan_on = false;
        }
    }

    /// Apply the outcome of one poll tick.  A failed poll hands `None`
    /// and leaves the state exactly as it was: the state always reflects
    /// the most recent successful humidity read, and the next scheduled
    /// poll is the only retry.
    pub fn apply_poll(&mut self, humidity_tenths: Option<u16>)
        ensures
            humidity_tenths matches Some(h) ==> (final(self).target_deg == angle_for(h)
                && final(self).fan_on == fan_after(h, old(self).fan_on) && banded(*final(self))),
            humidity_tenths is None ==> *final(self) == *old(self),
    {
        match humidity_tenths {
            Some(h) => self.update(h),
            None => (),
        }
    }
}

/// The level to drive the relay pin with (`true` for high): the module's
/// polarity is applied here at the boundary, never stored in the state.
pub fn relay_level(fan_on: bool, active_low: bool) -> (high: bool)
    ensures
        high == (fan_on != active_low),
{
    if active_low {
        !fan_on
    } else {
        fan_on
    }
}

/// The signed reinterpretation of a raw 16-bit register: two's
/// complement.
pub open spec fn signed_raw(raw: u16) -> int {
    if raw >= 0x8000 {
        raw - 0x10000
    } else {
        raw as int
    }
}

/// A temperature register in tenths of a degree: reinterpreted as signed
/// when that lands in the plausible range of -40.0 to 125.0 degrees, so
/// negative readings survive the unsigned wire encoding; kept unsigned
/// otherwise.
pub open spec fn temperature_tenths_spec(raw: u16) -> int {
    if -400 <= signed_raw(raw) <= 1250 {
        signed_raw(raw)
    } else {
        raw as int
    }
}

/// Decode a temperature register into tenths of a degree.
pub fn temperature_tenths(raw: u16) -> (tenths: i32)
    ensures
        tenths == temperature_tenths_spec(raw),
{
    let signed: i32 = if raw >= 0x8000 {
        (raw as i32) - 0x10000
    } else {
        raw as i32
    };
    if -400 <= signed && signed <= 1250 {
        signed
    } else {
        raw as i32
    }
}

/// One successful poll of both registers, already scaled: the register
/// values are in tenths, humidity as the wire carries it, temperature
/// after the signed reinterpretation.
#[derive(Clone, Copy, Debug, PartialEq, Eq, Structural)]
pub struct SensorReading {
    /// Relative humidity in tenths of a percent.
    pub humidity_tenths: u16,
    /// Temperature in tenths of a degree, possibly negative.
    pub temperature_tenths: i32,
}

impl SensorReading {
    /// Decode the two raw register words of one poll.
    pub fn from_raw(raw_humidity: u16, raw_temperature: u16) -> (reading: Self)
        ensures
            reading.humidity_tenths == raw_humidity,
            reading.temperature_tenths == temperature_tenths_spec(raw_temperature),
    {
        SensorReading {
            humidity_tenths: raw_humidity,
            temperature_tenths: temperature_tenths(raw_temperature),
        }
    }
}

} // verus!
