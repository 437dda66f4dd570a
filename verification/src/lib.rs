//! Core logic of a Modbus RTU humidity/temperature control loop.
//!
//! A master polls a humidity/temperature transducer over a half-duplex
//! RS-485 link, validates the reply frame, and turns the reading into a
//! servo angle and a fan relay state; the servo is driven by a software
//! PWM signal.  Everything that can be stated over plain values lives
//! here: CRC16 checksums, request framing, response capture decisions,
//! response validation and decoding, the actuation rules, and the pulse
//! arithmetic.  Board peripherals (UART, GPIO, the monotonic clock) stay
//! with the caller, which feeds bytes and elapsed times in and takes
//! frames and pin levels out.

pub mod control;
pub mod crc;
pub mod frame;
pub mod pwm;
pub mod reader;
pub mod response;
