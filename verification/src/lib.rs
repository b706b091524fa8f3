//! Core logic of a two-player reaction-time game driven by two push-buttons,
//! three LEDs and a hardware watchdog.
//!
//! The crate verifies the decision logic of the firmware: the debounced
//! edge-detection state machine and its calibration, the shared game state
//! machine, the round engine with its score keeping, and the watchdog
//! fail-safe discipline (periodic feeding, and the deliberate starvation
//! triggered by a long simultaneous press of both buttons).
//!
//! Everything timing- or hardware-dependent is expressed over plain values:
//! instants are milliseconds since boot, a raw input line is a [`signal::RawSignal`]
//! (an initial level and the instants at which the level flips), and lock
//! contention is reported to the long-press monitor as a [`button::ButtonProbe`].
//! The driver that owns the peripherals samples them and hands these values in.

pub mod button;
pub mod common;
pub mod game;
pub mod led;
pub mod monitor;
pub mod round;
pub mod signal;
pub mod watchdog;
