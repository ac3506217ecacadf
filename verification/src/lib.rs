//! Actuation core for a stepper-driven electronic expansion valve (EEV).
//!
//! The engine in [`eev`] positions the valve by issuing discrete stepper
//! pulses, converting between a caller-facing percentage-open value and an
//! absolute pulse count bounded by a configured travel range. Hardware
//! capabilities (the stepper driver and the pacing timer) are traits in
//! [`hal`], supplied by the embedding platform; [`sim`] holds software
//! implementations of them for testing.

pub mod eev;
pub mod hal;
pub mod percent;
pub mod sim;

pub use eev::Eev;
pub use hal::{ActuationError, Delay, MovementDirection, Stepper};
pub use percent::Percent;
