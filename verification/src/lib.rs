//! Sensing-and-actuation core for a myoelectric prosthetic hand.
//!
//! The crate samples analog sensors (muscle-activity electrodes and
//! force-sensing resistors) through a shared analog-to-digital conversion
//! path, classifies the readings into discrete control intents, drives a
//! multi-channel servo actuator to realize grip postures, and tracks
//! battery health.
//!
//! Bus transactions go through a backend interface ([`bus::AdcBus`],
//! [`bus::ServoLink`]) injected at construction, so a deterministic
//! simulated backend and a real hardware backend can be substituted for
//! one another at run time.

use vstd::prelude::*;

pub mod adc;
pub mod bms;
pub mod bus;
pub mod emg;
pub mod errors;
pub mod fsr;
pub mod maestro;
pub mod manager;

verus! {

/// A named hardware resource that can be brought up with default settings.
pub trait Resource: Sized {
    /// Construct the resource with its default configuration.
    fn init() -> Self;

    /// The resource's registry name.
    fn name() -> String;
}

} // verus!
