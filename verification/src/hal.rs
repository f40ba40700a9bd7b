//! The capabilities a platform hands to a motor controller: digital output
//! lines, digital input lines and PWM channels.
//!
//! Each output is modelled by the state it was last brought to. The
//! `ensures` clauses below are what a platform binding promises; everything
//! proved about a controller's outputs holds for bindings that keep them. A
//! binding written in unverified code supplies the model functions
//! (`is_set_high`, `duty`) as ordinary methods that return that state.

use vstd::prelude::*;

verus! {

/// One digital output line, such as the enable input of a driver IC.
///
/// The line is modelled by the level it was last driven to. A platform
/// binding promises that a write that reports success has taken effect.
pub trait DigitalOutput {
    /// What the platform reports when a write fails.
    type Error;

    /// The level the line is currently driven to: `true` is high.
    spec fn is_set_high(&self) -> bool;

    /// Drives the line low.
    fn set_low(&mut self) -> (r: Result<(), Self::Error>)
        ensures
            r.is_ok() ==> !final(self).is_set_high(),
    ;

    /// Drives the line high.
    fn set_high(&mut self) -> (r: Result<(), Self::Error>)
        ensures
            r.is_ok() ==> final(self).is_set_high(),
    ;
}

/// One digital input line, such as one phase of a quadrature encoder.
///
/// A sample reflects the outside world at the moment of the call, so
/// nothing is promised about its value.
pub trait DigitalInput {
    /// What the platform reports when a read fails.
    type Error;

    /// Samples the line: `Ok(true)` when it is high.
    fn is_high(&mut self) -> (r: Result<bool, Self::Error>);

    /// Samples the line: `Ok(true)` when it is low.
    fn is_low(&mut self) -> (r: Result<bool, Self::Error>);
}

/// One PWM channel.
///
/// The channel is modelled by the duty cycle it was last set to. A platform
/// binding promises that a write that reports success has taken effect.
/// A controller hands a channel duties up to its own full-scale value,
/// whatever the channel's `max_duty_cycle()` is; to configure a full-scale
/// value that the channel can output is up to whoever builds the controller.
pub trait PwmOutput {
    /// What the platform reports when a write fails.
    type Error;

    /// The duty cycle the channel currently outputs.
    spec fn duty(&self) -> u16;

    /// The duty value that stands for a fully-on output.
    fn max_duty_cycle(&self) -> (m: u16);

    /// Sets the duty cycle of the channel.
    fn set_duty_cycle(&mut self, duty: u16) -> (r: Result<(), Self::Error>)
        ensures
            r.is_ok() ==> final(self).duty() == duty,
    ;
}

} // verus!
