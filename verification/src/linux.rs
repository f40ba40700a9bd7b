//! A PWM channel handle for Linux boards, addressed the way the sysfs PWM
//! interface addresses channels: by chip and channel number.

use vstd::prelude::*;
use crate::hal::PwmOutput;

verus! {

/// The error type of the Linux bindings.
#[derive(Debug)]
pub struct LinuxError;

/// A PWM channel addressed by chip and channel number. The handle keeps
/// the duty it was last set to and accepts every duty; it drives no
/// hardware by itself.
pub struct PwmWrapper {
    chip: u32,
    number: u32,
    max_duty: u16,
    duty: u16,
}

impl PwmWrapper {
    /// The chip the channel belongs to.
    pub closed spec fn spec_chip(&self) -> u32 {
        self.chip
    }

    /// The number of the channel on its chip.
    pub closed spec fn spec_number(&self) -> u32 {
        self.number
    }

    /// The duty value that stands for a fully-on output.
    pub closed spec fn spec_max_duty(&self) -> u16 {
        self.max_duty
    }

    /// A handle for channel `number` of `chip`, at duty zero.
    pub fn new(chip: u32, number: u32, max_duty: u16) -> (p: Self)
        ensures
            p.spec_chip() == chip,
            p.spec_number() == number,
            p.spec_max_duty() == max_duty,
            p.duty() == 0,
    {
        PwmWrapper { chip, number, max_duty, duty: 0 }
    }

    /// The chip the channel belongs to.
    pub fn chip(&self) -> (c: u32)
        ensures
            c == self.spec_chip(),
    {
        self.chip
    }

    /// The number of the channel on its chip.
    pub fn number(&self) -> (n: u32)
        ensures
            n == self.spec_number(),
    {
        self.number
    }

    /// The duty the channel was last set to.
    pub fn current_duty(&self) -> (d: u16)
        ensures
            d == self.duty(),
    {
        self.duty
    }
}

impl PwmOutput for PwmWrapper {
    type Error = LinuxError;

    closed spec fn duty(&self) -> u16 {
        self.duty
    }

    fn max_duty_cycle(&self) -> (m: u16)
        ensures
            m == self.spec_max_duty(),
    {
        self.max_duty
    }

    fn set_duty_cycle(&mut self, duty: u16) -> (r: Result<(), LinuxError>)
        ensures
            r is Ok,
            final(self).spec_chip() == old(self).spec_chip(),
            final(self).spec_number() == old(self).spec_number(),
            final(self).spec_max_duty() == old(self).spec_max_duty(),
    {
        self.duty = duty;
        Ok(())
    }
}

} // verus!
