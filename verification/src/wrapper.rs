//! A motor controller over an explicitly tagged set of outputs: no, one or
//! two enable lines and no, one or two PWM channels.

use vstd::prelude::*;
use crate::command::{DriverView, MotorCommand, MotorDirection};
use crate::error::{gpio_outcome, pwm_outcome, MotorDriverError};
use crate::hal::{DigitalOutput, PwmOutput};

verus! {

/// The enable lines of a bridge: none, one, or one per half-bridge.
pub enum EnablePins<E1, E2> {
    /// The driver has no enable input and is always active.
    Absent,
    /// One line enables the whole bridge.
    Single(E1),
    /// One line per half-bridge.
    Dual(E1, E2),
}

/// The PWM channels of a bridge: none, one, or one per direction.
pub enum PwmChannels<C1, C2> {
    /// A digital-only driver.
    Absent,
    /// One channel sets the speed; the direction is realised elsewhere.
    Single(C1),
    /// The primary channel drives forward, the secondary drives reverse.
    Dual(C1, C2),
}

impl<E1: DigitalOutput, E2: DigitalOutput> EnablePins<E1, E2> {
    /// The level of each line, primary first.
    pub open spec fn levels(&self) -> Seq<bool> {
        match self {
            EnablePins::Absent => Seq::<bool>::empty(),
            EnablePins::Single(pin) => seq![pin.is_set_high()],
            EnablePins::Dual(pin1, pin2) => seq![pin1.is_set_high(), pin2.is_set_high()],
        }
    }
}

impl<C1: PwmOutput, C2: PwmOutput> PwmChannels<C1, C2> {
    /// The duty of each channel, primary first.
    pub open spec fn duties(&self) -> Seq<u16> {
        match self {
            PwmChannels::Absent => Seq::<u16>::empty(),
            PwmChannels::Single(pwm) => seq![pwm.duty()],
            PwmChannels::Dual(pwm1, pwm2) => seq![pwm1.duty(), pwm2.duty()],
        }
    }
}

/// A motor controller over an explicitly tagged set of enable lines and PWM
/// channels.
pub struct MotorDriverWrapper<E1, E2, C1, C2> {
    enable_pins: EnablePins<E1, E2>,
    pwm_channels: PwmChannels<C1, C2>,
    command: MotorCommand,
    ppr: i16,
}

impl<E1: DigitalOutput, E2: DigitalOutput, C1: PwmOutput, C2: PwmOutput> View for MotorDriverWrapper<E1, E2, C1, C2> {
    type V = DriverView;

    closed spec fn view(&self) -> DriverView {
        DriverView {
            command: self.command,
            enable_levels: self.enable_pins.levels(),
            pwm_duties: self.pwm_channels.duties(),
        }
    }
}

impl<E1: DigitalOutput, E2: DigitalOutput, C1: PwmOutput, C2: PwmOutput> MotorDriverWrapper<E1, E2, C1, C2> {
    /// The configured pulses per revolution; 0 means unconfigured.
    pub closed spec fn ppr(&self) -> i16 {
        self.ppr
    }

    /// The state invariant of the commanded state.
    pub open spec fn wf(&self) -> bool {
        self@.command.wf()
    }

    /// An empty builder.
    pub fn builder() -> (b: MotorDriverBuilder<E1, E2, C1, C2>)
        ensures
            b == MotorDriverBuilder::<E1, E2, C1, C2>::spec_new(),
    {
        MotorDriverBuilder::new()
    }

    /// Drives every enable line high (`enable`) or low. Stops at the first
    /// line that fails.
    fn control_enable(&mut self, enable: bool) -> (r: Result<(), MotorDriverError>)
        ensures
            final(self)@ == (DriverView { enable_levels: final(self)@.enable_levels, ..old(self)@ }),
            final(self).ppr() == old(self).ppr(),
            crate::command::lines_driven(old(self)@.enable_levels, final(self)@.enable_levels, enable, r),
    {
        match &mut self.enable_pins {
            EnablePins::Absent => {
                assert(old(self)@.enable_levels =~= crate::command::uniform_levels(0, enable));
                Ok(())
            },
            EnablePins::Single(pin) => {
                let written = if enable {
                    pin.set_high()
                } else {
                    pin.set_low()
                };
                let r = gpio_outcome(written);
                assert(r is Ok ==> seq![pin.is_set_high()] =~= crate::command::uniform_levels(1, enable));
                assert(r is Err ==> crate::command::broke_off_at(
                    old(self)@.enable_levels,
                    seq![pin.is_set_high()],
                    crate::command::uniform_levels(1, enable),
                    0,
                ));
                r
            },
            EnablePins::Dual(pin1, pin2) => {
                let first = if enable {
                    pin1.set_high()
                } else {
                    pin1.set_low()
                };
                if first.is_err() {
                    assert(crate::command::broke_off_at(
                        old(self)@.enable_levels,
                        seq![pin1.is_set_high(), pin2.is_set_high()],
                        crate::command::uniform_levels(2, enable),
                        0,
                    ));
                    return Err(MotorDriverError::GpioError);
                }
                let second = if enable {
                    pin2.set_high()
                } else {
                    pin2.set_low()
                };
                let r = gpio_outcome(second);
                assert(r is Ok ==> seq![pin1.is_set_high(), pin2.is_set_high()]
                    =~= crate::command::uniform_levels(2, enable));
                assert(r is Err ==> crate::command::broke_off_at(
                    old(self)@.enable_levels,
                    seq![pin1.is_set_high(), pin2.is_set_high()],
                    crate::command::uniform_levels(2, enable),
                    1,
                ));
                r
            },
        }
    }

    /// Writes to the PWM channels the duties that realise the commanded
    /// state. Stops at the first channel that fails.
    fn update_pwm(&mut self) -> (r: Result<(), MotorDriverError>)
        ensures
            final(self)@ == (DriverView { pwm_duties: final(self)@.pwm_duties, ..old(self)@ }),
            final(self).ppr() == old(self).ppr(),
            crate::command::duties_written(
                old(self)@.pwm_duties,
                final(self)@.pwm_duties,
                old(self)@.command.spec_duties(old(self)@.pwm_duties.len()),
                r,
            ),
    {
        let command = self.command;
        match &mut self.pwm_channels {
            PwmChannels::Absent => {
                assert(old(self)@.pwm_duties =~= command.spec_duties(0));
                Ok(())
            },
            PwmChannels::Single(pwm) => {
                let r = pwm_outcome(pwm.set_duty_cycle(command.single_duty()));
                assert(r is Ok ==> seq![pwm.duty()] =~= command.spec_duties(1));
                assert(r is Err ==> crate::command::broke_off_at(
                    old(self)@.pwm_duties,
                    seq![pwm.duty()],
                    command.spec_duties(1),
                    0,
                ));
                r
            },
            PwmChannels::Dual(pwm1, pwm2) => {
                let (primary, secondary) = command.dual_duties();
                if pwm1.set_duty_cycle(primary).is_err() {
                    assert(crate::command::broke_off_at(
                        old(self)@.pwm_duties,
                        seq![pwm1.duty(), pwm2.duty()],
                        command.spec_duties(2),
                        0,
                    ));
                    return Err(MotorDriverError::PwmError);
                }
                let r = pwm_outcome(pwm2.set_duty_cycle(secondary));
                assert(r is Ok ==> seq![pwm1.duty(), pwm2.duty()] =~= command.spec_duties(2));
                assert(r is Err ==> crate::command::broke_off_at(
                    old(self)@.pwm_duties,
                    seq![pwm1.duty(), pwm2.duty()],
                    command.spec_duties(2),
                    1,
                ));
                r
            },
        }
    }

    /// Sets every PWM channel to zero. Stops at the first channel that fails.
    fn silence_pwm(&mut self) -> (r: Result<(), MotorDriverError>)
        ensures
            final(self)@ == (DriverView { pwm_duties: final(self)@.pwm_duties, ..old(self)@ }),
            final(self).ppr() == old(self).ppr(),
            crate::command::duties_written(
                old(self)@.pwm_duties,
                final(self)@.pwm_duties,
                crate::command::zero_duties(old(self)@.pwm_duties.len()),
                r,
            ),
    {
        match &mut self.pwm_channels {
            PwmChannels::Absent => {
                assert(old(self)@.pwm_duties =~= crate::command::zero_duties(0));
                Ok(())
            },
            PwmChannels::Single(pwm) => {
                let r = pwm_outcome(pwm.set_duty_cycle(0));
                assert(r is Ok ==> seq![pwm.duty()] =~= crate::command::zero_duties(1));
                assert(r is Err ==> crate::command::broke_off_at(
                    old(self)@.pwm_duties,
                    seq![pwm.duty()],
                    crate::command::zero_duties(1),
                    0,
                ));
                r
            },
            PwmChannels::Dual(pwm1, pwm2) => {
                if pwm1.set_duty_cycle(0).is_err() {
                    assert(crate::command::broke_off_at(
                        old(self)@.pwm_duties,
                        seq![pwm1.duty(), pwm2.duty()],
                        crate::command::zero_duties(2),
                        0,
                    ));
                    return Err(MotorDriverError::PwmError);
                }
                let r = pwm_outcome(pwm2.set_duty_cycle(0));
                assert(r is Ok ==> seq![pwm1.duty(), pwm2.duty()] =~= crate::command::zero_duties(2));
                assert(r is Err ==> crate::command::broke_off_at(
                    old(self)@.pwm_duties,
                    seq![pwm1.duty(), pwm2.duty()],
                    crate::command::zero_duties(2),
                    1,
                ));
                r
            },
        }
    }

    /// Brings the outputs to their safe state, whatever they were before:
    /// every enable line low, every PWM channel at zero. Only then does the
    /// controller count as initialized.
    pub fn initialize(&mut self) -> (r: Result<(), MotorDriverError>)
        ensures
            final(self).ppr() == old(self).ppr(),
            crate::command::initialize_outcome(old(self)@, final(self)@, r),
    {
        self.control_enable(false)?;
        self.silence_pwm()?;
        self.command.initialized = true;
        Ok(())
    }

    /// Commands a signed speed: positive is forward, negative is reverse,
    /// and zero keeps the direction. Refused with `NotInitialized` before
    /// `initialize()` and with `InvalidSpeed` when the magnitude exceeds
    /// `max_duty`.
    pub fn set_speed(&mut self, speed: i16) -> (r: Result<(), MotorDriverError>)
        ensures
            final(self).ppr() == old(self).ppr(),
            crate::command::command_outcome(
                old(self)@,
                final(self)@,
                old(self)@.command.speed_refusal(speed),
                old(self)@.command.with_speed(speed),
                r,
            ),
    {
        self.command.set_speed(speed)?;
        self.update_pwm()
    }

    /// Commands forward or reverse without touching the speed.
    pub fn set_direction(&mut self, forward: bool) -> (r: Result<(), MotorDriverError>)
        ensures
            final(self).ppr() == old(self).ppr(),
            crate::command::command_outcome(
                old(self)@,
                final(self)@,
                old(self)@.command.init_refusal(),
                old(self)@.command.with_direction(forward),
                r,
            ),
    {
        self.command.set_direction(forward)?;
        self.update_pwm()
    }

    /// Lets the motor coast: speed zero, every channel at zero.
    pub fn stop(&mut self) -> (r: Result<(), MotorDriverError>)
        ensures
            final(self).ppr() == old(self).ppr(),
            crate::command::command_outcome(
                old(self)@,
                final(self)@,
                old(self)@.command.init_refusal(),
                old(self)@.command.halted(MotorDirection::Coast),
                r,
            ),
    {
        self.command.halt(MotorDirection::Coast)?;
        self.update_pwm()
    }

    /// Brakes the motor: speed zero, and with two channels both fully on.
    /// A single channel cannot brake and is set to zero.
    pub fn brake(&mut self) -> (r: Result<(), MotorDriverError>)
        ensures
            final(self).ppr() == old(self).ppr(),
            crate::command::command_outcome(
                old(self)@,
                final(self)@,
                old(self)@.command.init_refusal(),
                old(self)@.command.halted(MotorDirection::Brake),
                r,
            ),
    {
        self.command.halt(MotorDirection::Brake)?;
        self.update_pwm()
    }

    /// Drives every enable line high. With no enable line this succeeds
    /// and does nothing.
    pub fn enable(&mut self) -> (r: Result<(), MotorDriverError>)
        ensures
            final(self).ppr() == old(self).ppr(),
            crate::command::switch_outcome(old(self)@, final(self)@, true, r),
    {
        self.command.require_initialized()?;
        self.control_enable(true)
    }

    /// Drives every enable line low. With no enable line this succeeds
    /// and does nothing.
    pub fn disable(&mut self) -> (r: Result<(), MotorDriverError>)
        ensures
            final(self).ppr() == old(self).ppr(),
            crate::command::switch_outcome(old(self)@, final(self)@, false, r),
    {
        self.command.require_initialized()?;
        self.control_enable(false)
    }

    /// The commanded speed.
    pub fn get_speed(&self) -> (r: Result<i16, MotorDriverError>)
        ensures
            r == self@.command.spec_get_speed(),
    {
        self.command.get_speed()
    }

    /// Whether the commanded direction is forward.
    pub fn get_direction(&self) -> (r: Result<bool, MotorDriverError>)
        ensures
            r == self@.command.spec_get_direction(),
    {
        self.command.get_direction()
    }

    /// The motor current in milliamperes. No current sensor is attached,
    /// so this always fails with `HardwareFault`.
    pub fn get_current(&self) -> (r: Result<i32, MotorDriverError>)
        ensures
            r == Err::<i32, MotorDriverError>(MotorDriverError::HardwareFault),
    {
        Err(MotorDriverError::HardwareFault)
    }

    /// The supply voltage in millivolts. No voltage sensor is attached,
    /// so this always fails with `HardwareFault`.
    pub fn get_voltage(&self) -> (r: Result<i32, MotorDriverError>)
        ensures
            r == Err::<i32, MotorDriverError>(MotorDriverError::HardwareFault),
    {
        Err(MotorDriverError::HardwareFault)
    }

    /// The driver temperature in thousandths of a degree Celsius. No
    /// temperature sensor is attached, so this always fails with
    /// `HardwareFault`.
    pub fn get_temperature(&self) -> (r: Result<i32, MotorDriverError>)
        ensures
            r == Err::<i32, MotorDriverError>(MotorDriverError::HardwareFault),
    {
        Err(MotorDriverError::HardwareFault)
    }

    /// The fault byte: 0, no fault, once initialized.
    pub fn get_fault_status(&self) -> (r: Result<u8, MotorDriverError>)
        ensures
            r == self@.command.spec_get_fault_status(),
    {
        self.command.get_fault_status()
    }

    /// Configures the pulses per revolution. Refused with `NotInitialized`
    /// before `initialize()` and with `InvalidSpeed` unless `ppr` is positive.
    pub fn set_ppr(&mut self, ppr: i16) -> (r: Result<bool, MotorDriverError>)
        ensures
            final(self)@ == old(self)@,
            !old(self)@.command.initialized ==> r == Err::<bool, MotorDriverError>(
                MotorDriverError::NotInitialized,
            ) && final(self).ppr() == old(self).ppr(),
            old(self)@.command.initialized && ppr <= 0 ==> r == Err::<bool, MotorDriverError>(
                MotorDriverError::InvalidSpeed,
            ) && final(self).ppr() == old(self).ppr(),
            old(self)@.command.initialized && ppr > 0 ==> r == Ok::<bool, MotorDriverError>(true)
                && final(self).ppr() == ppr,
    {
        if !self.command.initialized {
            return Err(MotorDriverError::NotInitialized);
        }
        if ppr <= 0 {
            return Err(MotorDriverError::InvalidSpeed);
        }
        self.ppr = ppr;
        Ok(true)
    }

    /// Checks the position against the target. This controller has no
    /// encoder to read, so once a pulses-per-revolution value is configured
    /// the check fails with `HardwareFault`; before that it fails with
    /// `NotInitialized`. Nothing changes.
    pub fn check_ppr(&mut self) -> (r: Result<(), MotorDriverError>)
        ensures
            final(self)@ == old(self)@,
            final(self).ppr() == old(self).ppr(),
            old(self).ppr() == 0 ==> r == Err::<(), MotorDriverError>(MotorDriverError::NotInitialized),
            old(self).ppr() != 0 ==> r == Err::<(), MotorDriverError>(MotorDriverError::HardwareFault),
    {
        if self.ppr == 0 {
            return Err(MotorDriverError::NotInitialized);
        }
        Err(MotorDriverError::HardwareFault)
    }
}

/// Collects the parts and settings of a `MotorDriverWrapper`. Whatever is
/// not set takes its default at `build()`: no enable line, no PWM channel,
/// a full-scale duty of 1000, speed 0, direction `Coast`, and no
/// pulses-per-revolution value.
pub struct MotorDriverBuilder<E1, E2, C1, C2> {
    /// The enable lines, once set.
    pub enable_pins: Option<EnablePins<E1, E2>>,
    /// The PWM channels, once set.
    pub pwm_channels: Option<PwmChannels<C1, C2>>,
    /// The duty value that stands for full speed, once set.
    pub max_duty: Option<u16>,
    /// The speed the controller starts with, once set.
    pub initial_speed: Option<i16>,
    /// The direction the controller starts with, once set.
    pub initial_direction: Option<MotorDirection>,
    /// The pulses per revolution, once set.
    pub ppr: Option<i16>,
}

impl<E1, E2, C1, C2> MotorDriverBuilder<E1, E2, C1, C2> {
    /// The builder with nothing set.
    pub open spec fn spec_new() -> Self {
        MotorDriverBuilder {
            enable_pins: None,
            pwm_channels: None,
            max_duty: None,
            initial_speed: None,
            initial_direction: None,
            ppr: None,
        }
    }

    /// A builder with nothing set.
    pub fn new() -> (b: Self)
        ensures
            b == Self::spec_new(),
    {
        MotorDriverBuilder {
            enable_pins: None,
            pwm_channels: None,
            max_duty: None,
            initial_speed: None,
            initial_direction: None,
            ppr: None,
        }
    }

    /// Uses one enable line for the whole bridge.
    pub fn with_single_enable(self, enable: E1) -> (b: Self)
        ensures
            b == (MotorDriverBuilder { enable_pins: Some(EnablePins::Single(enable)), ..self }),
    {
        let mut b = self;
        b.enable_pins = Some(EnablePins::Single(enable));
        b
    }

    /// Uses one enable line per half-bridge.
    pub fn with_dual_enable(self, enable1: E1, enable2: E2) -> (b: Self)
        ensures
            b == (MotorDriverBuilder { enable_pins: Some(EnablePins::Dual(enable1, enable2)), ..self }),
    {
        let mut b = self;
        b.enable_pins = Some(EnablePins::Dual(enable1, enable2));
        b
    }

    /// Uses one PWM channel.
    pub fn with_single_pwm(self, pwm: C1) -> (b: Self)
        ensures
            b == (MotorDriverBuilder { pwm_channels: Some(PwmChannels::Single(pwm)), ..self }),
    {
        let mut b = self;
        b.pwm_channels = Some(PwmChannels::Single(pwm));
        b
    }

    /// Uses one PWM channel per direction.
    pub fn with_dual_pwm(self, pwm1: C1, pwm2: C2) -> (b: Self)
        ensures
            b == (MotorDriverBuilder { pwm_channels: Some(PwmChannels::Dual(pwm1, pwm2)), ..self }),
    {
        let mut b = self;
        b.pwm_channels = Some(PwmChannels::Dual(pwm1, pwm2));
        b
    }

    /// Uses the given set of enable lines.
    pub fn with_enable_pins(self, pins: EnablePins<E1, E2>) -> (b: Self)
        ensures
            b == (MotorDriverBuilder { enable_pins: Some(pins), ..self }),
    {
        let mut b = self;
        b.enable_pins = Some(pins);
        b
    }

    /// Uses the given set of PWM channels.
    pub fn with_pwm_channels(self, channels: PwmChannels<C1, C2>) -> (b: Self)
        ensures
            b == (MotorDriverBuilder { pwm_channels: Some(channels), ..self }),
    {
        let mut b = self;
        b.pwm_channels = Some(channels);
        b
    }

    /// Sets the duty value that stands for full speed.
    pub fn with_max_duty(self, max_duty: u16) -> (b: Self)
        ensures
            b == (MotorDriverBuilder { max_duty: Some(max_duty), ..self }),
    {
        let mut b = self;
        b.max_duty = Some(max_duty);
        b
    }

    /// Sets the speed the controller starts with.
    pub fn with_initial_speed(self, speed: i16) -> (b: Self)
        ensures
            b == (MotorDriverBuilder { initial_speed: Some(speed), ..self }),
    {
        let mut b = self;
        b.initial_speed = Some(speed);
        b
    }

    /// Sets the direction the controller starts with.
    pub fn with_initial_direction(self, direction: MotorDirection) -> (b: Self)
        ensures
            b == (MotorDriverBuilder { initial_direction: Some(direction), ..self }),
    {
        let mut b = self;
        b.initial_direction = Some(direction);
        b
    }

    /// Sets the pulses per revolution.
    pub fn with_ppr(self, ppr: i16) -> (b: Self)
        ensures
            b == (MotorDriverBuilder { ppr: Some(ppr), ..self }),
    {
        let mut b = self;
        b.ppr = Some(ppr);
        b
    }
}

impl<E1: DigitalOutput, E2: DigitalOutput, C1: PwmOutput, C2: PwmOutput> MotorDriverBuilder<E1, E2, C1, C2> {
    /// The commanded state a controller built from this builder starts in.
    pub open spec fn initial_command(&self) -> MotorCommand {
        MotorCommand {
            max_duty: match self.max_duty {
                Some(m) => m,
                None => 1000,
            },
            current_speed: match self.initial_speed {
                Some(s) => s,
                None => 0,
            },
            direction: match self.initial_direction {
                Some(d) => d,
                None => MotorDirection::Coast,
            },
            initialized: false,
        }
    }

    /// What a controller built from this builder shows: the initial
    /// command, and the outputs as they were handed in.
    pub open spec fn built_view(&self) -> DriverView {
        DriverView {
            command: self.initial_command(),
            enable_levels: match self.enable_pins {
                Some(pins) => pins.levels(),
                None => Seq::<bool>::empty(),
            },
            pwm_duties: match self.pwm_channels {
                Some(channels) => channels.duties(),
                None => Seq::<u16>::empty(),
            },
        }
    }

    /// The pulses per revolution a controller built from this builder has.
    pub open spec fn built_ppr(&self) -> i16 {
        match self.ppr {
            Some(p) => p,
            None => 0,
        }
    }

    /// Builds the controller, not yet initialized. The outputs are not
    /// touched.
    pub fn build(self) -> (w: MotorDriverWrapper<E1, E2, C1, C2>)
        ensures
            w@ == self.built_view(),
            w.ppr() == self.built_ppr(),
            w.wf() <==> self.initial_command().wf(),
    {
        let enable_pins = match self.enable_pins {
            Some(pins) => pins,
            None => EnablePins::Absent,
        };
        let pwm_channels = match self.pwm_channels {
            Some(channels) => channels,
            None => PwmChannels::Absent,
        };
        let max_duty = match self.max_duty {
            Some(m) => m,
            None => 1000,
        };
        let initial_speed = match self.initial_speed {
            Some(s) => s,
            None => 0,
        };
        let direction = match self.initial_direction {
            Some(d) => d,
            None => MotorDirection::Coast,
        };
        let ppr = match self.ppr {
            Some(p) => p,
            None => 0,
        };
        MotorDriverWrapper {
            enable_pins,
            pwm_channels,
            command: MotorCommand::new(max_duty, initial_speed, direction),
            ppr,
        }
    }

    /// Builds the controller and initializes it. On failure the controller
    /// is dropped and the error of `initialize()` is returned.
    pub fn build_and_init(self) -> (r: Result<MotorDriverWrapper<E1, E2, C1, C2>, MotorDriverError>)
        ensures
            match r {
                Ok(w) => w.ppr() == self.built_ppr() && crate::command::initialize_outcome(
                    self.built_view(),
                    w@,
                    Ok::<(), MotorDriverError>(()),
                ),
                Err(e) => exists|after: DriverView|
                    crate::command::initialize_outcome(
                        self.built_view(),
                        after,
                        Err::<(), MotorDriverError>(e),
                    ),
            },
    {
        let mut driver = self.build();
        match driver.initialize() {
            Ok(_) => Ok(driver),
            Err(e) => Err(e),
        }
    }
}

impl<E1, E2, C1, C2> Default for MotorDriverBuilder<E1, E2, C1, C2> {
    fn default() -> (b: Self)
        ensures
            b == Self::spec_new(),
    {
        MotorDriverBuilder::new()
    }
}

} // verus!
