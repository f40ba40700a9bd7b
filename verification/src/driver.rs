//! The H-bridge motor controller: one or two enable lines, one or two PWM
//! channels, and optionally a quadrature encoder.

use vstd::prelude::*;
use crate::command::{DriverView, MotorCommand, MotorDirection};
use crate::encoder::{Level, NoEncoder, QuadratureDecoder};
use crate::error::{gpio_outcome, pwm_outcome, sample_outcome, MotorDriverError};
use crate::hal::{DigitalInput, DigitalOutput, PwmOutput};

verus! {

/// A motor controller for an H-bridge with one or two enable lines, one or
/// two PWM channels, and optionally a quadrature encoder.
pub struct HBridgeMotorDriver<E1, E2, C1, C2, Enc1, Enc2> {
    enable1: E1,
    enable2: Option<E2>,
    pwm1: C1,
    pwm2: Option<C2>,
    encoder1: Option<Enc1>,
    encoder2: Option<Enc2>,
    command: MotorCommand,
    decoder: QuadratureDecoder,
}

/// The levels of a primary enable line and an optional secondary one.
pub open spec fn levels_of<E1: DigitalOutput, E2: DigitalOutput>(
    enable1: E1,
    enable2: Option<E2>,
) -> Seq<bool> {
    match enable2 {
        Some(second) => seq![enable1.is_set_high(), second.is_set_high()],
        None => seq![enable1.is_set_high()],
    }
}

/// The duties of a primary PWM channel and an optional secondary one.
pub open spec fn duties_of<C1: PwmOutput, C2: PwmOutput>(pwm1: C1, pwm2: Option<C2>) -> Seq<u16> {
    match pwm2 {
        Some(second) => seq![pwm1.duty(), second.duty()],
        None => seq![pwm1.duty()],
    }
}

impl<E1, E2, C1, C2, Enc1, Enc2> View for HBridgeMotorDriver<E1, E2, C1, C2, Enc1, Enc2> where
    E1: DigitalOutput,
    E2: DigitalOutput,
    C1: PwmOutput,
    C2: PwmOutput,
    Enc1: DigitalInput,
    Enc2: DigitalInput,
 {
    type V = DriverView;

    closed spec fn view(&self) -> DriverView {
        DriverView {
            command: self.command,
            enable_levels: levels_of(self.enable1, self.enable2),
            pwm_duties: duties_of(self.pwm1, self.pwm2),
        }
    }
}

impl<E1, E2, C1, C2, Enc1, Enc2> HBridgeMotorDriver<E1, E2, C1, C2, Enc1, Enc2> where
    E1: DigitalOutput,
    E2: DigitalOutput,
    C1: PwmOutput,
    C2: PwmOutput,
    Enc1: DigitalInput,
    Enc2: DigitalInput,
 {
    /// The state of the quadrature decoder.
    pub closed spec fn decoder(&self) -> QuadratureDecoder {
        self.decoder
    }

    /// Whether both encoder lines are present.
    pub closed spec fn has_encoder(&self) -> bool {
        self.encoder1 is Some && self.encoder2 is Some
    }

    /// The state invariant of the commanded state.
    pub open spec fn wf(&self) -> bool {
        self@.command.wf()
    }

    /// Whether the encoder side of `self` is that of `before`: the decoder
    /// state is the same, and the encoder lines are both still present or
    /// still missing.
    pub open spec fn same_encoder_as(&self, before: &Self) -> bool {
        self.decoder() == before.decoder() && self.has_encoder() == before.has_encoder()
    }

    /// An empty builder for a controller with an encoder.
    pub fn builder_with_encoder() -> (b: HBridgeMotorDriverBuilder<E1, E2, C1, C2, Enc1, Enc2>)
        ensures
            b == HBridgeMotorDriverBuilder::<E1, E2, C1, C2, Enc1, Enc2>::spec_new(),
    {
        HBridgeMotorDriverBuilder::new()
    }

    /// A controller with two enable lines, two PWM channels and an
    /// encoder, not yet initialized, commanded forward at speed 0.
    pub fn dual_pwm_with_encoder(
        enable1: E1,
        enable2: E2,
        pwm1: C1,
        pwm2: C2,
        encoder1: Enc1,
        encoder2: Enc2,
        max_duty: u16,
    ) -> (d: Self)
        ensures
            d@ == (DriverView {
                command: MotorCommand {
                    max_duty,
                    current_speed: 0,
                    direction: MotorDirection::Forward,
                    initialized: false,
                },
                enable_levels: seq![enable1.is_set_high(), enable2.is_set_high()],
                pwm_duties: seq![pwm1.duty(), pwm2.duty()],
            }),
            d.decoder() == QuadratureDecoder::spec_new(0),
            d.has_encoder(),
    {
        Self::builder_with_encoder().with_dual_enable(enable1, enable2).with_dual_pwm(
            pwm1,
            pwm2,
        ).with_encoder(encoder1, encoder2).with_max_duty(max_duty).build()
    }

    /// Drives every enable line high (`high`) or low. Stops at the first
    /// line that fails.
    fn control_enable(&mut self, high: bool) -> (r: Result<(), MotorDriverError>)
        ensures
            final(self)@ == (DriverView { enable_levels: final(self)@.enable_levels, ..old(self)@ }),
            final(self).same_encoder_as(old(self)),
            crate::command::lines_driven(old(self)@.enable_levels, final(self)@.enable_levels, high, r),
    {
        let ghost n = old(self)@.enable_levels.len();
        let first = if high {
            self.enable1.set_high()
        } else {
            self.enable1.set_low()
        };
        if first.is_err() {
            assert(crate::command::broke_off_at(
                old(self)@.enable_levels,
                self@.enable_levels,
                crate::command::uniform_levels(n, high),
                0,
            ));
            return Err(MotorDriverError::GpioError);
        }
        match &mut self.enable2 {
            Some(enable2) => {
                let second = if high {
                    enable2.set_high()
                } else {
                    enable2.set_low()
                };
                let r = gpio_outcome(second);
                assert(r is Ok ==> seq![self.enable1.is_set_high(), enable2.is_set_high()]
                    =~= crate::command::uniform_levels(2, high));
                assert(r is Err ==> crate::command::broke_off_at(
                    old(self)@.enable_levels,
                    seq![self.enable1.is_set_high(), enable2.is_set_high()],
                    crate::command::uniform_levels(2, high),
                    1,
                ));
                r
            },
            None => {
                assert(seq![self.enable1.is_set_high()] =~= crate::command::uniform_levels(1, high));
                Ok(())
            },
        }
    }

    /// Writes `primary` to the primary channel and, if there is a
    /// secondary channel, `secondary` to it. Stops at the first channel
    /// that fails.
    fn write_duties(&mut self, primary: u16, secondary: u16) -> (r: Result<(), MotorDriverError>)
        ensures
            final(self)@ == (DriverView { pwm_duties: final(self)@.pwm_duties, ..old(self)@ }),
            final(self).same_encoder_as(old(self)),
            1 <= old(self)@.pwm_duties.len() <= 2,
            crate::command::duties_written(
                old(self)@.pwm_duties,
                final(self)@.pwm_duties,
                if old(self)@.pwm_duties.len() == 1 {
                    seq![primary]
                } else {
                    seq![primary, secondary]
                },
                r,
            ),
    {
        let ghost target = if old(self)@.pwm_duties.len() == 1 {
            seq![primary]
        } else {
            seq![primary, secondary]
        };
        if self.pwm1.set_duty_cycle(primary).is_err() {
            assert(crate::command::broke_off_at(old(self)@.pwm_duties, self@.pwm_duties, target, 0));
            return Err(MotorDriverError::PwmError);
        }
        match &mut self.pwm2 {
            Some(pwm2) => {
                let r = pwm_outcome(pwm2.set_duty_cycle(secondary));
                assert(r is Ok ==> seq![self.pwm1.duty(), pwm2.duty()] =~= target);
                assert(r is Err ==> crate::command::broke_off_at(
                    old(self)@.pwm_duties,
                    seq![self.pwm1.duty(), pwm2.duty()],
                    target,
                    1,
                ));
                r
            },
            None => {
                assert(seq![self.pwm1.duty()] =~= target);
                Ok(())
            },
        }
    }

    /// Writes to the PWM channels the duties that realise the commanded
    /// state.
    fn update_pwm(&mut self) -> (r: Result<(), MotorDriverError>)
        ensures
            final(self)@ == (DriverView { pwm_duties: final(self)@.pwm_duties, ..old(self)@ }),
            final(self).same_encoder_as(old(self)),
            crate::command::duties_written(
                old(self)@.pwm_duties,
                final(self)@.pwm_duties,
                old(self)@.command.spec_duties(old(self)@.pwm_duties.len()),
                r,
            ),
    {
        let (primary, secondary) = match &self.pwm2 {
            Some(_) => self.command.dual_duties(),
            None => (self.command.single_duty(), 0),
        };
        proof {
            let command = self@.command;
            if self@.pwm_duties.len() == 1 {
                assert(seq![primary] =~= command.spec_duties(1));
            } else {
                assert(seq![primary, secondary] =~= command.spec_duties(2));
            }
        }
        self.write_duties(primary, secondary)
    }

    /// Samples both encoder phases and feeds the pair to the decoder.
    /// Without an encoder the call fails with `HardwareFault`; a failing
    /// read gives `GpioError`. A failed call changes nothing.
    pub fn read_encoder(&mut self) -> (r: Result<(), MotorDriverError>)
        ensures
            final(self)@ == old(self)@,
            final(self).has_encoder() == old(self).has_encoder(),
            !old(self).has_encoder() ==> r == Err::<(), MotorDriverError>(
                MotorDriverError::HardwareFault,
            ),
            r is Ok ==> old(self).decoder().sampled_to(final(self).decoder()),
            r is Err ==> final(self).decoder() == old(self).decoder(),
            r is Err && old(self).has_encoder() ==> r == Err::<(), MotorDriverError>(
                MotorDriverError::GpioError,
            ),
    {
        match (&mut self.encoder1, &mut self.encoder2) {
            (Some(encoder_a), Some(encoder_b)) => {
                let high_a = sample_outcome(encoder_a.is_high())?;
                let high_b = sample_outcome(encoder_b.is_high())?;
                let a = Level::from_high(high_a);
                let b = Level::from_high(high_b);
                self.decoder.step(a, b);
                assert(self.decoder == old(self).decoder.stepped(a, b));
                Ok(())
            },
            _ => Err(MotorDriverError::HardwareFault),
        }
    }

    /// The position relative to the last reset.
    pub fn get_pulse_count(&self) -> (n: i32)
        ensures
            n == self.decoder().relative_count(),
    {
        self.decoder.get_pulse_count()
    }

    /// Makes the current position the zero of the relative position.
    pub fn reset_encoder(&mut self)
        ensures
            final(self)@ == old(self)@,
            final(self).has_encoder() == old(self).has_encoder(),
            final(self).decoder() == (QuadratureDecoder {
                pulse_offset: old(self).decoder().pulse_count,
                ..old(self).decoder()
            }),
            final(self).decoder().relative_count() == 0,
    {
        self.decoder.reset();
    }

    /// Sets the position that `check_ppr()` compares with.
    pub fn set_target_pulse(&mut self, target: i32)
        ensures
            final(self)@ == old(self)@,
            final(self).has_encoder() == old(self).has_encoder(),
            final(self).decoder() == (QuadratureDecoder { target_pulse: target, ..old(self).decoder() }),
    {
        self.decoder.set_target_pulse(target);
    }

    /// Brings the outputs to their safe state, whatever they were before:
    /// every enable line low, every PWM channel at zero. Only then does the
    /// controller count as initialized.
    pub fn initialize(&mut self) -> (r: Result<(), MotorDriverError>)
        ensures
            final(self).same_encoder_as(old(self)),
            crate::command::initialize_outcome(old(self)@, final(self)@, r),
    {
        self.control_enable(false)?;
        proof {
            let m = self@.pwm_duties.len();
            assert(m == 1 ==> seq![0u16] =~= crate::command::zero_duties(m));
            assert(m == 2 ==> seq![0u16, 0u16] =~= crate::command::zero_duties(m));
        }
        self.write_duties(0, 0)?;
        self.command.initialized = true;
        Ok(())
    }

    /// Commands a signed speed: positive is forward, negative is reverse,
    /// and zero keeps the direction. Refused with `NotInitialized` before
    /// `initialize()` and with `InvalidSpeed` when the magnitude exceeds
    /// `max_duty`.
    pub fn set_speed(&mut self, speed: i16) -> (r: Result<(), MotorDriverError>)
        ensures
            final(self).same_encoder_as(old(self)),
            crate::command::command_outcome(
                old(self)@,
                final(self)@,
                old(self)@.command.speed_refusal(speed),
                old(self)@.command.with_speed(speed),
                r,
            ),
    {
        self.command.set_speed(speed)?;
        self.update_pwm()
    }

    /// Commands forward or reverse without touching the speed.
    pub fn set_direction(&mut self, forward: bool) -> (r: Result<(), MotorDriverError>)
        ensures
            final(self).same_encoder_as(old(self)),
            crate::command::command_outcome(
                old(self)@,
                final(self)@,
                old(self)@.command.init_refusal(),
                old(self)@.command.with_direction(forward),
                r,
            ),
    {
        self.command.set_direction(forward)?;
        self.update_pwm()
    }

    /// Lets the motor coast: speed zero, every channel at zero.
    pub fn stop(&mut self) -> (r: Result<(), MotorDriverError>)
        ensures
            final(self).same_encoder_as(old(self)),
            crate::command::command_outcome(
                old(self)@,
                final(self)@,
                old(self)@.command.init_refusal(),
                old(self)@.command.halted(MotorDirection::Coast),
                r,
            ),
    {
        self.command.halt(MotorDirection::Coast)?;
        self.update_pwm()
    }

    /// Brakes the motor: speed zero, and with two channels both fully on.
    /// A single channel cannot brake and is set to zero.
    pub fn brake(&mut self) -> (r: Result<(), MotorDriverError>)
        ensures
            final(self).same_encoder_as(old(self)),
            crate::command::command_outcome(
                old(self)@,
                final(self)@,
                old(self)@.command.init_refusal(),
                old(self)@.command.halted(MotorDirection::Brake),
                r,
            ),
    {
        self.command.halt(MotorDirection::Brake)?;
        self.update_pwm()
    }

    /// Drives every enable line high.
    pub fn enable(&mut self) -> (r: Result<(), MotorDriverError>)
        ensures
            final(self).same_encoder_as(old(self)),
            crate::command::switch_outcome(old(self)@, final(self)@, true, r),
    {
        self.command.require_initialized()?;
        self.control_enable(true)
    }

    /// Drives every enable line low.
    pub fn disable(&mut self) -> (r: Result<(), MotorDriverError>)
        ensures
            final(self).same_encoder_as(old(self)),
            crate::command::switch_outcome(old(self)@, final(self)@, false, r),
    {
        self.command.require_initialized()?;
        self.control_enable(false)
    }

    /// The commanded speed.
    pub fn get_speed(&self) -> (r: Result<i16, MotorDriverError>)
        ensures
            r == self@.command.spec_get_speed(),
    {
        self.command.get_speed()
    }

    /// Whether the commanded direction is forward.
    pub fn get_direction(&self) -> (r: Result<bool, MotorDriverError>)
        ensures
            r == self@.command.spec_get_direction(),
    {
        self.command.get_direction()
    }

    /// The motor current in milliamperes. No current sensor is attached,
    /// so this always fails with `HardwareFault`.
    pub fn get_current(&self) -> (r: Result<i32, MotorDriverError>)
        ensures
            r == Err::<i32, MotorDriverError>(MotorDriverError::HardwareFault),
    {
        Err(MotorDriverError::HardwareFault)
    }

    /// The supply voltage in millivolts. No voltage sensor is attached,
    /// so this always fails with `HardwareFault`.
    pub fn get_voltage(&self) -> (r: Result<i32, MotorDriverError>)
        ensures
            r == Err::<i32, MotorDriverError>(MotorDriverError::HardwareFault),
    {
        Err(MotorDriverError::HardwareFault)
    }

    /// The driver temperature in thousandths of a degree Celsius. No
    /// temperature sensor is attached, so this always fails with
    /// `HardwareFault`.
    pub fn get_temperature(&self) -> (r: Result<i32, MotorDriverError>)
        ensures
            r == Err::<i32, MotorDriverError>(MotorDriverError::HardwareFault),
    {
        Err(MotorDriverError::HardwareFault)
    }

    /// The fault byte: 0, no fault, once initialized.
    pub fn get_fault_status(&self) -> (r: Result<u8, MotorDriverError>)
        ensures
            r == self@.command.spec_get_fault_status(),
    {
        self.command.get_fault_status()
    }

    /// Configures the pulses per revolution. Refused with `NotInitialized`
    /// before `initialize()` and with `InvalidSpeed` unless `ppr` is positive.
    pub fn set_ppr(&mut self, ppr: i16) -> (r: Result<bool, MotorDriverError>)
        ensures
            final(self)@ == old(self)@,
            final(self).has_encoder() == old(self).has_encoder(),
            !old(self)@.command.initialized ==> r == Err::<bool, MotorDriverError>(
                MotorDriverError::NotInitialized,
            ) && final(self).decoder() == old(self).decoder(),
            old(self)@.command.initialized && ppr <= 0 ==> r == Err::<bool, MotorDriverError>(
                MotorDriverError::InvalidSpeed,
            ) && final(self).decoder() == old(self).decoder(),
            old(self)@.command.initialized && ppr > 0 ==> r == Ok::<bool, MotorDriverError>(true)
                && final(self).decoder() == (QuadratureDecoder {
                ppr: ppr as u16,
                ..old(self).decoder()
            }),
    {
        if !self.command.initialized {
            return Err(MotorDriverError::NotInitialized);
        }
        self.decoder.set_ppr(ppr)
    }

    /// Refreshes the position with one encoder sample and compares it with
    /// the target, both taken within one revolution. Fails with
    /// `NotInitialized` while no pulses-per-revolution value is set, with
    /// the error of `read_encoder()` when the sample cannot be taken, and
    /// with `HardwareFault` when the position is off target.
    pub fn check_ppr(&mut self) -> (r: Result<(), MotorDriverError>)
        ensures
            final(self)@ == old(self)@,
            final(self).has_encoder() == old(self).has_encoder(),
            old(self).decoder().ppr == 0 ==> r == Err::<(), MotorDriverError>(
                MotorDriverError::NotInitialized,
            ) && final(self).decoder() == old(self).decoder(),
            old(self).decoder().ppr != 0 && !old(self).has_encoder() ==> r == Err::<
                (),
                MotorDriverError,
            >(MotorDriverError::HardwareFault) && final(self).decoder() == old(self).decoder(),
            old(self).decoder().ppr != 0 && old(self).has_encoder() ==> {
                ||| r == Err::<(), MotorDriverError>(MotorDriverError::GpioError)
                    && final(self).decoder() == old(self).decoder()
                ||| old(self).decoder().sampled_to(final(self).decoder())
                    && r == final(self).decoder().target_verdict()
            },
    {
        if self.decoder.ppr == 0 {
            return Err(MotorDriverError::NotInitialized);
        }
        self.read_encoder()?;
        self.decoder.check_target()
    }
}

impl<E1, E2, C1, C2> HBridgeMotorDriver<E1, E2, C1, C2, NoEncoder, NoEncoder> where
    E1: DigitalOutput,
    E2: DigitalOutput,
    C1: PwmOutput,
    C2: PwmOutput,
 {
    /// An empty builder for a controller without an encoder.
    pub fn builder() -> (b: HBridgeMotorDriverBuilder<E1, E2, C1, C2, NoEncoder, NoEncoder>)
        ensures
            b == HBridgeMotorDriverBuilder::<E1, E2, C1, C2, NoEncoder, NoEncoder>::spec_new(),
    {
        HBridgeMotorDriverBuilder::new()
    }

    /// A controller with one enable line and one PWM channel, not yet
    /// initialized, commanded forward at speed 0.
    pub fn single_pwm(enable: E1, pwm: C1, max_duty: u16) -> (d: Self)
        ensures
            d@ == (DriverView {
                command: MotorCommand {
                    max_duty,
                    current_speed: 0,
                    direction: MotorDirection::Forward,
                    initialized: false,
                },
                enable_levels: seq![enable.is_set_high()],
                pwm_duties: seq![pwm.duty()],
            }),
            d.decoder() == QuadratureDecoder::spec_new(0),
            !d.has_encoder(),
    {
        Self::builder().with_enable(enable).with_pwm(pwm).with_max_duty(max_duty).build()
    }

    /// A controller with two enable lines and two PWM channels, not yet
    /// initialized, commanded forward at speed 0.
    pub fn dual_pwm(enable1: E1, enable2: E2, pwm1: C1, pwm2: C2, max_duty: u16) -> (d: Self)
        ensures
            d@ == (DriverView {
                command: MotorCommand {
                    max_duty,
                    current_speed: 0,
                    direction: MotorDirection::Forward,
                    initialized: false,
                },
                enable_levels: seq![enable1.is_set_high(), enable2.is_set_high()],
                pwm_duties: seq![pwm1.duty(), pwm2.duty()],
            }),
            d.decoder() == QuadratureDecoder::spec_new(0),
            !d.has_encoder(),
    {
        Self::builder().with_dual_enable(enable1, enable2).with_dual_pwm(pwm1, pwm2).with_max_duty(
            max_duty,
        ).build()
    }
}

/// Collects the parts and settings of an `HBridgeMotorDriver`. The primary
/// enable line and the primary PWM channel are required. Whatever else is
/// not set takes its default at `build()`: no secondary line or channel, no
/// encoder, a full-scale duty of 1000, speed 0, and no
/// pulses-per-revolution value.
pub struct HBridgeMotorDriverBuilder<E1, E2, C1, C2, Enc1, Enc2> {
    /// The primary enable line, once set.
    pub enable1: Option<E1>,
    /// The secondary enable line, once set.
    pub enable2: Option<E2>,
    /// The primary PWM channel, once set.
    pub pwm1: Option<C1>,
    /// The secondary PWM channel, once set.
    pub pwm2: Option<C2>,
    /// Encoder phase A, once set.
    pub encoder1: Option<Enc1>,
    /// Encoder phase B, once set.
    pub encoder2: Option<Enc2>,
    /// The duty value that stands for full speed, once set.
    pub max_duty: Option<u16>,
    /// The pulses per revolution, once set.
    pub ppr: Option<u16>,
    /// The speed the controller starts with, once set.
    pub initial_speed: Option<i16>,
}

impl<E1, E2, C1, C2, Enc1, Enc2> HBridgeMotorDriverBuilder<E1, E2, C1, C2, Enc1, Enc2> {
    /// The builder with nothing set.
    pub open spec fn spec_new() -> Self {
        HBridgeMotorDriverBuilder {
            enable1: None,
            enable2: None,
            pwm1: None,
            pwm2: None,
            encoder1: None,
            encoder2: None,
            max_duty: None,
            ppr: None,
            initial_speed: None,
        }
    }

    /// A builder with nothing set.
    pub fn new() -> (b: Self)
        ensures
            b == Self::spec_new(),
    {
        HBridgeMotorDriverBuilder {
            enable1: None,
            enable2: None,
            pwm1: None,
            pwm2: None,
            encoder1: None,
            encoder2: None,
            max_duty: None,
            ppr: None,
            initial_speed: None,
        }
    }

    /// Sets the primary enable line.
    pub fn with_enable(self, enable: E1) -> (b: Self)
        ensures
            b == (HBridgeMotorDriverBuilder { enable1: Some(enable), ..self }),
    {
        let mut b = self;
        b.enable1 = Some(enable);
        b
    }

    /// Sets both enable lines.
    pub fn with_dual_enable(self, enable1: E1, enable2: E2) -> (b: Self)
        ensures
            b == (HBridgeMotorDriverBuilder { enable1: Some(enable1), enable2: Some(enable2), ..self }),
    {
        let mut b = self;
        b.enable1 = Some(enable1);
        b.enable2 = Some(enable2);
        b
    }

    /// Sets the primary PWM channel.
    pub fn with_pwm(self, pwm: C1) -> (b: Self)
        ensures
            b == (HBridgeMotorDriverBuilder { pwm1: Some(pwm), ..self }),
    {
        let mut b = self;
        b.pwm1 = Some(pwm);
        b
    }

    /// Sets both PWM channels: the primary drives forward, the secondary
    /// drives reverse.
    pub fn with_dual_pwm(self, pwm1: C1, pwm2: C2) -> (b: Self)
        ensures
            b == (HBridgeMotorDriverBuilder { pwm1: Some(pwm1), pwm2: Some(pwm2), ..self }),
    {
        let mut b = self;
        b.pwm1 = Some(pwm1);
        b.pwm2 = Some(pwm2);
        b
    }

    /// Sets the two phases of the quadrature encoder.
    pub fn with_encoder(self, encoder1: Enc1, encoder2: Enc2) -> (b: Self)
        ensures
            b == (HBridgeMotorDriverBuilder {
                encoder1: Some(encoder1),
                encoder2: Some(encoder2),
                ..self
            }),
    {
        let mut b = self;
        b.encoder1 = Some(encoder1);
        b.encoder2 = Some(encoder2);
        b
    }

    /// Sets the duty value that stands for full speed.
    pub fn with_max_duty(self, max_duty: u16) -> (b: Self)
        ensures
            b == (HBridgeMotorDriverBuilder { max_duty: Some(max_duty), ..self }),
    {
        let mut b = self;
        b.max_duty = Some(max_duty);
        b
    }

    /// Sets the pulses per revolution of the encoder.
    pub fn with_ppr(self, ppr: u16) -> (b: Self)
        ensures
            b == (HBridgeMotorDriverBuilder { ppr: Some(ppr), ..self }),
    {
        let mut b = self;
        b.ppr = Some(ppr);
        b
    }

    /// Sets the speed the controller starts with.
    pub fn with_initial_speed(self, speed: i16) -> (b: Self)
        ensures
            b == (HBridgeMotorDriverBuilder { initial_speed: Some(speed), ..self }),
    {
        let mut b = self;
        b.initial_speed = Some(speed);
        b
    }
}

impl<E1, E2, C1, C2, Enc1, Enc2> HBridgeMotorDriverBuilder<E1, E2, C1, C2, Enc1, Enc2> where
    E1: DigitalOutput,
    E2: DigitalOutput,
    C1: PwmOutput,
    C2: PwmOutput,
    Enc1: DigitalInput,
    Enc2: DigitalInput,
 {
    /// Whether the required parts are set: the primary enable line and
    /// the primary PWM channel.
    pub open spec fn is_complete(&self) -> bool {
        self.enable1 is Some && self.pwm1 is Some
    }

    /// The commanded state a controller built from this builder starts in.
    pub open spec fn initial_command(&self) -> MotorCommand {
        MotorCommand {
            max_duty: match self.max_duty {
                Some(m) => m,
                None => 1000,
            },
            current_speed: match self.initial_speed {
                Some(s) => s,
                None => 0,
            },
            direction: MotorDirection::Forward,
            initialized: false,
        }
    }

    /// What a controller built from this complete builder shows: the
    /// initial command, and the outputs as they were handed in.
    pub open spec fn built_view(&self) -> DriverView
        recommends
            self.is_complete(),
    {
        DriverView {
            command: self.initial_command(),
            enable_levels: levels_of(self.enable1->Some_0, self.enable2),
            pwm_duties: duties_of(self.pwm1->Some_0, self.pwm2),
        }
    }

    /// The decoder a controller built from this builder starts with.
    pub open spec fn built_decoder(&self) -> QuadratureDecoder {
        QuadratureDecoder::spec_new(
            match self.ppr {
                Some(p) => p,
                None => 0,
            },
        )
    }

    /// Builds the controller, not yet initialized. The outputs are not
    /// touched. The primary enable line and PWM channel must be set.
    pub fn build(self) -> (d: HBridgeMotorDriver<E1, E2, C1, C2, Enc1, Enc2>)
        requires
            self.is_complete(),
        ensures
            d@ == self.built_view(),
            d.decoder() == self.built_decoder(),
            d.has_encoder() == (self.encoder1 is Some && self.encoder2 is Some),
            d.wf() <==> self.initial_command().wf(),
    {
        let max_duty = match self.max_duty {
            Some(m) => m,
            None => 1000,
        };
        let initial_speed = match self.initial_speed {
            Some(s) => s,
            None => 0,
        };
        let ppr = match self.ppr {
            Some(p) => p,
            None => 0,
        };
        HBridgeMotorDriver {
            enable1: self.enable1.unwrap(),
            enable2: self.enable2,
            pwm1: self.pwm1.unwrap(),
            pwm2: self.pwm2,
            encoder1: self.encoder1,
            encoder2: self.encoder2,
            command: MotorCommand::new(max_duty, initial_speed, MotorDirection::Forward),
            decoder: QuadratureDecoder::new(ppr),
        }
    }

    /// Builds the controller and initializes it. On failure the controller
    /// is dropped and the error of `initialize()` is returned. The primary
    /// enable line and PWM channel must be set.
    pub fn build_and_init(self) -> (r: Result<
        HBridgeMotorDriver<E1, E2, C1, C2, Enc1, Enc2>,
        MotorDriverError,
    >)
        requires
            self.is_complete(),
        ensures
            match r {
                Ok(d) => d.decoder() == self.built_decoder() && d.has_encoder() == (self.encoder1 is Some
                    && self.encoder2 is Some) && crate::command::initialize_outcome(
                    self.built_view(),
                    d@,
                    Ok::<(), MotorDriverError>(()),
                ),
                Err(e) => exists|after: DriverView|
                    crate::command::initialize_outcome(
                        self.built_view(),
                        after,
                        Err::<(), MotorDriverError>(e),
                    ),
            },
    {
        let mut driver = self.build();
        match driver.initialize() {
            Ok(_) => Ok(driver),
            Err(e) => Err(e),
        }
    }
}

} // verus!
