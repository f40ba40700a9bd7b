//! The errors of the motor control core.

use vstd::prelude::*;

verus! {

/// Everything that can go wrong while commanding a motor driver.
#[derive(Debug, Clone, Copy, PartialEq, Eq, Structural)]
pub enum MotorDriverError {
    /// Driving an enable line or sampling an encoder line failed.
    GpioError,
    /// Writing a duty cycle to a PWM channel failed.
    PwmError,
    /// The requested speed or pulses-per-revolution value is out of range.
    InvalidSpeed,
    /// The configuration is incomplete or contradictory.
    InvalidConfiguration,
    /// A command was issued before `initialize()`.
    NotInitialized,
    /// A general hardware fault, also raised by features that have no sensor behind them.
    HardwareFault,
    /// Motor current above the safe limit.
    OverCurrent,
    /// Driver temperature above the safe limit.
    OverTemperature,
    /// Supply voltage below the operating minimum.
    UnderVoltage,
    /// Supply voltage above the operating maximum.
    OverVoltage,
    /// Talking to a smart driver IC failed.
    CommunicationError,
}

impl MotorDriverError {
    /// The text that describes the error to a person.
    pub open spec fn spec_message(self) -> Seq<char> {
        match self {
            MotorDriverError::GpioError => "GPIO control error"@,
            MotorDriverError::PwmError => "PWM control error"@,
            MotorDriverError::InvalidSpeed => "Invalid speed value"@,
            MotorDriverError::InvalidConfiguration => "Invalid configuration"@,
            MotorDriverError::NotInitialized => "Driver not initialized"@,
            MotorDriverError::HardwareFault => "Hardware fault detected"@,
            MotorDriverError::OverCurrent => "Over current condition"@,
            MotorDriverError::OverTemperature => "Over temperature condition"@,
            MotorDriverError::UnderVoltage => "Under voltage condition"@,
            MotorDriverError::OverVoltage => "Over voltage condition"@,
            MotorDriverError::CommunicationError => "Communication error"@,
        }
    }

    /// Describes the error to a person.
    pub fn to_string(&self) -> (s: String)
        ensures
            s@ == self.spec_message(),
    {
        match self {
            MotorDriverError::GpioError => "GPIO control error".to_owned(),
            MotorDriverError::PwmError => "PWM control error".to_owned(),
            MotorDriverError::InvalidSpeed => "Invalid speed value".to_owned(),
            MotorDriverError::InvalidConfiguration => "Invalid configuration".to_owned(),
            MotorDriverError::NotInitialized => "Driver not initialized".to_owned(),
            MotorDriverError::HardwareFault => "Hardware fault detected".to_owned(),
            MotorDriverError::OverCurrent => "Over current condition".to_owned(),
            MotorDriverError::OverTemperature => "Over temperature condition".to_owned(),
            MotorDriverError::UnderVoltage => "Under voltage condition".to_owned(),
            MotorDriverError::OverVoltage => "Over voltage condition".to_owned(),
            MotorDriverError::CommunicationError => "Communication error".to_owned(),
        }
    }
}

/// Classifies the outcome of driving an enable line: any platform failure
/// becomes `GpioError`.
pub fn gpio_outcome<E>(written: Result<(), E>) -> (r: Result<(), MotorDriverError>)
    ensures
        written is Ok ==> r == Ok::<(), MotorDriverError>(()),
        written is Err ==> r == Err::<(), MotorDriverError>(MotorDriverError::GpioError),
{
    match written {
        Ok(_) => Ok(()),
        Err(_) => Err(MotorDriverError::GpioError),
    }
}

/// Classifies the outcome of writing a duty cycle: any platform failure
/// becomes `PwmError`.
pub fn pwm_outcome<E>(written: Result<(), E>) -> (r: Result<(), MotorDriverError>)
    ensures
        written is Ok ==> r == Ok::<(), MotorDriverError>(()),
        written is Err ==> r == Err::<(), MotorDriverError>(MotorDriverError::PwmError),
{
    match written {
        Ok(_) => Ok(()),
        Err(_) => Err(MotorDriverError::PwmError),
    }
}

/// Classifies the outcome of sampling an input line: the level on success,
/// `GpioError` on any platform failure.
pub fn sample_outcome<E>(sampled: Result<bool, E>) -> (r: Result<bool, MotorDriverError>)
    ensures
        sampled is Ok ==> r == Ok::<bool, MotorDriverError>(sampled->Ok_0),
        sampled is Err ==> r == Err::<bool, MotorDriverError>(MotorDriverError::GpioError),
{
    match sampled {
        Ok(level) => Ok(level),
        Err(_) => Err(MotorDriverError::GpioError),
    }
}

} // verus!
