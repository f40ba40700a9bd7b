//! Hardware-independent control core for brushed DC motors behind an H-bridge.

pub mod command;
pub mod driver;
pub mod encoder;
pub mod error;
pub mod hal;
pub mod linux;
pub mod wrapper;

pub use command::{DriverView, MotorCommand, MotorDirection};
pub use driver::{HBridgeMotorDriver, HBridgeMotorDriverBuilder};
pub use encoder::{Level, NoEncoder, NoEncoderError, QuadratureDecoder};
pub use error::MotorDriverError;
pub use hal::{DigitalInput, DigitalOutput, PwmOutput};
pub use wrapper::{EnablePins, MotorDriverBuilder, MotorDriverWrapper, PwmChannels};
