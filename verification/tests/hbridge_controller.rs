use motor_driver_hal::{
    DigitalInput, DigitalOutput, HBridgeMotorDriver, HBridgeMotorDriverBuilder, MotorDriverError,
    NoEncoder, PwmOutput,
};
use std::cell::Cell;
use std::rc::Rc;

/// An enable line that records the level it is driven to.
struct Line {
    high: Rc<Cell<bool>>,
    broken: bool,
}

impl DigitalOutput for Line {
    type Error = ();

    fn is_set_high(&self) -> bool {
        self.high.get()
    }

    fn set_low(&mut self) -> Result<(), ()> {
        if self.broken {
            return Err(());
        }
        self.high.set(false);
        Ok(())
    }

    fn set_high(&mut self) -> Result<(), ()> {
        if self.broken {
            return Err(());
        }
        self.high.set(true);
        Ok(())
    }
}

/// A PWM channel that records the duty it is set to.
struct Channel {
    duty: Rc<Cell<u16>>,
    broken: bool,
}

impl PwmOutput for Channel {
    type Error = ();

    fn duty(&self) -> u16 {
        self.duty.get()
    }

    fn max_duty_cycle(&self) -> u16 {
        1000
    }

    fn set_duty_cycle(&mut self, duty: u16) -> Result<(), ()> {
        if self.broken {
            return Err(());
        }
        self.duty.set(duty);
        Ok(())
    }
}

/// An encoder phase whose level the test sets; `None` makes the read fail.
struct Phase {
    level: Rc<Cell<Option<bool>>>,
}

impl DigitalInput for Phase {
    type Error = ();

    fn is_high(&mut self) -> Result<bool, ()> {
        self.level.get().ok_or(())
    }

    fn is_low(&mut self) -> Result<bool, ()> {
        self.level.get().map(|high| !high).ok_or(())
    }
}

type Plain = HBridgeMotorDriver<Line, Line, Channel, Channel, NoEncoder, NoEncoder>;
type Encoded = HBridgeMotorDriver<Line, Line, Channel, Channel, Phase, Phase>;

struct Probe {
    enable1: Rc<Cell<bool>>,
    enable2: Rc<Cell<bool>>,
    pwm1: Rc<Cell<u16>>,
    pwm2: Rc<Cell<u16>>,
    phase_a: Rc<Cell<Option<bool>>>,
    phase_b: Rc<Cell<Option<bool>>>,
}

impl Probe {
    fn new() -> Probe {
        Probe {
            enable1: Rc::new(Cell::new(true)),
            enable2: Rc::new(Cell::new(true)),
            pwm1: Rc::new(Cell::new(77)),
            pwm2: Rc::new(Cell::new(88)),
            phase_a: Rc::new(Cell::new(Some(false))),
            phase_b: Rc::new(Cell::new(Some(false))),
        }
    }

    fn line1(&self) -> Line {
        Line { high: self.enable1.clone(), broken: false }
    }

    fn line2(&self) -> Line {
        Line { high: self.enable2.clone(), broken: false }
    }

    fn channel1(&self) -> Channel {
        Channel { duty: self.pwm1.clone(), broken: false }
    }

    fn channel2(&self) -> Channel {
        Channel { duty: self.pwm2.clone(), broken: false }
    }

    fn phases(&self) -> (Phase, Phase) {
        (Phase { level: self.phase_a.clone() }, Phase { level: self.phase_b.clone() })
    }

    fn duties(&self) -> (u16, u16) {
        (self.pwm1.get(), self.pwm2.get())
    }

    fn show(&self, a: bool, b: bool) {
        self.phase_a.set(Some(a));
        self.phase_b.set(Some(b));
    }

    fn dual(&self, max_duty: u16) -> Plain {
        HBridgeMotorDriver::dual_pwm(
            self.line1(),
            self.line2(),
            self.channel1(),
            self.channel2(),
            max_duty,
        )
    }

    fn encoded(&self, max_duty: u16) -> Encoded {
        let (a, b) = self.phases();
        HBridgeMotorDriver::dual_pwm_with_encoder(
            self.line1(),
            self.line2(),
            self.channel1(),
            self.channel2(),
            a,
            b,
            max_duty,
        )
    }
}

#[test]
fn no_encoder_always_reads_low() {
    let mut none = NoEncoder;
    assert!(matches!(none.is_high(), Ok(false)));
    assert!(matches!(none.is_low(), Ok(true)));
}

#[test]
fn hbridge_scenario_forward_300() {
    let p = Probe::new();
    let mut motor = p.dual(1000);
    assert_eq!(motor.initialize(), Ok(()));
    assert_eq!(motor.enable(), Ok(()));
    assert_eq!(motor.set_speed(300), Ok(()));
    assert_eq!(p.duties(), (300, 0));
    assert!(p.enable1.get() && p.enable2.get());
    assert_eq!(motor.get_speed(), Ok(300));
}

#[test]
fn hbridge_scenario_reverse_300() {
    let p = Probe::new();
    let mut motor = p.dual(1000);
    motor.initialize().unwrap();
    motor.enable().unwrap();
    assert_eq!(motor.set_speed(-300), Ok(()));
    assert_eq!(p.duties(), (0, 300));
    assert_eq!(motor.get_direction(), Ok(false));
}

#[test]
fn hbridge_scenario_brake() {
    let p = Probe::new();
    let mut motor = p.dual(1000);
    motor.initialize().unwrap();
    motor.enable().unwrap();
    motor.set_speed(300).unwrap();
    assert_eq!(motor.brake(), Ok(()));
    assert_eq!(p.duties(), (1000, 1000));
    assert_eq!(motor.get_speed(), Ok(0));
    assert_eq!(motor.brake(), Ok(()));
    assert_eq!(p.duties(), (1000, 1000));
}

#[test]
fn hbridge_initialize_forces_safe_state() {
    let p = Probe::new();
    let mut motor = p.dual(1000);
    // Nothing is written before initialization.
    assert!(p.enable1.get() && p.enable2.get());
    assert_eq!(p.duties(), (77, 88));
    assert_eq!(motor.initialize(), Ok(()));
    assert!(!p.enable1.get() && !p.enable2.get());
    assert_eq!(p.duties(), (0, 0));
    assert_eq!(motor.get_speed(), Ok(0));
    // A fresh bridge is commanded forward.
    assert_eq!(motor.get_direction(), Ok(true));
    assert_eq!(motor.get_fault_status(), Ok(0));
}

#[test]
fn hbridge_refuses_commands_before_initialize() {
    let p = Probe::new();
    let mut motor = p.dual(1000);
    assert_eq!(motor.set_speed(1), Err(MotorDriverError::NotInitialized));
    assert_eq!(motor.set_direction(false), Err(MotorDriverError::NotInitialized));
    assert_eq!(motor.stop(), Err(MotorDriverError::NotInitialized));
    assert_eq!(motor.brake(), Err(MotorDriverError::NotInitialized));
    assert_eq!(motor.enable(), Err(MotorDriverError::NotInitialized));
    assert_eq!(motor.disable(), Err(MotorDriverError::NotInitialized));
    assert_eq!(motor.get_speed(), Err(MotorDriverError::NotInitialized));
    assert_eq!(motor.get_direction(), Err(MotorDriverError::NotInitialized));
    assert_eq!(motor.get_fault_status(), Err(MotorDriverError::NotInitialized));
    assert_eq!(motor.set_ppr(10), Err(MotorDriverError::NotInitialized));
    assert_eq!(p.duties(), (77, 88));
}

#[test]
fn hbridge_refuses_speed_beyond_max_duty() {
    let p = Probe::new();
    let mut motor = p.dual(255);
    motor.initialize().unwrap();
    assert_eq!(motor.set_speed(256), Err(MotorDriverError::InvalidSpeed));
    assert_eq!(motor.set_speed(-256), Err(MotorDriverError::InvalidSpeed));
    assert_eq!(motor.get_speed(), Ok(0));
    assert_eq!(p.duties(), (0, 0));
    assert_eq!(motor.set_speed(255), Ok(()));
    assert_eq!(motor.set_speed(-255), Ok(()));
    assert_eq!(p.duties(), (0, 255));
}

#[test]
fn hbridge_stop_and_direction() {
    let p = Probe::new();
    let mut motor = p.dual(1000);
    motor.initialize().unwrap();
    motor.set_speed(500).unwrap();
    motor.set_direction(false).unwrap();
    assert_eq!(p.duties(), (0, 500));
    assert_eq!(motor.get_speed(), Ok(500));
    motor.stop().unwrap();
    assert_eq!(p.duties(), (0, 0));
    assert_eq!(motor.get_speed(), Ok(0));
    assert_eq!(motor.get_direction(), Ok(false));
    motor.set_speed(0).unwrap();
    assert_eq!(p.duties(), (0, 0));
}

#[test]
fn hbridge_single_channel() {
    let p = Probe::new();
    let mut motor: Plain = HBridgeMotorDriver::single_pwm(p.line1(), p.channel1(), 1000);
    motor.initialize().unwrap();
    assert!(!p.enable1.get());
    assert!(p.enable2.get());
    assert_eq!(p.duties(), (0, 88));
    motor.enable().unwrap();
    assert!(p.enable1.get());
    motor.set_speed(-640).unwrap();
    assert_eq!(p.duties(), (640, 88));
    motor.brake().unwrap();
    assert_eq!(p.duties(), (0, 88));
    motor.set_speed(20).unwrap();
    assert_eq!(p.duties(), (20, 88));
    motor.stop().unwrap();
    assert_eq!(p.duties(), (0, 88));
    motor.disable().unwrap();
    assert!(!p.enable1.get());
}

#[test]
fn hbridge_builder_defaults_and_settings() {
    let p = Probe::new();
    let mut motor: Plain = HBridgeMotorDriver::builder()
        .with_enable(p.line1())
        .with_pwm(p.channel1())
        .build();
    motor.initialize().unwrap();
    // The default full-scale value is 1000.
    assert_eq!(motor.set_speed(1000), Ok(()));
    assert_eq!(motor.set_speed(1001), Err(MotorDriverError::InvalidSpeed));
    assert_eq!(motor.check_ppr(), Err(MotorDriverError::NotInitialized));

    let q = Probe::new();
    let (a, b) = q.phases();
    let mut tuned: Encoded = HBridgeMotorDriverBuilder::new()
        .with_dual_enable(q.line1(), q.line2())
        .with_dual_pwm(q.channel1(), q.channel2())
        .with_encoder(a, b)
        .with_max_duty(4095)
        .with_ppr(8)
        .with_initial_speed(-9)
        .build();
    tuned.initialize().unwrap();
    assert_eq!(tuned.get_speed(), Ok(-9));
    assert_eq!(tuned.set_speed(4095), Ok(()));
    assert_eq!(tuned.set_speed(4096), Err(MotorDriverError::InvalidSpeed));
    // With a pulses-per-revolution value and an encoder at rest on target.
    assert_eq!(tuned.check_ppr(), Ok(()));
}

#[test]
fn hbridge_build_and_init() {
    let p = Probe::new();
    let built = HBridgeMotorDriver::<Line, Line, Channel, Channel, NoEncoder, NoEncoder>::builder()
        .with_dual_enable(p.line1(), p.line2())
        .with_dual_pwm(p.channel1(), p.channel2())
        .with_max_duty(100)
        .build_and_init();
    let mut motor = match built {
        Ok(m) => m,
        Err(e) => panic!("initialization failed: {:?}", e),
    };
    assert_eq!(p.duties(), (0, 0));
    assert!(!p.enable1.get() && !p.enable2.get());
    assert_eq!(motor.set_speed(100), Ok(()));

    let q = Probe::new();
    let failed = HBridgeMotorDriver::<Line, Line, Channel, Channel, NoEncoder, NoEncoder>::builder()
        .with_enable(q.line1())
        .with_dual_pwm(q.channel1(), Channel { duty: q.pwm2.clone(), broken: true })
        .build_and_init();
    assert_eq!(failed.err(), Some(MotorDriverError::PwmError));

    let r = Probe::new();
    let failed = HBridgeMotorDriver::<Line, Line, Channel, Channel, NoEncoder, NoEncoder>::builder()
        .with_enable(Line { high: r.enable1.clone(), broken: true })
        .with_pwm(r.channel1())
        .build_and_init();
    assert_eq!(failed.err(), Some(MotorDriverError::GpioError));
    assert_eq!(r.duties(), (77, 88));
}

#[test]
fn hbridge_sensing_is_not_available() {
    let p = Probe::new();
    let mut motor = p.dual(1000);
    motor.initialize().unwrap();
    assert_eq!(motor.get_current(), Err(MotorDriverError::HardwareFault));
    assert_eq!(motor.get_voltage(), Err(MotorDriverError::HardwareFault));
    assert_eq!(motor.get_temperature(), Err(MotorDriverError::HardwareFault));
}

#[test]
fn read_encoder_without_encoder_is_a_hardware_fault() {
    let p = Probe::new();
    let mut motor = p.dual(1000);
    assert_eq!(motor.read_encoder(), Err(MotorDriverError::HardwareFault));
    motor.initialize().unwrap();
    assert_eq!(motor.read_encoder(), Err(MotorDriverError::HardwareFault));
    assert_eq!(motor.get_pulse_count(), 0);
    assert_eq!(motor.set_ppr(4), Ok(true));
    assert_eq!(motor.check_ppr(), Err(MotorDriverError::HardwareFault));
}

#[test]
fn read_encoder_decodes_two_forward_steps() {
    let p = Probe::new();
    let mut motor = p.encoded(1000);
    assert_eq!(motor.get_pulse_count(), 0);
    p.show(true, false);
    assert_eq!(motor.read_encoder(), Ok(()));
    assert_eq!(motor.get_pulse_count(), 1);
    p.show(true, true);
    assert_eq!(motor.read_encoder(), Ok(()));
    assert_eq!(motor.get_pulse_count(), 2);
    // The same sample again counts nothing.
    assert_eq!(motor.read_encoder(), Ok(()));
    assert_eq!(motor.get_pulse_count(), 2);
}

#[test]
fn read_encoder_counts_down_in_the_other_sense() {
    let p = Probe::new();
    let mut motor = p.encoded(1000);
    for (a, b) in [(false, true), (true, true), (true, false), (false, false), (false, true)] {
        p.show(a, b);
        motor.read_encoder().unwrap();
    }
    assert_eq!(motor.get_pulse_count(), -5);
}

#[test]
fn reset_encoder_reads_zero_whatever_came_before() {
    let p = Probe::new();
    let mut motor = p.encoded(1000);
    for (a, b) in [(true, false), (true, true), (false, true)] {
        p.show(a, b);
        motor.read_encoder().unwrap();
    }
    assert_eq!(motor.get_pulse_count(), 3);
    motor.reset_encoder();
    assert_eq!(motor.get_pulse_count(), 0);
    p.show(false, false);
    motor.read_encoder().unwrap();
    assert_eq!(motor.get_pulse_count(), 1);
    motor.reset_encoder();
    motor.reset_encoder();
    assert_eq!(motor.get_pulse_count(), 0);
}

#[test]
fn failed_encoder_read_changes_nothing() {
    let p = Probe::new();
    let mut motor = p.encoded(1000);
    p.show(true, false);
    motor.read_encoder().unwrap();
    p.phase_a.set(Some(true));
    p.phase_b.set(None);
    assert_eq!(motor.read_encoder(), Err(MotorDriverError::GpioError));
    assert_eq!(motor.get_pulse_count(), 1);
    p.phase_a.set(None);
    p.phase_b.set(Some(true));
    assert_eq!(motor.read_encoder(), Err(MotorDriverError::GpioError));
    assert_eq!(motor.get_pulse_count(), 1);
    // The previous pair is still (high, low): the next step counts.
    p.show(true, true);
    assert_eq!(motor.read_encoder(), Ok(()));
    assert_eq!(motor.get_pulse_count(), 2);
}

#[test]
fn check_ppr_compares_position_and_target_within_a_revolution() {
    let p = Probe::new();
    let mut motor = p.encoded(1000);
    // Not configured yet: refused even before looking at the encoder.
    p.phase_a.set(None);
    assert_eq!(motor.check_ppr(), Err(MotorDriverError::NotInitialized));
    motor.initialize().unwrap();
    assert_eq!(motor.set_ppr(0), Err(MotorDriverError::InvalidSpeed));
    assert_eq!(motor.set_ppr(-4), Err(MotorDriverError::InvalidSpeed));
    assert_eq!(motor.check_ppr(), Err(MotorDriverError::NotInitialized));
    assert_eq!(motor.set_ppr(4), Ok(true));
    // The sample cannot be taken.
    assert_eq!(motor.check_ppr(), Err(MotorDriverError::GpioError));

    // check_ppr takes one sample itself.
    motor.set_target_pulse(1);
    p.show(true, false);
    assert_eq!(motor.check_ppr(), Ok(()));
    assert_eq!(motor.get_pulse_count(), 1);

    motor.set_target_pulse(5);
    assert_eq!(motor.check_ppr(), Ok(()));
    motor.set_target_pulse(2);
    assert_eq!(motor.check_ppr(), Err(MotorDriverError::HardwareFault));
    p.show(true, true);
    assert_eq!(motor.check_ppr(), Ok(()));
    assert_eq!(motor.get_pulse_count(), 2);
}

#[test]
fn encoder_is_independent_of_motor_commands() {
    let p = Probe::new();
    let mut motor = p.encoded(1000);
    motor.initialize().unwrap();
    p.show(true, false);
    motor.read_encoder().unwrap();
    motor.set_speed(-100).unwrap();
    motor.brake().unwrap();
    motor.stop().unwrap();
    motor.disable().unwrap();
    assert_eq!(motor.get_pulse_count(), 1);
    assert_eq!(p.duties(), (0, 0));
}

#[test]
fn hbridge_failed_secondary_write_keeps_the_command() {
    let p = Probe::new();
    let mut motor: Plain = HBridgeMotorDriver::dual_pwm(
        p.line1(),
        p.line2(),
        p.channel1(),
        Channel { duty: p.pwm2.clone(), broken: true },
        1000,
    );
    assert_eq!(motor.initialize(), Err(MotorDriverError::PwmError));
    assert_eq!(motor.get_speed(), Err(MotorDriverError::NotInitialized));
    // The enable lines were driven low and the primary channel was written
    // before the secondary one failed.
    assert!(!p.enable1.get() && !p.enable2.get());
    assert_eq!(p.duties(), (0, 88));
}

#[test]
fn placeholder_phases_never_count() {
    let p = Probe::new();
    let mut motor: Plain = HBridgeMotorDriver::builder()
        .with_enable(p.line1())
        .with_pwm(p.channel1())
        .with_encoder(NoEncoder, NoEncoder)
        .with_ppr(16)
        .build();
    for _ in 0..5 {
        assert_eq!(motor.read_encoder(), Ok(()));
    }
    assert_eq!(motor.get_pulse_count(), 0);
    assert_eq!(motor.check_ppr(), Ok(()));
    motor.set_target_pulse(3);
    assert_eq!(motor.check_ppr(), Err(MotorDriverError::HardwareFault));
    motor.set_target_pulse(-32);
    assert_eq!(motor.check_ppr(), Ok(()));
}
