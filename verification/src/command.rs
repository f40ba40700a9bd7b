//! The commanded state of a motor and the rules that turn it into duty
//! cycles: which commands are accepted, what they record, and what each
//! PWM channel must output for the recorded state.
//!
//! The functions here touch no hardware. The controllers record a command
//! through them and then write the duties they prescribe.

use vstd::prelude::*;
use crate::error::MotorDriverError;

verus! {

/// What the bridge is asked to do with the motor terminals.
#[derive(Debug, Clone, Copy, PartialEq, Eq, Structural)]
pub enum MotorDirection {
    /// Drive in the positive sense.
    Forward,
    /// Drive in the negative sense.
    Reverse,
    /// Short both terminals together: active deceleration.
    Brake,
    /// Leave both terminals inactive: free deceleration.
    Coast,
}

/// The absolute value of a speed, as a mathematical integer.
pub open spec fn spec_magnitude(speed: i16) -> int {
    if speed >= 0 {
        speed as int
    } else {
        -(speed as int)
    }
}

/// The absolute value of a speed. Unlike negation on `i16`, this is total:
/// the magnitude of `i16::MIN` is 32768.
pub fn magnitude(speed: i16) -> (m: u16)
    ensures
        m as int == spec_magnitude(speed),
{
    if speed >= 0 {
        speed as u16
    } else {
        let wide: i32 = -(speed as i32);
        wide as u16
    }
}

/// The commanded state of one motor: everything the controller remembers
/// that is not a hardware handle.
#[derive(Debug, Clone, Copy, PartialEq, Eq, Structural)]
pub struct MotorCommand {
    /// The duty value that stands for full speed.
    pub max_duty: u16,
    /// The signed speed last commanded.
    pub current_speed: i16,
    /// The drive mode last commanded.
    pub direction: MotorDirection,
    /// Whether the outputs have been brought to their safe initial state.
    pub initialized: bool,
}

impl MotorCommand {
    /// The state invariant: a positive full-scale value, and a speed whose
    /// magnitude does not exceed it.
    pub open spec fn wf(&self) -> bool {
        &&& self.max_duty > 0
        &&& spec_magnitude(self.current_speed) <= self.max_duty
    }

    /// The duty cycle that realises the commanded speed: its magnitude,
    /// capped at `max_duty`.
    pub open spec fn spec_duty(&self) -> u16 {
        if spec_magnitude(self.current_speed) <= self.max_duty {
            spec_magnitude(self.current_speed) as u16
        } else {
            self.max_duty
        }
    }

    /// The duty of the only channel of a single-PWM bridge.
    pub open spec fn spec_single_duty(&self) -> u16 {
        if self.direction == MotorDirection::Coast {
            0
        } else {
            self.spec_duty()
        }
    }

    /// The duties `(primary, secondary)` of a dual-PWM bridge.
    pub open spec fn spec_dual_duties(&self) -> (u16, u16) {
        match self.direction {
            MotorDirection::Forward => (self.spec_duty(), 0u16),
            MotorDirection::Reverse => (0u16, self.spec_duty()),
            MotorDirection::Brake => (self.max_duty, self.max_duty),
            MotorDirection::Coast => (0u16, 0u16),
        }
    }

    /// The duties of all PWM channels of a bridge with `channels` of them,
    /// primary first.
    pub open spec fn spec_duties(&self, channels: nat) -> Seq<u16> {
        if channels == 0 {
            Seq::<u16>::empty()
        } else if channels == 1 {
            seq![self.spec_single_duty()]
        } else {
            seq![self.spec_dual_duties().0, self.spec_dual_duties().1]
        }
    }

    /// Why `set_speed(speed)` is refused in this state, if it is.
    pub open spec fn speed_refusal(&self, speed: i16) -> Option<MotorDriverError> {
        if !self.initialized {
            Some(MotorDriverError::NotInitialized)
        } else if spec_magnitude(speed) > self.max_duty {
            Some(MotorDriverError::InvalidSpeed)
        } else {
            None
        }
    }

    /// Why a command that needs an initialized controller is refused in
    /// this state, if it is.
    pub open spec fn init_refusal(&self) -> Option<MotorDriverError> {
        if !self.initialized {
            Some(MotorDriverError::NotInitialized)
        } else {
            None
        }
    }

    /// The state after an accepted `set_speed(speed)`: a non-zero speed
    /// picks the direction by its sign, zero leaves the direction alone.
    pub open spec fn with_speed(&self, speed: i16) -> MotorCommand {
        MotorCommand {
            current_speed: speed,
            direction: if speed < 0 {
                MotorDirection::Reverse
            } else if speed > 0 {
                MotorDirection::Forward
            } else {
                self.direction
            },
            ..*self
        }
    }

    /// What `get_speed()` returns in this state.
    pub open spec fn spec_get_speed(&self) -> Result<i16, MotorDriverError> {
        if self.initialized {
            Ok(self.current_speed)
        } else {
            Err(MotorDriverError::NotInitialized)
        }
    }

    /// What `get_direction()` returns in this state: whether the direction
    /// is `Forward`.
    pub open spec fn spec_get_direction(&self) -> Result<bool, MotorDriverError> {
        if self.initialized {
            Ok(self.direction == MotorDirection::Forward)
        } else {
            Err(MotorDriverError::NotInitialized)
        }
    }

    /// What `get_fault_status()` returns in this state: no fault.
    pub open spec fn spec_get_fault_status(&self) -> Result<u8, MotorDriverError> {
        if self.initialized {
            Ok(0u8)
        } else {
            Err(MotorDriverError::NotInitialized)
        }
    }

    /// The state after an accepted `set_direction(forward)`.
    pub open spec fn with_direction(&self, forward: bool) -> MotorCommand {
        MotorCommand {
            direction: if forward {
                MotorDirection::Forward
            } else {
                MotorDirection::Reverse
            },
            ..*self
        }
    }

    /// The state after an accepted `stop()` (`mode` is `Coast`) or
    /// `brake()` (`mode` is `Brake`).
    pub open spec fn halted(&self, mode: MotorDirection) -> MotorCommand {
        MotorCommand { current_speed: 0, direction: mode, ..*self }
    }

    /// A fresh, uninitialized state.
    pub fn new(max_duty: u16, initial_speed: i16, direction: MotorDirection) -> (c: Self)
        ensures
            c == (MotorCommand { max_duty, current_speed: initial_speed, direction, initialized: false }),
    {
        MotorCommand { max_duty, current_speed: initial_speed, direction, initialized: false }
    }

    /// The duty cycle that realises the commanded speed.
    pub fn duty(&self) -> (d: u16)
        ensures
            d == self.spec_duty(),
    {
        let m = magnitude(self.current_speed);
        if m <= self.max_duty {
            m
        } else {
            self.max_duty
        }
    }

    /// The duty to write to the only channel of a single-PWM bridge.
    pub fn single_duty(&self) -> (d: u16)
        ensures
            d == self.spec_single_duty(),
    {
        match self.direction {
            MotorDirection::Coast => 0,
            _ => self.duty(),
        }
    }

    /// The duties to write to the primary and secondary channel of a
    /// dual-PWM bridge.
    pub fn dual_duties(&self) -> (d: (u16, u16))
        ensures
            d == self.spec_dual_duties(),
    {
        match self.direction {
            MotorDirection::Forward => (self.duty(), 0),
            MotorDirection::Reverse => (0, self.duty()),
            MotorDirection::Brake => (self.max_duty, self.max_duty),
            MotorDirection::Coast => (0, 0),
        }
    }

    /// Fails with `NotInitialized` before `initialize()`.
    pub fn require_initialized(&self) -> (r: Result<(), MotorDriverError>)
        ensures
            self.initialized ==> r == Ok::<(), MotorDriverError>(()),
            !self.initialized ==> r == Err::<(), MotorDriverError>(MotorDriverError::NotInitialized),
    {
        if self.initialized {
            Ok(())
        } else {
            Err(MotorDriverError::NotInitialized)
        }
    }

    /// Records a new speed, refusing it when the state is not initialized
    /// or the magnitude exceeds `max_duty`. A refused command changes nothing.
    pub fn set_speed(&mut self, speed: i16) -> (r: Result<(), MotorDriverError>)
        ensures
            match old(self).speed_refusal(speed) {
                Some(e) => r == Err::<(), MotorDriverError>(e) && *final(self) == *old(self),
                None => r == Ok::<(), MotorDriverError>(()) && *final(self) == old(self).with_speed(speed),
            },
            old(self).wf() ==> final(self).wf(),
            old(self).speed_refusal(speed) is None && old(self).max_duty > 0 ==> final(self).wf(),
    {
        if !self.initialized {
            return Err(MotorDriverError::NotInitialized);
        }
        if magnitude(speed) > self.max_duty {
            return Err(MotorDriverError::InvalidSpeed);
        }
        self.current_speed = speed;
        if speed < 0 {
            self.direction = MotorDirection::Reverse;
        } else if speed > 0 {
            self.direction = MotorDirection::Forward;
        }
        Ok(())
    }

    /// Records a new direction without touching the speed.
    pub fn set_direction(&mut self, forward: bool) -> (r: Result<(), MotorDriverError>)
        ensures
            old(self).initialized ==> r == Ok::<(), MotorDriverError>(())
                && *final(self) == old(self).with_direction(forward),
            !old(self).initialized ==> r == Err::<(), MotorDriverError>(MotorDriverError::NotInitialized)
                && *final(self) == *old(self),
            old(self).wf() ==> final(self).wf(),
    {
        if !self.initialized {
            return Err(MotorDriverError::NotInitialized);
        }
        self.direction = if forward {
            MotorDirection::Forward
        } else {
            MotorDirection::Reverse
        };
        Ok(())
    }

    /// Records a halt: speed zero and the given mode, `Coast` for a stop
    /// and `Brake` for braking.
    pub fn halt(&mut self, mode: MotorDirection) -> (r: Result<(), MotorDriverError>)
        ensures
            old(self).initialized ==> r == Ok::<(), MotorDriverError>(())
                && *final(self) == old(self).halted(mode),
            !old(self).initialized ==> r == Err::<(), MotorDriverError>(MotorDriverError::NotInitialized)
                && *final(self) == *old(self),
            old(self).wf() ==> final(self).wf(),
    {
        if !self.initialized {
            return Err(MotorDriverError::NotInitialized);
        }
        self.current_speed = 0;
        self.direction = mode;
        Ok(())
    }

    /// The commanded speed, once initialized.
    pub fn get_speed(&self) -> (r: Result<i16, MotorDriverError>)
        ensures
            r == self.spec_get_speed(),
    {
        if !self.initialized {
            return Err(MotorDriverError::NotInitialized);
        }
        Ok(self.current_speed)
    }

    /// Whether the commanded direction is `Forward`, once initialized.
    pub fn get_direction(&self) -> (r: Result<bool, MotorDriverError>)
        ensures
            r == self.spec_get_direction(),
    {
        if !self.initialized {
            return Err(MotorDriverError::NotInitialized);
        }
        Ok(self.direction == MotorDirection::Forward)
    }

    /// The fault byte, once initialized: always 0, no fault.
    pub fn get_fault_status(&self) -> (r: Result<u8, MotorDriverError>)
        ensures
            r == self.spec_get_fault_status(),
    {
        if !self.initialized {
            return Err(MotorDriverError::NotInitialized);
        }
        Ok(0)
    }
}

/// What a controller shows to its caller: the commanded state and the
/// state of every output it owns, primary line or channel first.
pub struct DriverView {
    /// The commanded state.
    pub command: MotorCommand,
    /// The level of each enable line: none, one or two.
    pub enable_levels: Seq<bool>,
    /// The duty of each PWM channel: none, one or two.
    pub pwm_duties: Seq<u16>,
}

/// `n` lines, all at the same level.
pub open spec fn uniform_levels(n: nat, high: bool) -> Seq<bool> {
    Seq::new(n, |i: int| high)
}

/// `n` channels, all at duty zero.
pub open spec fn zero_duties(n: nat) -> Seq<u16> {
    Seq::new(n, |i: int| 0u16)
}

/// Whether a pass that writes `target` to the outputs in order broke off
/// at output `k`: the outputs before `k` hold their targets, those after it
/// were not touched, and nothing is known of output `k` itself.
pub open spec fn broke_off_at<T>(before: Seq<T>, after: Seq<T>, target: Seq<T>, k: int) -> bool {
    &&& 0 <= k < before.len()
    &&& forall|i: int| 0 <= i < k ==> after[i] == target[i]
    &&& forall|i: int| k < i < before.len() ==> after[i] == before[i]
}

/// The outcome of driving every enable line to one level, primary first.
/// The number of lines never changes; success means every line is at that
/// level; the only failure is `GpioError`, which ends the pass at the line
/// that failed, and with no line there is nothing to fail.
pub open spec fn lines_driven(
    before: Seq<bool>,
    after: Seq<bool>,
    high: bool,
    r: Result<(), MotorDriverError>,
) -> bool {
    &&& after.len() == before.len()
    &&& r is Ok ==> after == uniform_levels(before.len(), high)
    &&& r is Err ==> r == Err::<(), MotorDriverError>(MotorDriverError::GpioError)
        && exists|k: int| #[trigger] broke_off_at(before, after, uniform_levels(before.len(), high), k)
    &&& before.len() == 0 ==> r is Ok
}

/// The outcome of writing `target` to the PWM channels, primary first. The
/// number of channels never changes; success means every channel holds its
/// target; the only failure is `PwmError`, which ends the pass at the
/// channel that failed, and with no channel there is nothing to fail.
pub open spec fn duties_written(
    before: Seq<u16>,
    after: Seq<u16>,
    target: Seq<u16>,
    r: Result<(), MotorDriverError>,
) -> bool {
    &&& after.len() == before.len()
    &&& r is Ok ==> after == target
    &&& r is Err ==> r == Err::<(), MotorDriverError>(MotorDriverError::PwmError)
        && exists|k: int| #[trigger] broke_off_at(before, after, target, k)
    &&& before.len() == 0 ==> r is Ok
}

/// The outcome of `initialize()`: every enable line is driven low, then
/// every PWM channel is set to zero, then the state becomes initialized. A
/// failure leaves the commanded state as it was; a failing enable line
/// (`GpioError`) leaves the PWM channels untouched, and a failing channel
/// (`PwmError`) is only reached with every enable line already low. With
/// no line and no channel there is nothing to fail.
pub open spec fn initialize_outcome(
    before: DriverView,
    after: DriverView,
    r: Result<(), MotorDriverError>,
) -> bool {
    &&& after.enable_levels.len() == before.enable_levels.len()
    &&& after.pwm_duties.len() == before.pwm_duties.len()
    &&& r is Ok ==> after == (DriverView {
        command: MotorCommand { initialized: true, ..before.command },
        enable_levels: uniform_levels(before.enable_levels.len(), false),
        pwm_duties: zero_duties(before.pwm_duties.len()),
    })
    &&& r is Err ==> after.command == before.command && {
        ||| after.pwm_duties == before.pwm_duties && lines_driven(
            before.enable_levels,
            after.enable_levels,
            false,
            r,
        )
        ||| after.enable_levels == uniform_levels(before.enable_levels.len(), false)
            && duties_written(
            before.pwm_duties,
            after.pwm_duties,
            zero_duties(before.pwm_duties.len()),
            r,
        )
    }
}

/// The outcome of a motion command. A refused command changes nothing and
/// returns the refusal. An accepted command never touches the enable lines,
/// always records `next` as the commanded state, and then writes the duties
/// that realise `next`; if a write fails the commanded state stays updated
/// although the outputs may not reflect it.
pub open spec fn command_outcome(
    before: DriverView,
    after: DriverView,
    refusal: Option<MotorDriverError>,
    next: MotorCommand,
    r: Result<(), MotorDriverError>,
) -> bool {
    match refusal {
        Some(e) => r == Err::<(), MotorDriverError>(e) && after == before,
        None => {
            &&& after.command == next
            &&& after.enable_levels == before.enable_levels
            &&& duties_written(
                before.pwm_duties,
                after.pwm_duties,
                next.spec_duties(before.pwm_duties.len()),
                r,
            )
        },
    }
}

/// The outcome of `enable()` (`high`) or `disable()`. Before
/// initialization the call is refused and changes nothing; afterwards it
/// drives every enable line and touches nothing else.
pub open spec fn switch_outcome(
    before: DriverView,
    after: DriverView,
    high: bool,
    r: Result<(), MotorDriverError>,
) -> bool {
    if !before.command.initialized {
        r == Err::<(), MotorDriverError>(MotorDriverError::NotInitialized) && after == before
    } else {
        &&& after.command == before.command
        &&& after.pwm_duties == before.pwm_duties
        &&& lines_driven(before.enable_levels, after.enable_levels, high, r)
    }
}

/// Every accepted command keeps the state invariant: the full-scale value
/// never changes and the speed stays within it.
pub proof fn lemma_commands_keep_invariant(
    c: MotorCommand,
    speed: i16,
    forward: bool,
    mode: MotorDirection,
)
    requires
        c.wf(),
    ensures
        c.speed_refusal(speed) is None ==> c.with_speed(speed).wf(),
        c.with_direction(forward).wf(),
        c.halted(mode).wf(),
        c.with_speed(speed).max_duty == c.max_duty,
        c.with_direction(forward).max_duty == c.max_duty,
        c.halted(mode).max_duty == c.max_duty,
{
}

/// Whatever a motion command, `enable()`, `disable()` or `initialize()`
/// returns, a controller that satisfied the state invariant before still
/// satisfies it afterwards, provided a motion command recorded a state that
/// does.
pub proof fn lemma_outcomes_keep_invariant(
    before: DriverView,
    after: DriverView,
    refusal: Option<MotorDriverError>,
    next: MotorCommand,
    high: bool,
    r: Result<(), MotorDriverError>,
)
    requires
        before.command.wf(),
    ensures
        command_outcome(before, after, refusal, next, r) && next.wf() ==> after.command.wf(),
        switch_outcome(before, after, high, r) ==> after.command.wf(),
        initialize_outcome(before, after, r) ==> after.command.wf(),
{
}

/// No call reconfigures the bridge: whatever a motion command,
/// `enable()`, `disable()` or `initialize()` returns, the number of enable
/// lines and of PWM channels is what it was, and so is the full-scale value.
pub proof fn lemma_topology_is_fixed(
    before: DriverView,
    after: DriverView,
    refusal: Option<MotorDriverError>,
    next: MotorCommand,
    high: bool,
    r: Result<(), MotorDriverError>,
)
    requires
        next.max_duty == before.command.max_duty,
        command_outcome(before, after, refusal, next, r) || switch_outcome(before, after, high, r)
            || initialize_outcome(before, after, r),
    ensures
        after.enable_levels.len() == before.enable_levels.len(),
        after.pwm_duties.len() == before.pwm_duties.len(),
        after.command.max_duty == before.command.max_duty,
{
}

/// A speed within the full-scale value, commanded after a successful
/// `initialize()` and an `enable()` of any outcome, is accepted and read
/// back unchanged by `get_speed()`, even if writing the duties failed.
pub proof fn lemma_speed_is_read_back(
    start: DriverView,
    initialized: DriverView,
    enabled: DriverView,
    commanded: DriverView,
    speed: i16,
    enable_result: Result<(), MotorDriverError>,
    speed_result: Result<(), MotorDriverError>,
)
    requires
        spec_magnitude(speed) <= start.command.max_duty,
        initialize_outcome(start, initialized, Ok::<(), MotorDriverError>(())),
        switch_outcome(initialized, enabled, true, enable_result),
        command_outcome(
            enabled,
            commanded,
            enabled.command.speed_refusal(speed),
            enabled.command.with_speed(speed),
            speed_result,
        ),
    ensures
        enabled.command.speed_refusal(speed) is None,
        commanded.command.spec_get_speed() == Ok::<i16, MotorDriverError>(speed),
        speed_result is Ok || speed_result == Err::<(), MotorDriverError>(MotorDriverError::PwmError),
{
}

/// A speed is refused with `NotInitialized` before initialization,
/// whatever its value, and with `InvalidSpeed` afterwards exactly when its
/// magnitude exceeds the full-scale value; one more than the full-scale
/// value is such a speed.
pub proof fn lemma_speed_refusals(c: MotorCommand, speed: i16)
    ensures
        !c.initialized ==> c.speed_refusal(speed) == Some(MotorDriverError::NotInitialized),
        c.initialized ==> (c.speed_refusal(speed) == Some(MotorDriverError::InvalidSpeed)
            <==> spec_magnitude(speed) > c.max_duty),
        c.initialized && speed == c.max_duty + 1 ==> c.speed_refusal(speed) == Some(
            MotorDriverError::InvalidSpeed,
        ),
{
}

/// Braking twice leaves the outputs as braking once does: unless a write
/// fails, the second `brake()` changes neither the commanded state nor the
/// duty of any channel.
pub proof fn lemma_brake_is_idempotent(
    start: DriverView,
    once: DriverView,
    twice: DriverView,
    first: Result<(), MotorDriverError>,
    second: Result<(), MotorDriverError>,
)
    requires
        command_outcome(
            start,
            once,
            start.command.init_refusal(),
            start.command.halted(MotorDirection::Brake),
            first,
        ),
        command_outcome(
            once,
            twice,
            once.command.init_refusal(),
            once.command.halted(MotorDirection::Brake),
            second,
        ),
        first != Err::<(), MotorDriverError>(MotorDriverError::PwmError),
        second != Err::<(), MotorDriverError>(MotorDriverError::PwmError),
    ensures
        twice == once,
        (second is Ok) == (first is Ok),
{
}

/// No channel is ever asked for more than the full-scale value: every duty
/// that realises a commanded state lies within `max_duty`, also when the
/// commanded speed does not.
pub proof fn lemma_duties_within_full_scale(c: MotorCommand, channels: nat)
    ensures
        c.spec_duties(channels).len() == (if channels <= 2 {
            channels
        } else {
            2
        }),
        forall|i: int|
            0 <= i < c.spec_duties(channels).len() ==> #[trigger] c.spec_duties(channels)[i]
                <= c.max_duty,
{
}

/// What the duty table says for each mode of a dual-PWM bridge and of a
/// single-PWM bridge: forward drives the primary channel, reverse the
/// secondary, braking both fully, coasting none; a single channel carries
/// the duty unless coasting.
pub proof fn lemma_duty_table(c: MotorCommand)
    ensures
        c.direction == MotorDirection::Forward ==> c.spec_duties(2) == seq![c.spec_duty(), 0u16],
        c.direction == MotorDirection::Reverse ==> c.spec_duties(2) == seq![0u16, c.spec_duty()],
        c.direction == MotorDirection::Brake ==> c.spec_duties(2) == seq![c.max_duty, c.max_duty],
        c.direction == MotorDirection::Coast ==> c.spec_duties(2) == seq![0u16, 0u16],
        c.direction != MotorDirection::Coast ==> c.spec_duties(1) == seq![c.spec_duty()],
        c.direction == MotorDirection::Coast ==> c.spec_duties(1) == seq![0u16],
        c.spec_duties(0) == Seq::<u16>::empty(),
        c.spec_duty() <= c.max_duty,
        c.wf() ==> c.spec_duty() == spec_magnitude(c.current_speed),
{
}

} // verus!
