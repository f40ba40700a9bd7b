//! The quadrature decoder: a signed pulse count reconstructed from
//! successive samples of two encoder phases.
//!
//! Samples are taken by polling. A sample in which both phases changed at
//! once is ambiguous and counts as no movement, so pulses are lost for good
//! when the shaft outruns the sampling rate.

use vstd::prelude::*;
use crate::error::MotorDriverError;
use crate::hal::DigitalInput;

verus! {

/// Stands in for the encoder lines of a controller that has no encoder.
/// It always reads low.
#[derive(Debug)]
pub struct NoEncoder;

/// The error type of `NoEncoder`, whose reads never fail.
#[derive(Debug)]
pub struct NoEncoderError;

impl DigitalInput for NoEncoder {
    type Error = NoEncoderError;

    fn is_high(&mut self) -> (r: Result<bool, NoEncoderError>)
        ensures
            r == Ok::<bool, NoEncoderError>(false),
    {
        Ok(false)
    }

    fn is_low(&mut self) -> (r: Result<bool, NoEncoderError>)
        ensures
            r == Ok::<bool, NoEncoderError>(true),
    {
        Ok(true)
    }
}

/// The level of one encoder phase.
#[derive(Debug, Clone, Copy, PartialEq, Eq, Structural)]
pub enum Level {
    /// Logic low, bit value 0.
    Low,
    /// Logic high, bit value 1.
    High,
}

impl Level {
    /// The bit value of the level.
    pub open spec fn spec_bit(self) -> int {
        match self {
            Level::Low => 0,
            Level::High => 1,
        }
    }

    /// The bit value of the level.
    pub fn bit(self) -> (b: u8)
        ensures
            b as int == self.spec_bit(),
    {
        match self {
            Level::Low => 0,
            Level::High => 1,
        }
    }

    /// The level of a line that reads high (`true`) or low.
    pub fn from_high(high: bool) -> (l: Level)
        ensures
            l == (if high {
                Level::High
            } else {
                Level::Low
            }),
    {
        if high {
            Level::High
        } else {
            Level::Low
        }
    }
}

/// The pulse delta of each of the 16 combinations of previous and current
/// phase pair, indexed by `last_a last_b a b` read as a 4-bit number.
pub open spec fn transition_table() -> Seq<int> {
    seq![0, -1, 1, 0, 1, 0, 0, -1, -1, 0, 0, 1, 0, 1, -1, 0]
}

/// The table index of a transition: the previous pair in the two high bits,
/// the current pair in the two low bits.
pub open spec fn spec_transition_index(last_a: Level, last_b: Level, a: Level, b: Level) -> int {
    8 * last_a.spec_bit() + 4 * last_b.spec_bit() + 2 * a.spec_bit() + b.spec_bit()
}

/// The pulse delta of a transition.
pub open spec fn spec_transition_delta(last_a: Level, last_b: Level, a: Level, b: Level) -> int {
    transition_table()[spec_transition_index(last_a, last_b, a, b)]
}

/// A value brought back into the range of `i32` after one step past either
/// end, as two's-complement arithmetic does.
pub open spec fn wrap_i32(v: int) -> i32 {
    if v > i32::MAX {
        (v - 0x1_0000_0000) as i32
    } else if v < i32::MIN {
        (v + 0x1_0000_0000) as i32
    } else {
        v as i32
    }
}

/// The remainder of `value` divided by a positive `ppr`, with the sign of
/// `value`: the remainder of a division that rounds toward zero.
pub open spec fn spec_remainder(value: int, ppr: int) -> int {
    if value >= 0 {
        value % ppr
    } else {
        -((-value) % ppr)
    }
}

/// The table index of a transition, assembled from the four phase bits.
pub fn transition_index(last_a: Level, last_b: Level, a: Level, b: Level) -> (index: u8)
    ensures
        index as int == spec_transition_index(last_a, last_b, a, b),
        index < 16,
{
    let la: u8 = last_a.bit();
    let lb: u8 = last_b.bit();
    let ca: u8 = a.bit();
    let cb: u8 = b.bit();
    assert((la << 3) | (lb << 2) | (ca << 1) | cb == 8 * la + 4 * lb + 2 * ca + cb) by (bit_vector)
        requires
            la <= 1,
            lb <= 1,
            ca <= 1,
            cb <= 1,
    ;
    (la << 3) | (lb << 2) | (ca << 1) | cb
}

/// The pulse delta stored at `index` of the transition table.
pub fn transition_delta(index: u8) -> (delta: i8)
    requires
        index < 16,
    ensures
        delta as int == transition_table()[index as int],
        -1 <= delta <= 1,
{
    match index {
        1 | 7 | 8 | 14 => -1,
        2 | 4 | 11 | 13 => 1,
        _ => 0,
    }
}

/// The remainder of `value` divided by `ppr`, with the sign of `value`.
pub fn remainder(value: i32, ppr: u16) -> (r: i32)
    requires
        ppr > 0,
    ensures
        r as int == spec_remainder(value as int, ppr as int),
{
    let p: u64 = ppr as u64;
    if value >= 0 {
        let v: u64 = value as u64;
        (v % p) as i32
    } else {
        let wide: i64 = -(value as i64);
        let v: u64 = wide as u64;
        let m: u64 = v % p;
        -(m as i32)
    }
}

/// Reconstructs a signed pulse count from successive samples of the two
/// phases of a quadrature encoder.
#[derive(Debug, Clone, Copy, PartialEq, Eq, Structural)]
pub struct QuadratureDecoder {
    /// Phase A at the previous sample.
    pub last_a: Level,
    /// Phase B at the previous sample.
    pub last_b: Level,
    /// The raw pulse count since construction. It wraps around at the ends
    /// of `i32`.
    pub pulse_count: i32,
    /// The raw count at the last reset: the zero of the relative position.
    pub pulse_offset: i32,
    /// The position to reach, relative to the last reset.
    pub target_pulse: i32,
    /// Pulses per revolution; 0 means unconfigured.
    pub ppr: u16,
}

impl QuadratureDecoder {
    /// The decoder after one sample `(a, b)`: the table's delta is added to
    /// the raw count and the sample becomes the previous pair.
    pub open spec fn stepped(self, a: Level, b: Level) -> QuadratureDecoder {
        QuadratureDecoder {
            last_a: a,
            last_b: b,
            pulse_count: wrap_i32(
                self.pulse_count + spec_transition_delta(self.last_a, self.last_b, a, b),
            ),
            ..self
        }
    }

    /// The decoder after a reset: the raw count becomes the zero of the
    /// relative position.
    pub open spec fn rebased(self) -> QuadratureDecoder {
        QuadratureDecoder { pulse_offset: self.pulse_count, ..self }
    }

    /// The decoder after the samples of `samples`, taken in order.
    pub open spec fn stepped_through(self, samples: Seq<(Level, Level)>) -> QuadratureDecoder
        decreases samples.len(),
    {
        if samples.len() == 0 {
            self
        } else {
            self.stepped(samples[0].0, samples[0].1).stepped_through(samples.drop_first())
        }
    }

    /// Whether `after` is this decoder after one sample, whatever was read.
    pub open spec fn sampled_to(self, after: QuadratureDecoder) -> bool {
        exists|a: Level, b: Level| after == #[trigger] self.stepped(a, b)
    }

    /// The position relative to the last reset. The difference of the two
    /// raw counts wraps like the counts themselves.
    pub open spec fn relative_count(self) -> i32 {
        wrap_i32(self.pulse_count - self.pulse_offset)
    }

    /// The verdict on the position: `NotInitialized` without a
    /// pulses-per-revolution value; otherwise success exactly when position
    /// and target leave the same remainder, and `HardwareFault` when not.
    pub open spec fn target_verdict(self) -> Result<(), MotorDriverError> {
        if self.ppr == 0 {
            Err(MotorDriverError::NotInitialized)
        } else if spec_remainder(self.relative_count() as int, self.ppr as int) == spec_remainder(
            self.target_pulse as int,
            self.ppr as int,
        ) {
            Ok(())
        } else {
            Err(MotorDriverError::HardwareFault)
        }
    }

    /// The decoder at rest: both phases low, all counts zero.
    pub open spec fn spec_new(ppr: u16) -> QuadratureDecoder {
        QuadratureDecoder {
            last_a: Level::Low,
            last_b: Level::Low,
            pulse_count: 0,
            pulse_offset: 0,
            target_pulse: 0,
            ppr,
        }
    }

    /// A decoder at rest: both phases low, all counts zero.
    pub fn new(ppr: u16) -> (d: Self)
        ensures
            d == Self::spec_new(ppr),
    {
        QuadratureDecoder {
            last_a: Level::Low,
            last_b: Level::Low,
            pulse_count: 0,
            pulse_offset: 0,
            target_pulse: 0,
            ppr,
        }
    }

    /// Takes in one sample of the two phases.
    pub fn step(&mut self, a: Level, b: Level)
        ensures
            *final(self) == old(self).stepped(a, b),
    {
        let index = transition_index(self.last_a, self.last_b, a, b);
        let delta = transition_delta(index);
        self.pulse_count = self.pulse_count.wrapping_add(delta as i32);
        self.last_a = a;
        self.last_b = b;
    }

    /// The position relative to the last reset.
    pub fn get_pulse_count(&self) -> (n: i32)
        ensures
            n == self.relative_count(),
    {
        self.pulse_count.wrapping_sub(self.pulse_offset)
    }

    /// Makes the current position the zero of the relative position. The
    /// raw count is kept.
    pub fn reset(&mut self)
        ensures
            *final(self) == old(self).rebased(),
            final(self).relative_count() == 0,
    {
        self.pulse_offset = self.pulse_count;
    }

    /// Sets the position to reach.
    pub fn set_target_pulse(&mut self, target: i32)
        ensures
            *final(self) == (QuadratureDecoder { target_pulse: target, ..*old(self) }),
    {
        self.target_pulse = target;
    }

    /// Sets the pulses per revolution, which must be positive; otherwise
    /// the call fails with `InvalidSpeed` and changes nothing.
    pub fn set_ppr(&mut self, ppr: i16) -> (r: Result<bool, MotorDriverError>)
        ensures
            ppr <= 0 ==> r == Err::<bool, MotorDriverError>(MotorDriverError::InvalidSpeed)
                && *final(self) == *old(self),
            ppr > 0 ==> r == Ok::<bool, MotorDriverError>(true)
                && *final(self) == (QuadratureDecoder { ppr: ppr as u16, ..*old(self) }),
    {
        if ppr <= 0 {
            return Err(MotorDriverError::InvalidSpeed);
        }
        self.ppr = ppr as u16;
        Ok(true)
    }

    /// Compares the position with the target, both taken within one
    /// revolution. Only an exact match succeeds.
    pub fn check_target(&self) -> (r: Result<(), MotorDriverError>)
        ensures
            r == self.target_verdict(),
    {
        if self.ppr == 0 {
            return Err(MotorDriverError::NotInitialized);
        }
        let current = remainder(self.get_pulse_count(), self.ppr);
        let target = remainder(self.target_pulse, self.ppr);
        if current == target {
            Ok(())
        } else {
            Err(MotorDriverError::HardwareFault)
        }
    }
}

/// The phase pair that follows `(a, b)` when the shaft turns in the
/// counting-up sense: 00, 10, 11, 01 and round again.
pub open spec fn forward_of(a: Level, b: Level) -> (Level, Level) {
    match (a, b) {
        (Level::Low, Level::Low) => (Level::High, Level::Low),
        (Level::High, Level::Low) => (Level::High, Level::High),
        (Level::High, Level::High) => (Level::Low, Level::High),
        (Level::Low, Level::High) => (Level::Low, Level::Low),
    }
}

/// The phase pair that follows `(a, b)` when the shaft turns in the
/// counting-down sense: 00, 01, 11, 10 and round again.
pub open spec fn backward_of(a: Level, b: Level) -> (Level, Level) {
    match (a, b) {
        (Level::Low, Level::Low) => (Level::Low, Level::High),
        (Level::Low, Level::High) => (Level::High, Level::High),
        (Level::High, Level::High) => (Level::High, Level::Low),
        (Level::High, Level::Low) => (Level::Low, Level::Low),
    }
}

/// Whether each pair of `samples` follows its predecessor, the first one
/// following `last`, in one rotational sense: counting up (`forward`) or
/// counting down.
pub open spec fn turns(last: (Level, Level), samples: Seq<(Level, Level)>, forward: bool) -> bool
    decreases samples.len(),
{
    samples.len() == 0 || {
        &&& samples[0] == (if forward {
            forward_of(last.0, last.1)
        } else {
            backward_of(last.0, last.1)
        })
        &&& turns(samples[0], samples.drop_first(), forward)
    }
}

/// The table counts +1 exactly for a single-phase change in the
/// counting-up sense, -1 exactly for one in the counting-down sense, and 0
/// for everything else: no change, or both phases changing at once.
pub proof fn lemma_delta_by_sense(last_a: Level, last_b: Level, a: Level, b: Level)
    ensures
        spec_transition_delta(last_a, last_b, a, b) == (if (a, b) == forward_of(last_a, last_b) {
            1int
        } else if (a, b) == backward_of(last_a, last_b) {
            -1int
        } else {
            0int
        }),
{
}

/// Right after a reset the relative position reads zero, whatever the raw
/// count has accumulated.
pub proof fn lemma_reset_reads_zero(d: QuadratureDecoder)
    ensures
        d.rebased().relative_count() == 0,
        d.rebased().pulse_count == d.pulse_count,
{
}

/// A run of single-phase changes in the counting-up sense raises the raw
/// count by exactly one per sample, as long as the count stays within
/// `i32`.
pub proof fn lemma_forward_run_counts_up(d: QuadratureDecoder, samples: Seq<(Level, Level)>)
    requires
        turns((d.last_a, d.last_b), samples, true),
        d.pulse_count + samples.len() <= i32::MAX,
    ensures
        d.stepped_through(samples).pulse_count == d.pulse_count + samples.len(),
    decreases samples.len(),
{
    if samples.len() > 0 {
        lemma_delta_by_sense(d.last_a, d.last_b, samples[0].0, samples[0].1);
        lemma_forward_run_counts_up(d.stepped(samples[0].0, samples[0].1), samples.drop_first());
    }
}

/// A run of single-phase changes in the counting-down sense lowers the raw
/// count by exactly one per sample, as long as the count stays within
/// `i32`.
pub proof fn lemma_backward_run_counts_down(d: QuadratureDecoder, samples: Seq<(Level, Level)>)
    requires
        turns((d.last_a, d.last_b), samples, false),
        d.pulse_count - samples.len() >= i32::MIN,
    ensures
        d.stepped_through(samples).pulse_count == d.pulse_count - samples.len(),
    decreases samples.len(),
{
    if samples.len() > 0 {
        lemma_delta_by_sense(d.last_a, d.last_b, samples[0].0, samples[0].1);
        lemma_backward_run_counts_down(d.stepped(samples[0].0, samples[0].1), samples.drop_first());
    }
}

} // verus!
