//! Streaming FM demodulator state, recovering a modulating signal from a
//! complex baseband sample stream by phase-difference approximation.
//!
//! The demodulator owns a fixed pair of construction parameters (frequency
//! deviation and sample rate, which determine the output gain) and the most
//! recently fed complex sample. Construction enforces the Nyquist limit: the
//! deviation must be positive and must not exceed half the sample rate. Each
//! step then hands back the stored previous sample and stores the current
//! one; the numeric phase computation `arg(sample * conj(prev)) * gain` is
//! floating point and lives with the caller, outside this crate.

use vstd::prelude::*;

verus! {

/// One complex baseband sample, carried as the IEEE-754 single-precision bit
/// patterns of its in-phase and quadrature components. The demodulator state
/// machine never inspects the numeric values; it only stores a sample and
/// hands it back one step later, so the bit patterns are a faithful
/// plain-value representation.
#[derive(Clone, Copy, PartialEq, Eq, Structural, Debug)]
pub struct IqSample {
    /// Bit pattern of the in-phase (real) component.
    pub re_bits: u32,
    /// Bit pattern of the quadrature (imaginary) component.
    pub im_bits: u32,
}

impl IqSample {
    /// The zero complex value: both components are positive zero, whose
    /// IEEE-754 bit pattern is zero.
    pub open spec fn zero_spec() -> IqSample {
        IqSample { re_bits: 0, im_bits: 0 }
    }

    /// The zero complex value, the implicit previous sample of a freshly
    /// constructed demodulator.
    pub fn zero() -> (s: IqSample)
        ensures
            s == IqSample::zero_spec(),
    {
        IqSample { re_bits: 0, im_bits: 0 }
    }
}

/// The Nyquist constraint on the construction parameters: the frequency
/// deviation is positive and does not exceed half the sample rate. Under it
/// the gain `1 / (2 * pi * deviation / sample_rate)` is positive and finite.
pub open spec fn nyquist_ok(deviation: u32, sample_rate: u32) -> bool {
    1 <= deviation && deviation <= sample_rate / 2
}

/// The abstract state of a demodulator: the two fixed construction
/// parameters and the most recently fed sample.
pub ghost struct DemodState {
    /// Maximum frequency excursion of the carrier, in Hz.
    pub deviation: u32,
    /// Sampling frequency of the incoming stream, in Hz.
    pub sample_rate: u32,
    /// The most recently fed sample, the zero sample before any is fed.
    pub prev: IqSample,
}

impl DemodState {
    /// The parameters are mutually consistent per the Nyquist limit.
    pub open spec fn wf(self) -> bool {
        nyquist_ok(self.deviation, self.sample_rate)
    }

    /// The state of a freshly constructed demodulator: the given parameters,
    /// primed with the zero sample.
    pub open spec fn init(deviation: u32, sample_rate: u32) -> DemodState {
        DemodState { deviation, sample_rate, prev: IqSample::zero_spec() }
    }

    /// The state after one sample is fed: the parameters are untouched and
    /// the sample replaces the stored previous one.
    pub open spec fn step(self, sample: IqSample) -> DemodState {
        DemodState { deviation: self.deviation, sample_rate: self.sample_rate, prev: sample }
    }

    /// What one step hands back: the sample stored before the step. The
    /// demodulated value for the step is the argument of the product of the
    /// current sample and this sample's conjugate, scaled by the gain.
    pub open spec fn step_output(self, sample: IqSample) -> IqSample {
        self.prev
    }
}

/// The state after a whole sequence of samples is fed, first element first.
pub open spec fn run_state(d: DemodState, samples: Seq<IqSample>) -> DemodState
    decreases samples.len(),
{
    if samples.len() == 0 {
        d
    } else {
        run_state(d.step(samples.first()), samples.drop_first())
    }
}

/// The previous-sample outputs handed back while a whole sequence of samples
/// is fed, in step order.
pub open spec fn run_outputs(d: DemodState, samples: Seq<IqSample>) -> Seq<IqSample>
    decreases samples.len(),
{
    if samples.len() == 0 {
        Seq::empty()
    } else {
        seq![d.step_output(samples.first())] + run_outputs(
            d.step(samples.first()),
            samples.drop_first(),
        )
    }
}

/// Demodulates an FM signal using a phase difference approximation: the
/// verified state machine. It validates the construction parameters, stores
/// the previous sample, and on each step exchanges it for the current one.
pub struct FmDemod {
    deviation: u32,
    sample_rate: u32,
    prev: IqSample,
}

impl View for FmDemod {
    type V = DemodState;

    closed spec fn view(&self) -> DemodState {
        DemodState {
            deviation: self.deviation,
            sample_rate: self.sample_rate,
            prev: self.prev,
        }
    }
}

impl FmDemod {
    /// Create a new `FmDemod` with the given frequency deviation (Hz) and
    /// sample rate (Hz). The deviation must be positive and satisfy the
    /// Nyquist limit `deviation <= sample_rate / 2`; the gain is then
    /// determined by the two parameters, and the demodulator is primed with
    /// the zero sample.
    pub fn new(deviation: u32, sample_rate: u32) -> (d: FmDemod)
        requires
            nyquist_ok(deviation, sample_rate),
        ensures
            d@ == DemodState::init(deviation, sample_rate),
            d@.wf(),
    {
        FmDemod { deviation, sample_rate, prev: IqSample::zero() }
    }

    /// Create a new `FmDemod`, rejecting parameters that break the Nyquist
    /// limit instead of requiring the caller to have checked it: `None`
    /// exactly when the deviation is zero or exceeds half the sample rate.
    pub fn try_new(deviation: u32, sample_rate: u32) -> (r: Option<FmDemod>)
        ensures
            r is Some <==> nyquist_ok(deviation, sample_rate),
            r matches Some(d) ==> (d@ == DemodState::init(deviation, sample_rate) && d@.wf()),
    {
        if 1 <= deviation && deviation <= sample_rate / 2 {
            Some(FmDemod::new(deviation, sample_rate))
        } else {
            None
        }
    }

    /// The frequency deviation this demodulator was constructed with.
    pub fn deviation(&self) -> (r: u32)
        ensures
            r == self@.deviation,
    {
        self.deviation
    }

    /// The sample rate this demodulator was constructed with.
    pub fn sample_rate(&self) -> (r: u32)
        ensures
            r == self@.sample_rate,
    {
        self.sample_rate
    }

    /// Feed in an FM sample: store it as the new previous sample and hand
    /// back the sample stored before, the pair the demodulated value
    /// `arg(sample * conj(prev)) * gain` is computed from. Total: it accepts
    /// any sample, including the zero sample, and never fails.
    pub fn feed(&mut self, sample: IqSample) -> (prev: IqSample)
        ensures
            final(self)@ == old(self)@.step(sample),
            prev == old(self)@.step_output(sample),
            old(self)@.wf() ==> final(self)@.wf(),
    {
        let prev = self.prev;
        self.prev = sample;
        prev
    }
}

/// Determinism: two demodulator instances whose states agree, fed the same
/// sample sequence, pass through the same states and hand back the same
/// output sequence. Together with the exact postconditions of `new` and
/// `feed`, repeated runs from the same construction parameters over the same
/// sequence are identical.
pub proof fn lemma_deterministic(a: FmDemod, b: FmDemod, samples: Seq<IqSample>)
    requires
        a@ == b@,
    ensures
        run_state(a@, samples) == run_state(b@, samples),
        run_outputs(a@, samples) == run_outputs(b@, samples),
{
}

/// The state machine keeps no deeper history: after at least one sample, the
/// state is exactly the construction parameters together with the last
/// sample fed, whatever came before it.
pub proof fn lemma_state_is_last_sample(d: DemodState, samples: Seq<IqSample>)
    requires
        samples.len() > 0,
    ensures
        run_state(d, samples) == d.step(samples.last()),
    decreases samples.len(),
{
    if samples.len() == 1 {
        reveal_with_fuel(run_state, 2);
        assert(samples.drop_first().len() == 0);
    } else {
        lemma_state_is_last_sample(d.step(samples.first()), samples.drop_first());
        assert(samples.drop_first().last() == samples.last());
    }
}

/// The first call after construction: the demodulator is primed with the
/// zero sample, so the first step hands that back, and afterwards the first
/// real sample is the stored previous sample.
pub proof fn lemma_first_call(deviation: u32, sample_rate: u32, sample: IqSample)
    ensures
        run_outputs(DemodState::init(deviation, sample_rate), seq![sample])
            == seq![IqSample::zero_spec()],
        run_state(DemodState::init(deviation, sample_rate), seq![sample]).prev == sample,
{
    let d = DemodState::init(deviation, sample_rate);
    reveal_with_fuel(run_state, 2);
    reveal_with_fuel(run_outputs, 2);
    assert(seq![sample].first() == sample);
    assert(seq![sample].drop_first().len() == 0);
    assert(run_outputs(d, seq![sample]) =~= seq![IqSample::zero_spec()]);
}

/// Symmetry of the three-step cycle: feeding `p1`, then `p2`, then `p1`
/// again leaves the demodulator in the same state as the first `p1` alone
/// did, so a following `p2` is transformed against the same previous sample
/// and hands back the same output — the state depends only on the
/// immediately preceding sample, not on deeper history.
pub proof fn lemma_three_step_cycle(d: DemodState, p1: IqSample, p2: IqSample)
    ensures
        run_state(d, seq![p1, p2, p1]) == run_state(d, seq![p1]),
        run_outputs(run_state(d, seq![p1, p2, p1]), seq![p2])
            == run_outputs(run_state(d, seq![p1]), seq![p2]),
{
    lemma_state_is_last_sample(d, seq![p1, p2, p1]);
    lemma_state_is_last_sample(d, seq![p1]);
    assert(seq![p1, p2, p1].last() == p1);
    assert(seq![p1].last() == p1);
}

} // verus!
