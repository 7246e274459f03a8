//! Oscillators and their phase model.
//!
//! An oscillator is a frequency and a running phase index. Each pull hands
//! out the position at which the waveform is to be evaluated and moves the
//! index on by one, back to zero when it reaches the sample rate. The
//! scalar type `T` of frequencies and samples is left to the caller: this
//! module never computes with it, it only carries it.

use vstd::prelude::*;
use vstd::arithmetic::div_mod::lemma_small_mod;
use vstd::arithmetic::div_mod::lemma_mod_self_0;
use vstd::arithmetic::div_mod::lemma_add_mod_noop;

verus! {

/// The shape of a periodic signal.
#[derive(Clone, Copy, Debug, PartialEq, Eq)]
pub enum Waveform {
    Sine,
    Square,
    Sawtooth,
    Triangle,
}

/// A position on a waveform: all that is needed to evaluate one sample.
#[derive(Clone, Copy, Debug, PartialEq)]
pub struct PhasePoint<T> {
    pub waveform: Waveform,
    pub frequency: T,
    pub phase_index: u32,
    pub sample_rate: u32,
}

/// What one pull of a generator yields: a fixed value, or a position at
/// which the caller evaluates the waveform.
#[derive(Clone, Copy, Debug, PartialEq)]
pub enum Pull<T> {
    Hold(T),
    Evaluate(PhasePoint<T>),
}

/// The phase index reached `n` samples after index zero, at the given rate.
///
/// A rate of zero is degenerate: the index never leaves zero.
pub open spec fn wrapped_index(n: nat, rate: nat) -> nat {
    if rate == 0 {
        0
    } else {
        n % rate
    }
}

/// Whether `index` is one that a counter wrapping at `rate` can hold.
pub open spec fn in_phase(index: u32, rate: u32) -> bool {
    if rate == 0 {
        index == 0
    } else {
        index < rate
    }
}

impl<T> PhasePoint<T> {
    /// Whether the phase index lies below the sample rate.
    pub open spec fn wf(self) -> bool {
        in_phase(self.phase_index, self.sample_rate)
    }

    /// The position `n` samples later: same waveform, frequency and rate.
    pub open spec fn advanced(self, n: nat) -> PhasePoint<T> {
        PhasePoint {
            waveform: self.waveform,
            frequency: self.frequency,
            phase_index: wrapped_index(self.phase_index as nat + n, self.sample_rate as nat) as u32,
            sample_rate: self.sample_rate,
        }
    }

    /// The position at index zero.
    pub open spec fn start(waveform: Waveform, frequency: T, sample_rate: u32) -> PhasePoint<T> {
        PhasePoint { waveform, frequency, phase_index: 0, sample_rate }
    }
}

impl<T> Pull<T> {
    /// Whether a position, if there is one, is well formed.
    pub open spec fn wf(self) -> bool {
        match self {
            Pull::Hold(_) => true,
            Pull::Evaluate(point) => point.wf(),
        }
    }

    /// The frequency of the position, if there is one.
    pub open spec fn frequency(self) -> Option<T> {
        match self {
            Pull::Hold(_) => None,
            Pull::Evaluate(point) => Some(point.frequency),
        }
    }

    /// What is yielded `n` pulls later.
    pub open spec fn advanced(self, n: nat) -> Pull<T> {
        match self {
            Pull::Hold(value) => Pull::Hold(value),
            Pull::Evaluate(point) => Pull::Evaluate(point.advanced(n)),
        }
    }
}

/// A frequency and the phase index that runs under it: the state shared by
/// the four oscillators.
#[derive(Debug)]
struct Phase<T> {
    frequency: T,
    num_sample: u32,
    sample_rate: u32,
}

impl<T> Phase<T> {
    #[verifier::type_invariant]
    spec fn index_in_phase(self) -> bool {
        in_phase(self.num_sample, self.sample_rate)
    }

    /// The position at which `waveform` is evaluated next.
    spec fn at(self, waveform: Waveform) -> PhasePoint<T> {
        PhasePoint {
            waveform,
            frequency: self.frequency,
            phase_index: self.num_sample,
            sample_rate: self.sample_rate,
        }
    }
}

impl<T: Copy> Phase<T> {
    fn start(frequency: T, sample_rate: u32) -> (phase: Self)
        ensures
            forall|waveform: Waveform|
                #[trigger] phase.at(waveform) == PhasePoint::start(waveform, frequency, sample_rate),
    {
        Phase { frequency, num_sample: 0, sample_rate }
    }

    /// Hands out the current position, then moves the phase index on by
    /// one, back to zero when it reaches the sample rate.
    fn next_point(&mut self, waveform: Waveform) -> (point: PhasePoint<T>)
        ensures
            point == old(self).at(waveform),
            point.wf(),
            forall|any: Waveform| #[trigger] final(self).at(any) == old(self).at(any).advanced(1),
        no_unwind
    {
        proof {
            use_type_invariant(&*self);
        }
        let point = PhasePoint {
            waveform,
            frequency: self.frequency,
            phase_index: self.num_sample,
            sample_rate: self.sample_rate,
        };
        if self.sample_rate == 0 || self.num_sample + 1 >= self.sample_rate {
            proof {
                if self.sample_rate != 0 {
                    lemma_mod_self_0(self.sample_rate as int);
                }
            }
            self.num_sample = 0;
        } else {
            proof {
                lemma_small_mod((self.num_sample + 1) as nat, self.sample_rate as nat);
            }
            self.num_sample = self.num_sample + 1;
        }
        point
    }

    fn copy(&self) -> (copy: Self)
        ensures
            copy == *self,
    {
        proof {
            use_type_invariant(self);
        }
        Phase {
            frequency: self.frequency,
            num_sample: self.num_sample,
            sample_rate: self.sample_rate,
        }
    }
}

/// A sine oscillator.
#[derive(Debug)]
pub struct SineWave<T> {
    phase: Phase<T>,
}

impl<T> View for SineWave<T> {
    type V = PhasePoint<T>;

    /// The position that the next pull hands out.
    closed spec fn view(&self) -> PhasePoint<T> {
        self.phase.at(Waveform::Sine)
    }
}

impl<T: Copy> SineWave<T> {
    /// A sine of the given frequency at the default sample rate,
    /// starting at index zero.
    pub fn new(frequency: T) -> (wave: Self)
        ensures
            wave@ == PhasePoint::start(Waveform::Sine, frequency, crate::SAMPLE_RATE),
    {
        SineWave { phase: Phase::start(frequency, crate::SAMPLE_RATE) }
    }

    /// A sine of the given frequency at the given sample rate,
    /// starting at index zero.
    pub fn with_sample_rate(frequency: T, sample_rate: u32) -> (wave: Self)
        ensures
            wave@ == PhasePoint::start(Waveform::Sine, frequency, sample_rate),
    {
        SineWave { phase: Phase::start(frequency, sample_rate) }
    }

    /// The frequency the oscillator was built with.
    pub fn frequency(&self) -> (frequency: T)
        ensures
            frequency == self@.frequency,
    {
        self.phase.frequency
    }

    /// The sample rate the oscillator was built with.
    pub fn sample_rate(&self) -> (sample_rate: u32)
        ensures
            sample_rate == self@.sample_rate,
    {
        self.phase.sample_rate
    }

    /// Hands out the current position, then moves the phase index on by
    /// one, back to zero when it reaches the sample rate.
    pub fn next_point(&mut self) -> (point: PhasePoint<T>)
        ensures
            point == old(self)@,
            point.wf(),
            point.waveform == Waveform::Sine,
            final(self)@ == old(self)@.advanced(1),
        no_unwind
    {
        self.phase.next_point(Waveform::Sine)
    }
}

impl<T: Copy> Clone for SineWave<T> {
    fn clone(&self) -> (copy: Self)
        ensures
            copy@ == self@,
    {
        SineWave { phase: self.phase.copy() }
    }
}

/// A square wave oscillator.
#[derive(Debug)]
pub struct SquareWave<T> {
    phase: Phase<T>,
}

impl<T> View for SquareWave<T> {
    type V = PhasePoint<T>;

    /// The position that the next pull hands out.
    closed spec fn view(&self) -> PhasePoint<T> {
        self.phase.at(Waveform::Square)
    }
}

impl<T: Copy> SquareWave<T> {
    /// A square wave of the given frequency at the default sample rate,
    /// starting at index zero.
    pub fn new(frequency: T) -> (wave: Self)
        ensures
            wave@ == PhasePoint::start(Waveform::Square, frequency, crate::SAMPLE_RATE),
    {
        SquareWave { phase: Phase::start(frequency, crate::SAMPLE_RATE) }
    }

    /// A square wave of the given frequency at the given sample rate,
    /// starting at index zero.
    pub fn with_sample_rate(frequency: T, sample_rate: u32) -> (wave: Self)
        ensures
            wave@ == PhasePoint::start(Waveform::Square, frequency, sample_rate),
    {
        SquareWave { phase: Phase::start(frequency, sample_rate) }
    }

    /// The frequency the oscillator was built with.
    pub fn frequency(&self) -> (frequency: T)
        ensures
            frequency == self@.frequency,
    {
        self.phase.frequency
    }

    /// The sample rate the oscillator was built with.
    pub fn sample_rate(&self) -> (sample_rate: u32)
        ensures
            sample_rate == self@.sample_rate,
    {
        self.phase.sample_rate
    }

    /// Hands out the current position, then moves the phase index on by
    /// one, back to zero when it reaches the sample rate.
    pub fn next_point(&mut self) -> (point: PhasePoint<T>)
        ensures
            point == old(self)@,
            point.wf(),
            point.waveform == Waveform::Square,
            final(self)@ == old(self)@.advanced(1),
        no_unwind
    {
        self.phase.next_point(Waveform::Square)
    }
}

impl<T: Copy> Clone for SquareWave<T> {
    fn clone(&self) -> (copy: Self)
        ensures
            copy@ == self@,
    {
        SquareWave { phase: self.phase.copy() }
    }
}

/// A sawtooth oscillator.
#[derive(Debug)]
pub struct SawtoothWave<T> {
    phase: Phase<T>,
}

impl<T> View for SawtoothWave<T> {
    type V = PhasePoint<T>;

    /// The position that the next pull hands out.
    closed spec fn view(&self) -> PhasePoint<T> {
        self.phase.at(Waveform::Sawtooth)
    }
}

impl<T: Copy> SawtoothWave<T> {
    /// A sawtooth of the given frequency at the default sample rate,
    /// starting at index zero.
    pub fn new(frequency: T) -> (wave: Self)
        ensures
            wave@ == PhasePoint::start(Waveform::Sawtooth, frequency, crate::SAMPLE_RATE),
    {
        SawtoothWave { phase: Phase::start(frequency, crate::SAMPLE_RATE) }
    }

    /// A sawtooth of the given frequency at the given sample rate,
    /// starting at index zero.
    pub fn with_sample_rate(frequency: T, sample_rate: u32) -> (wave: Self)
        ensures
            wave@ == PhasePoint::start(Waveform::Sawtooth, frequency, sample_rate),
    {
        SawtoothWave { phase: Phase::start(frequency, sample_rate) }
    }

    /// The frequency the oscillator was built with.
    pub fn frequency(&self) -> (frequency: T)
        ensures
            frequency == self@.frequency,
    {
        self.phase.frequency
    }

    /// The sample rate the oscillator was built with.
    pub fn sample_rate(&self) -> (sample_rate: u32)
        ensures
            sample_rate == self@.sample_rate,
    {
        self.phase.sample_rate
    }

    /// Hands out the current position, then moves the phase index on by
    /// one, back to zero when it reaches the sample rate.
    pub fn next_point(&mut self) -> (point: PhasePoint<T>)
        ensures
            point == old(self)@,
            point.wf(),
            point.waveform == Waveform::Sawtooth,
            final(self)@ == old(self)@.advanced(1),
        no_unwind
    {
        self.phase.next_point(Waveform::Sawtooth)
    }
}

impl<T: Copy> Clone for SawtoothWave<T> {
    fn clone(&self) -> (copy: Self)
        ensures
            copy@ == self@,
    {
        SawtoothWave { phase: self.phase.copy() }
    }
}

/// A triangle wave oscillator.
#[derive(Debug)]
pub struct TriangleWave<T> {
    phase: Phase<T>,
}

impl<T> View for TriangleWave<T> {
    type V = PhasePoint<T>;

    /// The position that the next pull hands out.
    closed spec fn view(&self) -> PhasePoint<T> {
        self.phase.at(Waveform::Triangle)
    }
}

impl<T: Copy> TriangleWave<T> {
    /// A triangle wave of the given frequency at the default sample rate,
    /// starting at index zero.
    pub fn new(frequency: T) -> (wave: Self)
        ensures
            wave@ == PhasePoint::start(Waveform::Triangle, frequency, crate::SAMPLE_RATE),
    {
        TriangleWave { phase: Phase::start(frequency, crate::SAMPLE_RATE) }
    }

    /// A triangle wave of the given frequency at the given sample rate,
    /// starting at index zero.
    pub fn with_sample_rate(frequency: T, sample_rate: u32) -> (wave: Self)
        ensures
            wave@ == PhasePoint::start(Waveform::Triangle, frequency, sample_rate),
    {
        TriangleWave { phase: Phase::start(frequency, sample_rate) }
    }

    /// The frequency the oscillator was built with.
    pub fn frequency(&self) -> (frequency: T)
        ensures
            frequency == self@.frequency,
    {
        self.phase.frequency
    }

    /// The sample rate the oscillator was built with.
    pub fn sample_rate(&self) -> (sample_rate: u32)
        ensures
            sample_rate == self@.sample_rate,
    {
        self.phase.sample_rate
    }

    /// Hands out the current position, then moves the phase index on by
    /// one, back to zero when it reaches the sample rate.
    pub fn next_point(&mut self) -> (point: PhasePoint<T>)
        ensures
            point == old(self)@,
            point.wf(),
            point.waveform == Waveform::Triangle,
            final(self)@ == old(self)@.advanced(1),
        no_unwind
    {
        self.phase.next_point(Waveform::Triangle)
    }
}

impl<T: Copy> Clone for TriangleWave<T> {
    fn clone(&self) -> (copy: Self)
        ensures
            copy@ == self@,
    {
        TriangleWave { phase: self.phase.copy() }
    }
}

/// The silence generator: it yields one fixed value, for ever.
#[derive(Debug)]
pub struct Constant<T> {
    value: T,
}

impl<T> View for Constant<T> {
    type V = T;

    /// The value that every pull yields.
    closed spec fn view(&self) -> T {
        self.value
    }
}

impl<T: Copy> Constant<T> {
    /// A generator that always yields `value`.
    pub fn new(value: T) -> (constant: Self)
        ensures
            constant@ == value,
    {
        Constant { value }
    }

    /// The fixed value.
    pub fn next_value(&self) -> (value: T)
        ensures
            value == self@,
        no_unwind
    {
        self.value
    }
}

impl<T: Copy> Clone for Constant<T> {
    fn clone(&self) -> (copy: Self)
        ensures
            copy@ == self@,
    {
        Constant { value: self.value }
    }
}

/// The one active sound source: silence or one of the four oscillators.
#[derive(Debug)]
pub enum Generator<T> {
    Silence(Constant<T>),
    Sine(SineWave<T>),
    Square(SquareWave<T>),
    Sawtooth(SawtoothWave<T>),
    Triangle(TriangleWave<T>),
}

impl<T> View for Generator<T> {
    type V = Pull<T>;

    /// What the next pull yields. A generator is its view and nothing more.
    open spec fn view(&self) -> Pull<T> {
        match self {
            Generator::Silence(constant) => Pull::Hold(constant@),
            Generator::Sine(wave) => Pull::Evaluate(wave@),
            Generator::Square(wave) => Pull::Evaluate(wave@),
            Generator::Sawtooth(wave) => Pull::Evaluate(wave@),
            Generator::Triangle(wave) => Pull::Evaluate(wave@),
        }
    }
}

impl<T: Copy> Generator<T> {
    /// The generator that holds `value`.
    pub fn silence(value: T) -> (generator: Self)
        ensures
            generator@ == Pull::Hold(value),
    {
        Generator::Silence(Constant::new(value))
    }

    /// An oscillator of the given waveform, starting at index zero.
    pub fn tone(waveform: Waveform, frequency: T, sample_rate: u32) -> (generator: Self)
        ensures
            generator@ == Pull::Evaluate(PhasePoint::start(waveform, frequency, sample_rate)),
    {
        match waveform {
            Waveform::Sine => Generator::Sine(SineWave::with_sample_rate(frequency, sample_rate)),
            Waveform::Square => Generator::Square(
                SquareWave::with_sample_rate(frequency, sample_rate),
            ),
            Waveform::Sawtooth => Generator::Sawtooth(
                SawtoothWave::with_sample_rate(frequency, sample_rate),
            ),
            Waveform::Triangle => Generator::Triangle(
                TriangleWave::with_sample_rate(frequency, sample_rate),
            ),
        }
    }

    /// Yields what the generator stands at and moves an oscillator on by
    /// one sample. Silence stays as it is.
    pub fn pull(&mut self) -> (pulled: Pull<T>)
        ensures
            pulled == old(self)@,
            pulled.wf(),
            final(self)@ == old(self)@.advanced(1),
        no_unwind
    {
        match self {
            Generator::Silence(constant) => Pull::Hold(constant.next_value()),
            Generator::Sine(wave) => Pull::Evaluate(wave.next_point()),
            Generator::Square(wave) => Pull::Evaluate(wave.next_point()),
            Generator::Sawtooth(wave) => Pull::Evaluate(wave.next_point()),
            Generator::Triangle(wave) => Pull::Evaluate(wave.next_point()),
        }
    }

    /// The frequency of the oscillator, or nothing while silent.
    pub fn frequency(&self) -> (frequency: Option<T>)
        ensures
            frequency == self@.frequency(),
    {
        match self {
            Generator::Silence(_) => None,
            Generator::Sine(wave) => Some(wave.frequency()),
            Generator::Square(wave) => Some(wave.frequency()),
            Generator::Sawtooth(wave) => Some(wave.frequency()),
            Generator::Triangle(wave) => Some(wave.frequency()),
        }
    }

    /// Pulls once and turns what came into a sample: the held value as it
    /// is, a position through `render`.
    pub fn next_sample<R: Fn(PhasePoint<T>) -> T>(&mut self, render: &R) -> (sample: T)
        requires
            accepts(*render, old(self)@),
        ensures
            rendered(old(self)@, *render, sample),
            final(self)@ == old(self)@.advanced(1),
            final(self)@.wf(),
    {
        match self.pull() {
            Pull::Hold(value) => value,
            Pull::Evaluate(point) => render(point),
        }
    }

    /// Fills `block` with the next samples, one pull for each, in order.
    pub fn fill<R: Fn(PhasePoint<T>) -> T>(&mut self, block: &mut [T], render: &R)
        requires
            forall|i: nat|
                i < old(block)@.len() ==> accepts(*render, #[trigger] old(self)@.advanced(i)),
        ensures
            final(block)@.len() == old(block)@.len(),
            block_rendered(old(self)@, *render, final(block)@),
            final(self)@ == old(self)@.advanced(old(block)@.len()),
    {
        proof {
            match self {
                Generator::Silence(_) => {},
                Generator::Sine(wave) => {
                    use_type_invariant(&wave.phase);
                },
                Generator::Square(wave) => {
                    use_type_invariant(&wave.phase);
                },
                Generator::Sawtooth(wave) => {
                    use_type_invariant(&wave.phase);
                },
                Generator::Triangle(wave) => {
                    use_type_invariant(&wave.phase);
                },
            }
            lemma_pull_advanced_zero(self@);
        }
        let ghost start = self@;
        let n: usize = block.len();
        let mut i: usize = 0;
        while i < n
            invariant
                i <= n,
                n == block@.len(),
                self@ == start.advanced(i as nat),
                forall|k: nat| k < n ==> accepts(*render, #[trigger] start.advanced(k)),
                forall|j: int|
                    0 <= j < i ==> rendered(start.advanced(j as nat), *render, #[trigger] block@[j]),
            decreases n - i,
        {
            let sample = self.next_sample(render);
            block[i] = sample;
            proof {
                lemma_pull_advanced_add(start, i as nat, 1);
            }
            i = i + 1;
        }
    }
}

/// Whether `render` may be called on what `pulled` asks for.
pub open spec fn accepts<T, R: Fn(PhasePoint<T>) -> T>(render: R, pulled: Pull<T>) -> bool {
    pulled matches Pull::Evaluate(point) ==> call_requires(render, (point,))
}

/// Whether `sample` is what `pulled` gives: the held value, or a result of
/// `render` at the position.
pub open spec fn rendered<T, R: Fn(PhasePoint<T>) -> T>(
    pulled: Pull<T>,
    render: R,
    sample: T,
) -> bool {
    match pulled {
        Pull::Hold(value) => sample == value,
        Pull::Evaluate(point) => call_ensures(render, (point,), sample),
    }
}

/// Whether `block` holds, in order, the samples of successive pulls that
/// begin at `start`.
pub open spec fn block_rendered<T, R: Fn(PhasePoint<T>) -> T>(
    start: Pull<T>,
    render: R,
    block: Seq<T>,
) -> bool {
    forall|i: int|
        0 <= i < block.len() ==> rendered(start.advanced(i as nat), render, #[trigger] block[i])
}

/// Builds the four oscillators at the default sample rate.
pub struct Oscillator {}

impl Oscillator {
    /// A sine of the given frequency, starting at index zero.
    pub fn sine_wave<T: Copy>(frequency: T) -> (wave: SineWave<T>)
        ensures
            wave@ == PhasePoint::start(Waveform::Sine, frequency, crate::SAMPLE_RATE),
    {
        SineWave::new(frequency)
    }

    /// A square wave of the given frequency, starting at index zero.
    pub fn square_wave<T: Copy>(frequency: T) -> (wave: SquareWave<T>)
        ensures
            wave@ == PhasePoint::start(Waveform::Square, frequency, crate::SAMPLE_RATE),
    {
        SquareWave::new(frequency)
    }

    /// A sawtooth of the given frequency, starting at index zero.
    pub fn sawtooth_wave<T: Copy>(frequency: T) -> (wave: SawtoothWave<T>)
        ensures
            wave@ == PhasePoint::start(Waveform::Sawtooth, frequency, crate::SAMPLE_RATE),
    {
        SawtoothWave::new(frequency)
    }

    /// A triangle wave of the given frequency, starting at index zero.
    pub fn triangle_wave<T: Copy>(frequency: T) -> (wave: TriangleWave<T>)
        ensures
            wave@ == PhasePoint::start(Waveform::Triangle, frequency, crate::SAMPLE_RATE),
    {
        TriangleWave::new(frequency)
    }
}

/// A well-formed position advanced by nothing is itself.
pub proof fn lemma_advanced_zero<T>(point: PhasePoint<T>)
    requires
        point.wf(),
    ensures
        point.advanced(0) == point,
{
    if point.sample_rate != 0 {
        lemma_small_mod(point.phase_index as nat, point.sample_rate as nat);
    }
}

/// Advancing stays in phase.
pub proof fn lemma_advanced_wf<T>(point: PhasePoint<T>, n: nat)
    ensures
        point.advanced(n).wf(),
        point.advanced(n).phase_index == wrapped_index(
            point.phase_index as nat + n,
            point.sample_rate as nat,
        ),
{
}

/// Advancing by `a` and then by `b` is advancing by `a + b`.
pub proof fn lemma_advanced_add<T>(point: PhasePoint<T>, a: nat, b: nat)
    ensures
        point.advanced(a).advanced(b) == point.advanced(a + b),
{
    let rate = point.sample_rate as int;
    if rate != 0 {
        let i = point.phase_index as int;
        lemma_add_mod_noop(i + a, b as int, rate);
        lemma_small_mod(((b as int) % rate) as nat, rate as nat);
        assert((((i + a) % rate) + (b as int) % rate) % rate == (i + a + b) % rate);
        lemma_add_mod_noop((i + a) % rate, b as int, rate);
        lemma_small_mod(((i + a) % rate) as nat, rate as nat);
    }
}

/// What a well-formed generator yields after no pulls is what it yields.
pub proof fn lemma_pull_advanced_zero<T>(pulled: Pull<T>)
    requires
        pulled.wf(),
    ensures
        pulled.advanced(0) == pulled,
{
    if let Pull::Evaluate(point) = pulled {
        lemma_advanced_zero(point);
    }
}

/// `a` pulls and then `b` pulls are `a + b` pulls.
pub proof fn lemma_pull_advanced_add<T>(pulled: Pull<T>, a: nat, b: nat)
    ensures
        pulled.advanced(a).advanced(b) == pulled.advanced(a + b),
{
    if let Pull::Evaluate(point) = pulled {
        lemma_advanced_add(point, a, b);
    }
}

/// From index zero, the position pulled after `n` earlier pulls has phase
/// index `n` modulo the sample rate.
pub proof fn lemma_nth_phase_index<T>(waveform: Waveform, frequency: T, sample_rate: u32, n: nat)
    requires
        sample_rate > 0,
    ensures
        PhasePoint::start(waveform, frequency, sample_rate).advanced(n) == (PhasePoint {
            waveform,
            frequency,
            phase_index: (n % (sample_rate as nat)) as u32,
            sample_rate,
        }),
{
}

/// A block rendered from index zero holds at each place `n` a sample that
/// `render` gave for phase index `n` modulo the sample rate, at the
/// frequency and rate the oscillator was built with.
pub proof fn lemma_block_from_start<T, R: Fn(PhasePoint<T>) -> T>(
    waveform: Waveform,
    frequency: T,
    sample_rate: u32,
    render: R,
    block: Seq<T>,
    n: int,
)
    requires
        sample_rate > 0,
        block_rendered(
            Pull::Evaluate(PhasePoint::start(waveform, frequency, sample_rate)),
            render,
            block,
        ),
        0 <= n < block.len(),
    ensures
        call_ensures(
            render,
            (PhasePoint {
                waveform,
                frequency,
                phase_index: (n % (sample_rate as int)) as u32,
                sample_rate,
            },),
            block[n],
        ),
{
    lemma_nth_phase_index(waveform, frequency, sample_rate, n as nat);
    let start = Pull::Evaluate(PhasePoint::start(waveform, frequency, sample_rate));
    assert(rendered(start.advanced(n as nat), render, block[n]));
}

/// A block rendered from silence holds the silence value at every place.
pub proof fn lemma_block_of_silence<T, R: Fn(PhasePoint<T>) -> T>(
    value: T,
    render: R,
    block: Seq<T>,
)
    requires
        block_rendered(Pull::Hold(value), render, block),
    ensures
        block == Seq::new(block.len(), |i: int| value),
{
    assert forall|i: int| 0 <= i < block.len() implies block[i] == value by {
        assert(rendered(Pull::Hold(value).advanced(i as nat), render, block[i]));
    }
    assert(block =~= Seq::new(block.len(), |i: int| value));
}

} // verus!
