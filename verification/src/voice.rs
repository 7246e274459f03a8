//! The single active voice and the events that swap it.
//!
//! The voice is silent or sounding. A key press replaces whatever sounds
//! with a fresh oscillator at the pitch of the key; any key release
//! silences the voice; a controller change leaves it alone.

use vstd::prelude::*;
use crate::midi::MidiMessage;
use crate::oscillator::Generator;
use crate::oscillator::PhasePoint;
use crate::oscillator::Pull;
use crate::oscillator::Waveform;
use crate::oscillator::accepts;
use crate::oscillator::block_rendered;
use crate::oscillator::rendered;

verus! {

/// The one generator slot, with what is needed to build its successor.
#[derive(Debug)]
pub struct ActiveVoice<T> {
    generator: Generator<T>,
    waveform: Waveform,
    rest: T,
    sample_rate: u32,
}

/// The mathematical content of an `ActiveVoice`.
pub struct VoiceView<T> {
    /// What the next pull yields.
    pub generator: Pull<T>,
    /// The waveform that a key press starts.
    pub waveform: Waveform,
    /// The value held while no key sounds.
    pub rest: T,
    /// The sample rate given to every oscillator.
    pub sample_rate: u32,
}

impl<T> VoiceView<T> {
    /// Whether the generator is one that this voice can have built: silence
    /// at the rest value, or an oscillator of the voice's waveform and
    /// sample rate with its phase index below that rate.
    pub open spec fn wf(self) -> bool {
        match self.generator {
            Pull::Hold(value) => value == self.rest,
            Pull::Evaluate(point) => {
                &&& point.waveform == self.waveform
                &&& point.sample_rate == self.sample_rate
                &&& point.wf()
            },
        }
    }

    /// Whether no key sounds.
    pub open spec fn is_silent(self) -> bool {
        self.generator == Pull::Hold(self.rest)
    }

    /// The voice with its generator replaced by silence.
    pub open spec fn silenced(self) -> VoiceView<T> {
        VoiceView {
            generator: Pull::Hold(self.rest),
            waveform: self.waveform,
            rest: self.rest,
            sample_rate: self.sample_rate,
        }
    }

    /// The voice with its generator replaced by a fresh oscillator.
    pub open spec fn sounding(self, frequency: T) -> VoiceView<T> {
        VoiceView {
            generator: Pull::Evaluate(
                PhasePoint::start(self.waveform, frequency, self.sample_rate),
            ),
            waveform: self.waveform,
            rest: self.rest,
            sample_rate: self.sample_rate,
        }
    }

    /// The voice after `n` pulls.
    pub open spec fn pulled(self, n: nat) -> VoiceView<T> {
        VoiceView {
            generator: self.generator.advanced(n),
            waveform: self.waveform,
            rest: self.rest,
            sample_rate: self.sample_rate,
        }
    }

    /// Whether `after` is a voice that `event` may leave behind, the pitch
    /// of a key being whatever `pitch` returns for it.
    pub open spec fn responds<P: Fn(u8) -> T>(
        self,
        event: MidiMessage,
        pitch: P,
        after: VoiceView<T>,
    ) -> bool {
        match event {
            MidiMessage::KeyDown { key, .. } => exists|frequency: T|
                #[trigger] call_ensures(pitch, (key,), frequency) && after == self.sounding(
                    frequency,
                ),
            MidiMessage::KeyUp { .. } => after == self.silenced(),
            MidiMessage::ControllerChange { .. } => after == self,
        }
    }
}

impl<T> View for ActiveVoice<T> {
    type V = VoiceView<T>;

    closed spec fn view(&self) -> VoiceView<T> {
        VoiceView {
            generator: self.generator@,
            waveform: self.waveform,
            rest: self.rest,
            sample_rate: self.sample_rate,
        }
    }
}

impl<T> ActiveVoice<T> {
    #[verifier::type_invariant]
    spec fn well_formed(self) -> bool {
        self@.wf()
    }
}

impl<T: Copy> ActiveVoice<T> {
    /// A silent voice whose key presses start a sine.
    pub fn new(rest: T, sample_rate: u32) -> (voice: Self)
        ensures
            voice@.wf(),
            voice@.is_silent(),
            voice@.waveform == Waveform::Sine,
            voice@.rest == rest,
            voice@.sample_rate == sample_rate,
    {
        ActiveVoice {
            generator: Generator::silence(rest),
            waveform: Waveform::Sine,
            rest,
            sample_rate,
        }
    }

    /// A silent voice whose key presses start the given waveform.
    pub fn with_waveform(waveform: Waveform, rest: T, sample_rate: u32) -> (voice: Self)
        ensures
            voice@.wf(),
            voice@.is_silent(),
            voice@.waveform == waveform,
            voice@.rest == rest,
            voice@.sample_rate == sample_rate,
    {
        ActiveVoice { generator: Generator::silence(rest), waveform, rest, sample_rate }
    }

    /// Whether no key sounds.
    pub fn is_silent(&self) -> (silent: bool)
        ensures
            self@.wf(),
            silent == self@.is_silent(),
    {
        proof {
            use_type_invariant(self);
        }
        match &self.generator {
            Generator::Silence(_) => true,
            _ => false,
        }
    }

    /// The value held while no key sounds.
    pub fn rest(&self) -> (rest: T)
        ensures
            rest == self@.rest,
    {
        self.rest
    }

    /// The sample rate given to every oscillator.
    pub fn sample_rate(&self) -> (sample_rate: u32)
        ensures
            sample_rate == self@.sample_rate,
    {
        self.sample_rate
    }

    /// The waveform that a key press starts.
    pub fn waveform(&self) -> (waveform: Waveform)
        ensures
            waveform == self@.waveform,
    {
        self.waveform
    }

    /// The frequency that sounds, or nothing while silent.
    pub fn frequency(&self) -> (frequency: Option<T>)
        ensures
            frequency == self@.generator.frequency(),
    {
        self.generator.frequency()
    }

    /// Starts a fresh oscillator at `frequency`, whatever sounded before.
    pub fn note_on(&mut self, frequency: T)
        ensures
            final(self)@ == old(self)@.sounding(frequency),
    {
        self.generator = Generator::tone(self.waveform, frequency, self.sample_rate);
    }

    /// Silences the voice.
    pub fn note_off(&mut self)
        ensures
            final(self)@ == old(self)@.silenced(),
    {
        self.generator = Generator::silence(self.rest);
    }

    /// Applies one decoded event. The pitch of a pressed key is asked of
    /// `pitch`; no other event calls it.
    pub fn handle<P: Fn(u8) -> T>(&mut self, event: &MidiMessage, pitch: &P)
        requires
            *event matches MidiMessage::KeyDown { key, .. } ==> call_requires(*pitch, (key,)),
        ensures
            old(self)@.responds(*event, *pitch, final(self)@),
            final(self)@.wf(),
    {
        proof {
            use_type_invariant(&*self);
        }
        match event {
            MidiMessage::KeyDown { key, .. } => {
                let frequency = pitch(*key);
                self.note_on(frequency);
            },
            MidiMessage::KeyUp { .. } => {
                self.note_off();
            },
            MidiMessage::ControllerChange { .. } => {},
        }
    }

    /// Yields what the generator stands at and moves it on by one sample.
    pub fn pull(&mut self) -> (pulled: Pull<T>)
        ensures
            pulled == old(self)@.generator,
            pulled.wf(),
            final(self)@ == old(self)@.pulled(1),
            final(self)@.wf(),
        no_unwind
    {
        proof {
            use_type_invariant(&*self);
        }
        self.generator.pull()
    }

    /// Pulls once and turns what came into a sample through `render`.
    pub fn next_sample<R: Fn(PhasePoint<T>) -> T>(&mut self, render: &R) -> (sample: T)
        requires
            accepts(*render, old(self)@.generator),
        ensures
            rendered(old(self)@.generator, *render, sample),
            final(self)@ == old(self)@.pulled(1),
            final(self)@.wf(),
    {
        match self.pull() {
            Pull::Hold(value) => value,
            Pull::Evaluate(point) => render(point),
        }
    }

    /// Fills `block` with the next samples of the voice, in order.
    pub fn fill<R: Fn(PhasePoint<T>) -> T>(&mut self, block: &mut [T], render: &R)
        requires
            forall|i: nat|
                i < old(block)@.len() ==> accepts(
                    *render,
                    #[trigger] old(self)@.generator.advanced(i),
                ),
        ensures
            final(block)@.len() == old(block)@.len(),
            block_rendered(old(self)@.generator, *render, final(block)@),
            final(self)@ == old(self)@.pulled(old(block)@.len()),
            final(self)@.wf(),
    {
        // The generator is worked on outside the voice, which is silent
        // meanwhile: should `render` panic, the voice is left silent.
        proof {
            use_type_invariant(&*self);
        }
        let mut generator = Generator::silence(self.rest);
        std::mem::swap(&mut self.generator, &mut generator);
        generator.fill(block, render);
        std::mem::swap(&mut self.generator, &mut generator);
    }
}

/// What each kind of event leaves behind, whatever sounded before: a key
/// press a fresh oscillator at index zero with a pitch that `pitch` gave for
/// the key, a key release silence, a controller change the voice as it was.
/// A well-formed voice stays well formed.
pub proof fn lemma_responds<T, P: Fn(u8) -> T>(
    before: VoiceView<T>,
    event: MidiMessage,
    pitch: P,
    after: VoiceView<T>,
)
    requires
        before.wf(),
        before.responds(event, pitch, after),
    ensures
        after.wf(),
        after.waveform == before.waveform,
        after.rest == before.rest,
        after.sample_rate == before.sample_rate,
        event matches MidiMessage::KeyDown { key, .. } ==> {
            &&& after.generator matches Pull::Evaluate(point)
            &&& call_ensures(pitch, (key,), point.frequency)
            &&& point == PhasePoint::start(before.waveform, point.frequency, before.sample_rate)
        },
        event is KeyUp ==> after.is_silent(),
        event is ControllerChange ==> after == before,
{
}

/// A key press forgets what sounded before: two voices that differ only in
/// their generator sound alike once the same frequency has started.
pub proof fn lemma_key_press_replaces<T>(first: VoiceView<T>, second: VoiceView<T>, frequency: T)
    requires
        first.waveform == second.waveform,
        first.rest == second.rest,
        first.sample_rate == second.sample_rate,
    ensures
        first.sounding(frequency) == second.sounding(frequency),
        first.silenced() == second.silenced(),
        first.sounding(frequency).silenced() == first.silenced(),
{
}

} // verus!
