//! The producer: it takes in control messages, drives the voice and keeps
//! the shared block supplied.
//!
//! One turn of the producer's loop is `receive`, where a message is
//! pending, followed by `produce`. The caller polls for messages and holds
//! the lock round `produce`.

use vstd::prelude::*;
use crate::handoff::SharedBlock;
use crate::handoff::SharedBlockView;
use crate::midi::decoded;
use crate::midi::MalformedMessage;
use crate::midi::MidiMessage;
use crate::oscillator::PhasePoint;
use crate::oscillator::accepts;
use crate::oscillator::block_rendered;
use crate::voice::ActiveVoice;
use crate::voice::VoiceView;

verus! {

/// The voice and the private block that is filled before it is published.
#[derive(Debug)]
pub struct Producer<T> {
    voice: ActiveVoice<T>,
    working: Vec<T>,
}

/// The mathematical content of a `Producer`. What the working block holds
/// between two turns is of no consequence and is not part of it.
pub struct ProducerView<T> {
    pub voice: VoiceView<T>,
    pub block_len: nat,
}

/// What one turn of the producer did.
#[derive(Clone, Copy, Debug, PartialEq, Eq)]
pub struct Turn {
    /// What the pending message decoded to, if one was pending.
    pub event: Option<Result<MidiMessage, MalformedMessage>>,
    /// Whether a block was published.
    pub published: bool,
}

impl<T> ProducerView<T> {
    /// Whether `after` is a producer that taking in `bytes` may leave
    /// behind: the voice has responded to the message the bytes decode to,
    /// or nothing has changed where they decode to none.
    pub open spec fn received<P: Fn(u8) -> T>(
        self,
        bytes: Seq<u8>,
        pitch: P,
        after: ProducerView<T>,
    ) -> bool {
        &&& after.block_len == self.block_len
        &&& match decoded(bytes) {
            Ok(event) => self.voice.responds(event, pitch, after.voice),
            Err(_) => after.voice == self.voice,
        }
    }

    /// Whether `after` and `shared_after` are a producer and a slot that
    /// supplying `shared` may leave behind. A ready slot and its producer
    /// stay as they are. A free slot becomes ready with one block of the
    /// voice's next samples, and the voice has moved on by that block.
    pub open spec fn produced<R: Fn(PhasePoint<T>) -> T>(
        self,
        shared: SharedBlockView<T>,
        render: R,
        after: ProducerView<T>,
        shared_after: SharedBlockView<T>,
    ) -> bool {
        if shared.ready {
            after == self && shared_after == shared
        } else {
            &&& shared_after.ready
            &&& shared_after.samples.len() == self.block_len
            &&& block_rendered(self.voice.generator, render, shared_after.samples)
            &&& after.voice == self.voice.pulled(self.block_len)
            &&& after.block_len == self.block_len
        }
    }
}

impl<T> View for Producer<T> {
    type V = ProducerView<T>;

    closed spec fn view(&self) -> ProducerView<T> {
        ProducerView { voice: self.voice@, block_len: self.working@.len() }
    }
}

impl<T: Copy> Producer<T> {
    /// A producer that drives `voice` and works in blocks of `block_len`
    /// samples.
    pub fn new(voice: ActiveVoice<T>, block_len: usize) -> (producer: Self)
        ensures
            producer@.voice == voice@,
            producer@.block_len == block_len,
    {
        let rest = voice.rest();
        let mut working: Vec<T> = Vec::new();
        let mut i: usize = 0;
        while i < block_len
            invariant
                i <= block_len,
                working@.len() == i,
            decreases block_len - i,
        {
            working.push(rest);
            i = i + 1;
        }
        Producer { voice, working }
    }

    /// The voice as it stands.
    pub fn voice(&self) -> (voice: &ActiveVoice<T>)
        ensures
            voice@ == self@.voice,
    {
        &self.voice
    }

    /// The number of samples in a block.
    pub fn block_len(&self) -> (len: usize)
        ensures
            len == self@.block_len,
    {
        self.working.len()
    }

    /// Takes in the bytes of one control message. A message that decodes is
    /// applied to the voice and handed back; one that does not is reported
    /// and leaves the producer as it was.
    pub fn receive<P: Fn(u8) -> T>(&mut self, bytes: &[u8], pitch: &P) -> (result: Result<
        MidiMessage,
        MalformedMessage,
    >)
        requires
            decoded(bytes@) matches Ok(MidiMessage::KeyDown { key, .. }) ==> call_requires(
                *pitch,
                (key,),
            ),
        ensures
            result == decoded(bytes@),
            old(self)@.received(bytes@, *pitch, final(self)@),
    {
        match MidiMessage::decode(bytes) {
            Ok(event) => {
                self.voice.handle(&event, pitch);
                Ok(event)
            },
            Err(error) => Err(error),
        }
    }

    /// Supplies the shared slot if it is free: pulls one block of samples
    /// from the voice into the working block and publishes it. A slot that
    /// still holds an unconsumed block is left alone, and so is the voice.
    pub fn produce<R: Fn(PhasePoint<T>) -> T>(
        &mut self,
        shared: &mut SharedBlock<T>,
        render: &R,
    ) -> (published: bool)
        requires
            old(self)@.block_len == old(shared)@.samples.len(),
            !old(shared)@.ready ==> forall|i: nat|
                i < old(self)@.block_len ==> accepts(
                    *render,
                    #[trigger] old(self)@.voice.generator.advanced(i),
                ),
        ensures
            published == !old(shared)@.ready,
            old(self)@.produced(old(shared)@, *render, final(self)@, final(shared)@),
    {
        if shared.is_ready() {
            return false;
        }
        self.voice.fill(self.working.as_mut_slice(), render);
        shared.publish(self.working.as_slice())
    }

    /// One turn of the producer's loop: takes in the pending message, if
    /// there is one, then supplies the shared slot if it is free.
    pub fn turn<P: Fn(u8) -> T, R: Fn(PhasePoint<T>) -> T>(
        &mut self,
        message: Option<&[u8]>,
        shared: &mut SharedBlock<T>,
        pitch: &P,
        render: &R,
    ) -> (turn: Turn)
        requires
            old(self)@.block_len == old(shared)@.samples.len(),
            message matches Some(bytes) ==> (decoded(bytes@) matches Ok(
                MidiMessage::KeyDown { key, .. },
            ) ==> call_requires(*pitch, (key,))),
            !old(shared)@.ready ==> forall|point: PhasePoint<T>|
                point.wf() ==> call_requires(*render, (point,)),
        ensures
            turn.event == match message {
                Some(bytes) => Some(decoded(bytes@)),
                None => None,
            },
            turn.published == !old(shared)@.ready,
            exists|between: ProducerView<T>|
                {
                    &&& match message {
                        Some(bytes) => old(self)@.received(bytes@, *pitch, between),
                        None => between == old(self)@,
                    }
                    &&& #[trigger] between.produced(
                        old(shared)@,
                        *render,
                        final(self)@,
                        final(shared)@,
                    )
                },
    {
        let event = match message {
            Some(bytes) => Some(self.receive(bytes, pitch)),
            None => None,
        };
        let ghost between = self@;
        proof {
            if !shared@.ready {
                assert forall|i: nat| i < between.block_len implies accepts(
                    *render,
                    #[trigger] between.voice.generator.advanced(i),
                ) by {
                    if let crate::oscillator::Pull::Evaluate(point) = between.voice.generator {
                        crate::oscillator::lemma_advanced_wf(point, i);
                    }
                }
            }
        }
        let published = self.produce(shared, render);
        Turn { event, published }
    }
}

} // verus!
