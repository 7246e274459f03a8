//! Decoding of three-byte control messages.

use vstd::prelude::*;

verus! {

/// Status nibble of a key release.
pub const STATUS_KEY_UP: u8 = 0b1000;

/// Status nibble of a key press.
pub const STATUS_KEY_DOWN: u8 = 0b1001;

/// Status nibble of a controller change.
pub const STATUS_CONTROLLER_CHANGE: u8 = 0b1011;

/// A decoded control message.
#[derive(Clone, Copy, Debug, PartialEq, Eq)]
pub enum MidiMessage {
    KeyDown { channel: u8, key: u8, velocity: u8 },
    KeyUp { channel: u8, key: u8, velocity: u8 },
    ControllerChange { channel: u8, controller: u8, value: u8 },
}

/// The bytes do not form a supported control message.
#[derive(Clone, Copy, Debug, PartialEq, Eq)]
pub struct MalformedMessage;

/// The high four bits of a status byte: the kind of message.
pub open spec fn status_of(status_byte: u8) -> u8 {
    status_byte >> 4
}

/// The low four bits of a status byte: the channel.
pub open spec fn channel_of(status_byte: u8) -> u8 {
    status_byte & 0b1111
}

/// Whether a status nibble selects one of the three supported kinds.
pub open spec fn supported_status(status: u8) -> bool {
    status == STATUS_KEY_UP || status == STATUS_KEY_DOWN || status == STATUS_CONTROLLER_CHANGE
}

/// What a byte sequence decodes to.
///
/// The first byte is the status byte; the two bytes after it are the data
/// fields, in wire order. Bytes after the third are ignored.
pub open spec fn decoded(bytes: Seq<u8>) -> Result<MidiMessage, MalformedMessage> {
    if bytes.len() < 3 {
        Err(MalformedMessage)
    } else {
        let channel = channel_of(bytes[0]);
        let status = status_of(bytes[0]);
        if status == STATUS_KEY_UP {
            Ok(MidiMessage::KeyUp { channel, key: bytes[1], velocity: bytes[2] })
        } else if status == STATUS_KEY_DOWN {
            Ok(MidiMessage::KeyDown { channel, key: bytes[1], velocity: bytes[2] })
        } else if status == STATUS_CONTROLLER_CHANGE {
            Ok(MidiMessage::ControllerChange { channel, controller: bytes[1], value: bytes[2] })
        } else {
            Err(MalformedMessage)
        }
    }
}

/// The status byte that carries `status` in its high and `channel` in its
/// low four bits.
pub open spec fn status_byte(status: u8, channel: u8) -> u8 {
    (status << 4) | channel
}

impl MidiMessage {
    /// Decodes one control message from the start of `bytes`.
    pub fn decode(bytes: &[u8]) -> (result: Result<MidiMessage, MalformedMessage>)
        ensures
            result == decoded(bytes@),
            result.is_ok() <==> bytes@.len() >= 3 && supported_status(status_of(bytes@[0])),
    {
        if bytes.len() < 3 {
            return Err(MalformedMessage);
        }
        let status_byte: u8 = bytes[0];
        let channel: u8 = status_byte & 0b1111;
        let status: u8 = status_byte >> 4;
        if status == STATUS_KEY_UP {
            Ok(MidiMessage::KeyUp { channel, key: bytes[1], velocity: bytes[2] })
        } else if status == STATUS_KEY_DOWN {
            Ok(MidiMessage::KeyDown { channel, key: bytes[1], velocity: bytes[2] })
        } else if status == STATUS_CONTROLLER_CHANGE {
            Ok(MidiMessage::ControllerChange { channel, controller: bytes[1], value: bytes[2] })
        } else {
            Err(MalformedMessage)
        }
    }
}

/// A status byte gives back the two nibbles it was made of.
pub proof fn lemma_status_byte(status: u8, channel: u8)
    requires
        status < 16,
        channel < 16,
    ensures
        status_of(status_byte(status, channel)) == status,
        channel_of(status_byte(status, channel)) == channel,
{
    assert(((status << 4) | channel) >> 4 == status && ((status << 4) | channel) & 0b1111
        == channel) by (bit_vector)
        requires
            status < 16,
            channel < 16,
    ;
}

/// Both nibbles of a status byte lie below sixteen: a decoded channel is one
/// of the sixteen channels.
pub proof fn lemma_nibbles_in_range(byte: u8)
    ensures
        status_of(byte) < 16,
        channel_of(byte) < 16,
{
    assert(byte >> 4 < 16 && byte & 0b1111 < 16) by (bit_vector);
}

/// The wire layout: three bytes laid out as status byte, first data byte,
/// second data byte decode to the message of that kind with that channel
/// and those two fields, for each of the three supported kinds and whatever
/// follows the third byte.
pub proof fn lemma_decode_layout(channel: u8, first: u8, second: u8, rest: Seq<u8>)
    requires
        channel < 16,
    ensures
        decoded(seq![status_byte(STATUS_KEY_UP, channel), first, second] + rest) == Ok::<
            MidiMessage,
            MalformedMessage,
        >(MidiMessage::KeyUp { channel, key: first, velocity: second }),
        decoded(seq![status_byte(STATUS_KEY_DOWN, channel), first, second] + rest) == Ok::<
            MidiMessage,
            MalformedMessage,
        >(MidiMessage::KeyDown { channel, key: first, velocity: second }),
        decoded(seq![status_byte(STATUS_CONTROLLER_CHANGE, channel), first, second] + rest)
            == Ok::<MidiMessage, MalformedMessage>(
            MidiMessage::ControllerChange { channel, controller: first, value: second },
        ),
{
    lemma_status_byte(STATUS_KEY_UP, channel);
    lemma_status_byte(STATUS_KEY_DOWN, channel);
    lemma_status_byte(STATUS_CONTROLLER_CHANGE, channel);
}

/// Decoding fails exactly on a sequence of fewer than three bytes and on a
/// status nibble outside the three supported kinds. Where it succeeds, the
/// first three bytes alone decide the message.
pub proof fn lemma_decode_fails(bytes: Seq<u8>)
    ensures
        decoded(bytes) is Err <==> bytes.len() < 3 || !supported_status(status_of(bytes[0])),
        bytes.len() >= 3 ==> decoded(bytes) == decoded(bytes.take(3)),
{
}

} // verus!
