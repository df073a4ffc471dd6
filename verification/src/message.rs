//! Short messages for the audio device: how notes are packed into a word, and how a word
//! is transposed.

use vstd::prelude::*;

verus! {

/// The low byte of a short message: the status, whose upper half is the kind of message and
/// whose lower half is the channel.
pub open spec fn status_byte(message: u32) -> int {
    message as int % 256
}

/// The second byte of a short message, which for a note is the key number.
pub open spec fn key_field(message: u32) -> int {
    (message as int / 256) % 256
}

/// The third byte of a short message, which for a note is the velocity.
pub open spec fn velocity_field(message: u32) -> int {
    (message as int / 65536) % 256
}

/// Whether the message starts or stops a note.
pub open spec fn is_note_message(message: u32) -> bool {
    status_byte(message) / 16 == 8 || status_byte(message) / 16 == 9
}

/// The message with its key number shifted by `transpose` semitones. Only note messages
/// change, and only under a transposition other than zero. The shift is added to the three
/// message bytes as a multiple of 256, wrapping at the width of the word.
pub open spec fn transposed(message: u32, transpose: i32) -> u32 {
    if transpose != 0 && is_note_message(message) {
        ((message as int % 0x100_0000 + transpose as int * 256) % 0x1_0000_0000) as u32
    } else {
        message
    }
}

/// The status byte of a channel message: the kind in the upper half, the channel in the lower.
pub open spec fn channel_status(kind: u8, channel: u8) -> u8 {
    kind | channel
}

/// The short message that starts a note: status, key and velocity, lowest byte first.
pub open spec fn note_on_word(channel: u8, key: u8, velocity: u8) -> u32 {
    (channel_status(0x90, channel) as int + 256 * key as int + 65536 * velocity as int) as u32
}

/// The short message that stops a note: status and key, with no velocity.
pub open spec fn note_off_word(channel: u8, key: u8) -> u32 {
    (channel_status(0x80, channel) as int + 256 * key as int) as u32
}

pub fn note_on_message(channel: u8, key: u8, velocity: u8) -> (message: u32)
    ensures
        message == note_on_word(channel, key, velocity),
{
    let message = (0x90 | channel as u32) | (key as u32) << 8 | (velocity as u32) << 16;
    assert(message == (0x90u8 | channel) as int + 256 * key as int + 65536 * velocity as int)
        by (bit_vector)
        requires
            message == (0x90 | channel as u32) | (key as u32) << 8 | (velocity as u32) << 16,
    ;
    message
}

pub fn note_off_message(channel: u8, key: u8) -> (message: u32)
    ensures
        message == note_off_word(channel, key),
{
    let message = (0x80 | channel as u32) | (key as u32) << 8;
    assert(message == (0x80u8 | channel) as int + 256 * key as int) by (bit_vector)
        requires
            message == (0x80 | channel as u32) | (key as u32) << 8,
    ;
    message
}

/// On a channel below sixteen the status byte is the kind plus the channel.
pub proof fn lemma_channel_status(kind: u8, channel: u8)
    requires
        kind == 0x80 || kind == 0x90,
        channel < 16,
    ensures
        channel_status(kind, channel) == kind + channel,
{
    assert(kind | channel == kind + channel) by (bit_vector)
        requires
            kind == 0x80 || kind == 0x90,
            channel < 16,
    ;
}

/// The messages of a note on a channel below sixteen are note messages that carry the note's
/// channel, key and velocity in their fields.
pub proof fn lemma_note_words(channel: u8, key: u8, velocity: u8)
    requires
        channel < 16,
    ensures
        is_note_message(note_on_word(channel, key, velocity)),
        is_note_message(note_off_word(channel, key)),
        status_byte(note_on_word(channel, key, velocity)) == 0x90 + channel,
        status_byte(note_off_word(channel, key)) == 0x80 + channel,
        key_field(note_on_word(channel, key, velocity)) == key,
        key_field(note_off_word(channel, key)) == key,
        velocity_field(note_on_word(channel, key, velocity)) == velocity,
        velocity_field(note_off_word(channel, key)) == 0,
{
    lemma_channel_status(0x90, channel);
    lemma_channel_status(0x80, channel);
}

/// Transposing never alters the status byte: the kind of message and the channel stay.
pub proof fn lemma_transpose_keeps_status(message: u32, transpose: i32)
    ensures
        status_byte(transposed(message, transpose)) == status_byte(message),
        is_note_message(transposed(message, transpose)) == is_note_message(message),
{
    if transpose != 0 && is_note_message(message) {
        assert(((message as int % 0x100_0000 + transpose as int * 256) % 0x1_0000_0000) % 256
            == message as int % 256) by (bit_vector);
    }
}

/// Where the shifted key still fits its byte, transposing a note message replaces the key by
/// the shifted key and keeps the velocity.
pub proof fn lemma_transpose_shifts_key(message: u32, transpose: i32)
    requires
        is_note_message(message),
        0 <= key_field(message) + transpose < 256,
    ensures
        key_field(transposed(message, transpose)) == key_field(message) + transpose,
        velocity_field(transposed(message, transpose)) == velocity_field(message),
{
    if transpose != 0 {
        let m = message as int;
        let status = m % 256;
        let key = (m / 256) % 256;
        let velocity = (m / 65536) % 256;
        let low = m % 0x100_0000;
        assert(low == status + 256 * key + 65536 * velocity);
        let shifted = low + transpose * 256;
        assert(shifted == status + 256 * (key + transpose) + 65536 * velocity);
        assert(0 <= shifted < 0x100_0000);
        assert(transposed(message, transpose) == shifted);
        assert(shifted / 256 == (key + transpose) + 256 * velocity);
        assert(shifted / 65536 == velocity);
    }
}

/// A message that is no note message, and any message under a transposition of zero, is
/// handed on as it is.
pub proof fn lemma_transpose_leaves_others(message: u32, transpose: i32)
    requires
        transpose == 0 || !is_note_message(message),
    ensures
        transposed(message, transpose) == message,
{
}

pub fn transpose_message(message: u32, transpose: i32) -> (shifted: u32)
    ensures
        shifted == transposed(message, transpose),
{
    if transpose != 0 && (message & 0xf0 == 0x80 || message & 0xf0 == 0x90) {
        let shift: u32 = (#[verifier::truncate] (transpose as u32)) << 8;
        let key_part: u32 = (message & 0x00ff00).wrapping_add(shift);
        let shifted: u32 = (message & 0xff00ff).wrapping_add(key_part);
        proof {
            let rest = message & 0xff00ff;
            let key = message & 0x00ff00;
            assert(key_part == (key + shift) as u32) by (bit_vector)
                requires
                    key_part == if key + shift > 0xffff_ffff {
                        (key + shift - 0x1_0000_0000) as u32
                    } else {
                        (key + shift) as u32
                    },
            ;
            assert(shifted == (rest + key_part) as u32) by (bit_vector)
                requires
                    shifted == if rest + key_part > 0xffff_ffff {
                        (rest + key_part - 0x1_0000_0000) as u32
                    } else {
                        (rest + key_part) as u32
                    },
            ;
            assert(shifted as int == (message as int % 0x100_0000 + transpose as int * 256)
                % 0x1_0000_0000) by (bit_vector)
                requires
                    shift == (transpose as u32) << 8,
                    key_part == ((message & 0x00ff00) + shift) as u32,
                    shifted == ((message & 0xff00ff) + key_part) as u32,
            ;
            assert(is_note_message(message)) by (bit_vector)
                requires
                    message & 0xf0 == 0x80 || message & 0xf0 == 0x90,
            ;
        }
        shifted
    } else {
        assert(!is_note_message(message) || transpose == 0) by (bit_vector)
            requires
                !(transpose != 0 && (message & 0xf0 == 0x80 || message & 0xf0 == 0x90)),
        ;
        message
    }
}

} // verus!
