//! The events of the timeline.

use crate::keyboard::KEY_COUNT;
use crate::message::{note_off_message, note_off_word, note_on_message, note_on_word};
use crate::palette::CHANNEL_COUNT;
use vstd::prelude::*;

verus! {

/// One event of the timeline. `delta` is the time since the event before it, in nanoseconds.
#[derive(Clone, Copy, Debug, PartialEq, Eq, Structural)]
pub enum TimelineEvent {
    /// A note starts.
    NoteOn { delta: u64, key: u8, channel: u8, velocity: u8 },
    /// A note stops.
    NoteOff { delta: u64, key: u8, channel: u8 },
    /// Anything else. `message` is the short message of an event that carries status data for
    /// the device, and nothing for a rest or a meta event.
    Other { delta: u64, message: Option<u32> },
}

impl TimelineEvent {
    /// A note is well formed where its key is on the keyboard and its channel is one of the
    /// sixteen; any other event is.
    pub open spec fn well_formed(self) -> bool {
        match self {
            TimelineEvent::NoteOn { key, channel, .. } => key < KEY_COUNT && channel
                < CHANNEL_COUNT,
            TimelineEvent::NoteOff { key, channel, .. } => key < KEY_COUNT && channel
                < CHANNEL_COUNT,
            TimelineEvent::Other { .. } => true,
        }
    }

    pub open spec fn delta_of(self) -> u64 {
        match self {
            TimelineEvent::NoteOn { delta, .. } => delta,
            TimelineEvent::NoteOff { delta, .. } => delta,
            TimelineEvent::Other { delta, .. } => delta,
        }
    }

    /// What the event sends to the device, before any transposition.
    pub open spec fn message_of(self) -> Option<u32> {
        match self {
            TimelineEvent::NoteOn { key, channel, velocity, .. } => Some(
                note_on_word(channel, key, velocity),
            ),
            TimelineEvent::NoteOff { key, channel, .. } => Some(note_off_word(channel, key)),
            TimelineEvent::Other { message, .. } => message,
        }
    }

    pub fn is_well_formed(&self) -> (ok: bool)
        ensures
            ok == self.well_formed(),
    {
        match self {
            TimelineEvent::NoteOn { key, channel, .. } => (*key as usize) < KEY_COUNT
                && (*channel as usize) < CHANNEL_COUNT,
            TimelineEvent::NoteOff { key, channel, .. } => (*key as usize) < KEY_COUNT
                && (*channel as usize) < CHANNEL_COUNT,
            TimelineEvent::Other { .. } => true,
        }
    }

    /// The time since the event before this one.
    pub fn delta(&self) -> (delta: u64)
        ensures
            delta == self.delta_of(),
    {
        match self {
            TimelineEvent::NoteOn { delta, .. } => *delta,
            TimelineEvent::NoteOff { delta, .. } => *delta,
            TimelineEvent::Other { delta, .. } => *delta,
        }
    }

    /// The short message of the event: its status byte, then its two data bytes, packed into
    /// one word with the status lowest.
    pub fn short_message(&self) -> (message: Option<u32>)
        ensures
            message == self.message_of(),
    {
        match self {
            TimelineEvent::NoteOn { key, channel, velocity, .. } => Some(
                note_on_message(*channel, *key, *velocity),
            ),
            TimelineEvent::NoteOff { key, channel, .. } => Some(note_off_message(*channel, *key)),
            TimelineEvent::Other { message, .. } => *message,
        }
    }
}

} // verus!
