//! The two playback engines, the options of the display, and the end-of-playback latch.

use crate::clock::{ClockState, Pacer, POLL_INTERVAL};
use crate::colors::{is_color_table, ColorTable};
use crate::event::TimelineEvent;
use crate::keyboard::{
    is_black_key, is_black_pitch, pitch_class, row_in_palette, slot_index, slot_of, Keyboard,
    KeyboardModel, KEY_COUNT,
};
use crate::message::{transpose_message, transposed};
use crate::overlap::{Glyph, TrackError};
use crate::render::glyph_text;
use crate::schedule::{playable, Schedule, Turn};
use vstd::prelude::*;

verus! {

/// An engine that waits longer than this for an event, in nanoseconds, deals the colours out
/// anew where it is told to.
pub const RESHUFFLE_ABOVE: u128 = 10_000_000;

/// How the display engine draws.
#[derive(Clone, Copy, Debug, PartialEq, Eq, Structural)]
pub struct DisplayOptions {
    /// The transposition, in semitones.
    pub transpose: i32,
    /// Whether keys of a black pitch are drawn in the black-key shade.
    pub black_keys: bool,
    /// Whether the voices of each key are tracked one by one.
    pub exact_overlaps: bool,
    /// Whether the colours are dealt out anew whenever the engine had to wait.
    pub reshuffle_on_wait: bool,
}

/// What becomes of a negative transposition that the user asks for.
#[derive(Clone, Copy, Debug, PartialEq, Eq, Structural)]
pub enum NegativeTranspose {
    /// It is put back to zero, and the user is warned.
    Reset,
    /// It is taken as it is.
    Keep,
}

/// The transposition that is played when `requested` is asked for.
pub open spec fn resolved_transpose(requested: i32, policy: NegativeTranspose) -> i32 {
    if requested < 0 && policy is Reset {
        0
    } else {
        requested
    }
}

pub fn resolve_transpose(requested: i32, policy: NegativeTranspose) -> (transpose: i32)
    ensures
        transpose == resolved_transpose(requested, policy),
{
    match policy {
        NegativeTranspose::Reset => if requested < 0 {
            0
        } else {
            requested
        },
        NegativeTranspose::Keep => requested,
    }
}

/// What the driver of an engine has to do after a step.
#[derive(Clone, Copy, Debug, PartialEq, Eq, Structural)]
pub enum Action {
    /// The playback is paused: sleep one poll interval and step again. The driver of the
    /// display engine tells the engine of the poll before it steps again.
    Poll,
    /// The engine is ahead: sleep this many nanoseconds, precisely, and step again.
    Sleep(u128),
    /// One event has been delivered. The audio engine hands out what is to be written to
    /// the device for it, where the event has a message; the display engine has drawn.
    Delivered(Option<u32>),
    /// The timeline is exhausted: signal the end of the playback.
    Finished,
}

/// Whether a turn makes an engine with these options deal its colours out anew.
pub open spec fn reshuffles(options: DisplayOptions, turn: Turn) -> bool {
    options.reshuffle_on_wait && (turn matches Turn::Sleep(wait) && wait > RESHUFFLE_ABOVE)
}

/// The keyboard after the display has taken an event, or nothing where the keyboard refuses
/// the event. A note-on draws its key in the colour of its channel, as a black key where the
/// sounding pitch is black and black keys are drawn. Other events leave the keyboard.
pub open spec fn displayed(
    options: DisplayOptions,
    colors: Seq<u8>,
    keyboard: KeyboardModel,
    event: TimelineEvent,
) -> Option<KeyboardModel> {
    match event {
        TimelineEvent::NoteOn { key, channel, .. } => Some(
            keyboard.note_on(
                slot_of(key, options.transpose),
                channel,
                colors[channel as int],
                options.black_keys && is_black_pitch(pitch_class(key, options.transpose)),
            ),
        ),
        TimelineEvent::NoteOff { key, channel, .. } => if keyboard.accepts_note_off(
            slot_of(key, options.transpose),
            channel,
        ) {
            Some(
                keyboard.note_off(
                    slot_of(key, options.transpose),
                    channel,
                    options.black_keys && is_black_pitch(pitch_class(key, options.transpose)),
                ),
            )
        } else {
            None
        },
        TimelineEvent::Other { .. } => Some(keyboard),
    }
}

/// The black-key rule. After a note-on, with colours on, the slot of the note is drawn in the
/// black-key shade of the channel's colour where the sounding pitch class is one of 1, 3, 6,
/// 8 and 10 and black keys are drawn, and in its white-key shade in every other case.
pub proof fn lemma_black_key_rule(
    options: DisplayOptions,
    colors: Seq<u8>,
    keyboard: KeyboardModel,
    event: TimelineEvent,
    note_shades_b: Seq<&str>,
    note_shades_w: Seq<&str>,
)
    requires
        keyboard.wf(),
        event is NoteOn,
    ensures
        ({
            let key = event->NoteOn_key;
            let color = colors[event->NoteOn_channel as int] as int;
            let slot = slot_of(key, options.transpose);
            let shown = displayed(options, colors, keyboard, event).unwrap().keys[slot].glyph;
            glyph_text(shown, true, note_shades_b, note_shades_w) == if options.black_keys
                && is_black_pitch(pitch_class(key, options.transpose)) {
                note_shades_b[color]@
            } else {
                note_shades_w[color]@
            }
        }),
{
}

/// The playback engine that feeds the display.
pub struct DisplayEngine {
    options: DisplayOptions,
    schedule: Schedule,
    colors: ColorTable,
    keyboard: Keyboard,
}

impl DisplayEngine {
    pub closed spec fn options(&self) -> DisplayOptions {
        self.options
    }

    /// Where the engine is in the timeline.
    pub closed spec fn schedule(&self) -> Schedule {
        self.schedule
    }

    pub closed spec fn colors(&self) -> Seq<u8> {
        self.colors@
    }

    pub closed spec fn keyboard(&self) -> KeyboardModel {
        self.keyboard@
    }

    /// The display is in order: the colour table is one, the keyboard is well formed and
    /// tracks overlaps as the options say.
    pub open spec fn display_wf(&self) -> bool {
        &&& is_color_table(self.colors())
        &&& self.keyboard().wf()
        &&& self.keyboard().exact == self.options().exact_overlaps
    }

    /// The engine is in order and plays `events`: no key counts more notes than events have
    /// been delivered.
    pub open spec fn wf(&self, events: Seq<TimelineEvent>) -> bool {
        &&& self.display_wf()
        &&& self.schedule().wf(events)
        &&& self.keyboard().counts_within(self.schedule().next as int)
    }

    /// An engine at the start of the timeline, with a blank keyboard.
    pub fn new(options: DisplayOptions, colors: ColorTable) -> (engine: DisplayEngine)
        requires
            is_color_table(colors@),
        ensures
            engine.display_wf(),
            forall|events: Seq<TimelineEvent>| playable(events) ==> #[trigger] engine.wf(events),
            engine.options() == options,
            engine.schedule() == (Schedule { pacer: Pacer { cursor: 0 }, next: 0, due: false }),
            engine.colors() == colors@,
            engine.keyboard() == KeyboardModel::fresh(options.exact_overlaps),
    {
        DisplayEngine {
            options,
            schedule: Schedule::new(),
            colors,
            keyboard: Keyboard::new(options.exact_overlaps),
        }
    }

    /// The timeline time consumed so far, in nanoseconds.
    pub fn cursor_time(&self) -> (cursor: u64)
        ensures
            cursor == self.schedule().pacer.cursor,
    {
        self.schedule.pacer.cursor
    }

    /// How many events have been delivered.
    pub fn delivered(&self) -> (count: usize)
        ensures
            count == self.schedule().next,
    {
        self.schedule.next
    }

    /// The colour of each channel.
    pub fn color_table(&self) -> (colors: Vec<u8>)
        ensures
            colors@ == self.colors(),
    {
        self.colors.to_vec()
    }

    /// What `slot` shows.
    pub fn glyph(&self, slot: usize) -> (glyph: Glyph)
        requires
            self.display_wf(),
            slot < KEY_COUNT,
        ensures
            glyph == self.keyboard().keys[slot as int].glyph,
    {
        self.keyboard.glyph(slot)
    }

    /// How many notes sound in `slot`.
    pub fn active(&self, slot: usize) -> (count: u64)
        requires
            self.display_wf(),
            slot < KEY_COUNT,
        ensures
            count == self.keyboard().keys[slot as int].active,
    {
        self.keyboard.active(slot)
    }

    /// Copies what the keys show into the buffer that the renderer reads.
    pub fn publish(&self, shared: &mut Vec<Glyph>)
        requires
            self.display_wf(),
        ensures
            final(shared)@ == self.keyboard().row(),
            final(shared)@.len() == KEY_COUNT,
            row_in_palette(final(shared)@),
    {
        self.keyboard.publish(shared);
    }

    /// Accounts for one pause poll that the engine has slept: the poll is taken out of the
    /// required time, so that the playback resumes where it stopped.
    pub fn polled(&self, clock: &mut ClockState)
        requires
            old(clock).skip_accumulated + POLL_INTERVAL <= u64::MAX,
        ensures
            final(clock).skip_accumulated == old(clock).skip_accumulated + POLL_INTERVAL,
            final(clock).offset == old(clock).offset,
            final(clock).paused == old(clock).paused,
    {
        clock.absorb_poll();
    }

    /// Hands an event to the display: the keyboard takes the event, and the row that it then
    /// shows is copied into `shared`. A note-off that the keyboard refuses comes back as an
    /// error and changes neither.
    fn deliver(&mut self, event: &TimelineEvent, shared: &mut Vec<Glyph>) -> (outcome: Result<
        (),
        TrackError,
    >)
        requires
            old(self).display_wf(),
            event.well_formed(),
            old(self).keyboard().counts_within(u64::MAX - 1),
        ensures
            final(self).display_wf(),
            final(self).options() == old(self).options(),
            final(self).schedule() == old(self).schedule(),
            final(self).colors() == old(self).colors(),
            match displayed(old(self).options(), old(self).colors(), old(self).keyboard(), *event) {
                Some(keyboard) => {
                    &&& outcome is Ok
                    &&& final(self).keyboard() == keyboard
                    &&& final(shared)@ == keyboard.row()
                    &&& row_in_palette(final(shared)@)
                },
                None => {
                    &&& outcome == Err::<(), TrackError>(TrackError::NoMatchingVoice)
                    &&& final(self).keyboard() == old(self).keyboard()
                    &&& final(shared)@ == old(shared)@
                },
            },
    {
        let outcome = match event {
            TimelineEvent::NoteOn { key, channel, .. } => {
                let slot = slot_index(*key, self.options.transpose);
                let black = self.options.black_keys && is_black_key(*key, self.options.transpose);
                let color = self.colors.color_of(*channel);
                assert(self.keyboard@.keys[slot as int].active <= u64::MAX - 1);
                self.keyboard.note_on(slot, *channel, color, black);
                Ok(())
            },
            TimelineEvent::NoteOff { key, channel, .. } => {
                let slot = slot_index(*key, self.options.transpose);
                let black = self.options.black_keys && is_black_key(*key, self.options.transpose);
                self.keyboard.note_off(slot, *channel, black)
            },
            TimelineEvent::Other { .. } => Ok(()),
        };
        if outcome.is_ok() {
            self.keyboard.publish(shared);
        }
        outcome
    }

    /// Takes one step of the playback and says what the driver has to do. The events are
    /// delivered in their order, each once and none before its time. An event that is
    /// delivered is drawn on the keyboard, and the row that the keyboard then shows is copied
    /// into `shared`, the buffer that the renderer reads. A note-off that the keyboard
    /// refuses comes back as an error: the event is passed over and nothing is drawn. Where
    /// the engine has to wait long enough and is told to, it deals the colours out anew.
    pub fn step(
        &mut self,
        events: &Vec<TimelineEvent>,
        clock: &ClockState,
        wall_elapsed: u64,
        shared: &mut Vec<Glyph>,
    ) -> (outcome: Result<Action, TrackError>)
        requires
            old(self).wf(events@),
        ensures
            final(self).wf(events@),
            final(self).options() == old(self).options(),
            final(self).schedule() == old(self).schedule().turned(events@, *clock, wall_elapsed).0,
            final(self).colors().to_multiset() == old(self).colors().to_multiset(),
            !reshuffles(
                old(self).options(),
                old(self).schedule().turned(events@, *clock, wall_elapsed).1,
            ) ==> final(self).colors() == old(self).colors(),
            match old(self).schedule().turned(events@, *clock, wall_elapsed).1 {
                Turn::Deliver(index) => match displayed(
                    old(self).options(),
                    old(self).colors(),
                    old(self).keyboard(),
                    events@[index as int],
                ) {
                    Some(keyboard) => {
                        &&& outcome == Ok::<Action, TrackError>(Action::Delivered(None))
                        &&& final(self).keyboard() == keyboard
                        &&& final(shared)@ == keyboard.row()
                        &&& row_in_palette(final(shared)@)
                    },
                    None => {
                        &&& outcome == Err::<Action, TrackError>(TrackError::NoMatchingVoice)
                        &&& final(self).keyboard() == old(self).keyboard()
                        &&& final(shared)@ == old(shared)@
                    },
                },
                Turn::Poll => {
                    &&& outcome == Ok::<Action, TrackError>(Action::Poll)
                    &&& final(self).keyboard() == old(self).keyboard()
                    &&& final(shared)@ == old(shared)@
                },
                Turn::Sleep(wait) => {
                    &&& outcome == Ok::<Action, TrackError>(Action::Sleep(wait))
                    &&& final(self).keyboard() == old(self).keyboard()
                    &&& final(shared)@ == old(shared)@
                },
                Turn::Finished => {
                    &&& outcome == Ok::<Action, TrackError>(Action::Finished)
                    &&& final(self).keyboard() == old(self).keyboard()
                    &&& final(shared)@ == old(shared)@
                },
            },
    {
        match self.schedule.turn(events, clock, wall_elapsed) {
            Turn::Poll => Ok(Action::Poll),
            Turn::Sleep(wait) => {
                if self.options.reshuffle_on_wait && wait > RESHUFFLE_ABOVE {
                    self.colors.reshuffle();
                }
                Ok(Action::Sleep(wait))
            },
            Turn::Deliver(index) => {
                match self.deliver(&events[index], shared) {
                    Ok(()) => Ok(Action::Delivered(None)),
                    Err(refusal) => Err(refusal),
                }
            },
            Turn::Finished => Ok(Action::Finished),
        }
    }
}

/// What the audio engine writes to the device for an event: the short message of the event
/// with the transposition applied, and nothing for an event without one.
pub open spec fn device_write(transpose: i32, event: TimelineEvent) -> Option<u32> {
    match event.message_of() {
        Some(message) => Some(transposed(message, transpose)),
        None => None,
    }
}

/// What an audio engine under `transpose` has its driver do for a turn.
pub open spec fn audio_action(transpose: i32, events: Seq<TimelineEvent>, turn: Turn) -> Action {
    match turn {
        Turn::Poll => Action::Poll,
        Turn::Sleep(wait) => Action::Sleep(wait),
        Turn::Deliver(index) => Action::Delivered(device_write(transpose, events[index as int])),
        Turn::Finished => Action::Finished,
    }
}

/// The playback engine that feeds the audio device.
#[derive(Clone, Copy, Debug, PartialEq, Eq, Structural)]
pub struct AudioEngine {
    /// The transposition, in semitones.
    pub transpose: i32,
    /// Where the engine is in the timeline.
    pub schedule: Schedule,
}

impl AudioEngine {
    /// An engine at the start of the timeline.
    pub fn new(transpose: i32) -> (engine: AudioEngine)
        ensures
            engine.transpose == transpose,
            engine.schedule == (Schedule { pacer: Pacer { cursor: 0 }, next: 0, due: false }),
            forall|events: Seq<TimelineEvent>|
                playable(events) ==> #[trigger] engine.schedule.wf(events),
    {
        AudioEngine { transpose, schedule: Schedule::new() }
    }

    /// The one device write of an event, if it has any.
    pub fn deliver(&self, event: &TimelineEvent) -> (write: Option<u32>)
        ensures
            write == device_write(self.transpose, *event),
    {
        match event.short_message() {
            Some(message) => Some(transpose_message(message, self.transpose)),
            None => None,
        }
    }

    /// Takes one step of the playback and says what the driver has to do. The events are
    /// delivered in their order, each once and none before its time; for each that carries a
    /// message the driver gets exactly one device write. The audio engine polls while the
    /// playback is paused, and leaves the accounting for the pause to the display engine.
    pub fn step(
        &mut self,
        events: &Vec<TimelineEvent>,
        clock: &ClockState,
        wall_elapsed: u64,
    ) -> (action: Action)
        requires
            old(self).schedule.wf(events@),
        ensures
            final(self).schedule.wf(events@),
            final(self).transpose == old(self).transpose,
            final(self).schedule == old(self).schedule.turned(events@, *clock, wall_elapsed).0,
            action == audio_action(
                old(self).transpose,
                events@,
                old(self).schedule.turned(events@, *clock, wall_elapsed).1,
            ),
    {
        match self.schedule.turn(events, clock, wall_elapsed) {
            Turn::Poll => Action::Poll,
            Turn::Sleep(wait) => Action::Sleep(wait),
            Turn::Deliver(index) => Action::Delivered(self.deliver(&events[index])),
            Turn::Finished => Action::Finished,
        }
    }
}

/// The one-way signal that the playback has ended.
#[derive(Clone, Copy, Debug, PartialEq, Eq, Structural)]
pub struct EndLatch {
    pub ended: bool,
}

impl EndLatch {
    pub fn new() -> (latch: EndLatch)
        ensures
            !latch.ended,
    {
        EndLatch { ended: false }
    }

    pub fn has_ended(&self) -> (ended: bool)
        ensures
            ended == self.ended,
    {
        self.ended
    }

    /// Signals the end of the playback. Only the first signal is one: it returns `true`, and
    /// every later call finds the latch set and returns `false`.
    pub fn signal(&mut self) -> (first: bool)
        ensures
            final(self).ended,
            first == !old(self).ended,
    {
        let first = !self.ended;
        self.ended = true;
        first
    }
}

} // verus!
