//! The overlap tracker of one key: which of the notes that sound at once the key shows.

use crate::palette::CHANNEL_COUNT;
use vstd::prelude::*;

verus! {

/// One sounding note on a key: the channel that started it and the colour it is drawn in.
#[derive(Clone, Copy, Debug, PartialEq, Eq, Structural)]
pub struct Voice {
    pub channel: u8,
    pub color: u8,
}

/// What one key shows.
#[derive(Clone, Copy, Debug, PartialEq, Eq, Structural)]
pub enum Glyph {
    /// No note sounds on the key.
    Blank,
    /// A note sounds: the index of its colour, and whether the key is drawn as a black key.
    Note { color: u8, black: bool },
}

/// A note event as one key sees it. `black` says whether the key is to be drawn as a black
/// key from this event on.
#[derive(Clone, Copy, Debug, PartialEq, Eq, Structural)]
pub enum KeyEvent {
    On { channel: u8, color: u8, black: bool },
    Off { channel: u8, black: bool },
}

/// Why a note-off was refused.
#[derive(Clone, Copy, Debug, PartialEq, Eq, Structural)]
pub enum TrackError {
    /// With exact overlap tracking on, no sounding voice of the key has the channel of the
    /// note-off: it ends a note that never began.
    NoMatchingVoice,
}

/// The state of one key as a mathematical value.
pub struct KeyModel {
    /// How many notes sound on the key.
    pub active: nat,
    /// The sounding voices in the order in which they started. It stays empty unless the
    /// overlaps are precise exactly.
    pub voices: Seq<Voice>,
    pub glyph: Glyph,
}

/// `at` is the position of the oldest voice on `channel`.
pub open spec fn is_first_voice(voices: Seq<Voice>, channel: u8, at: int) -> bool {
    &&& 0 <= at < voices.len()
    &&& voices[at].channel == channel
    &&& forall|j: int| 0 <= j < at ==> (#[trigger] voices[j]).channel != channel
}

/// Some voice is on `channel`.
pub open spec fn has_voice(voices: Seq<Voice>, channel: u8) -> bool {
    exists|at: int| 0 <= at < voices.len() && (#[trigger] voices[at]).channel == channel
}

/// The position of the oldest voice on `channel`, where there is one.
pub open spec fn first_voice(voices: Seq<Voice>, channel: u8) -> int {
    choose|at: int| is_first_voice(voices, channel, at)
}

impl KeyModel {
    /// A key on which nothing has sounded yet.
    pub open spec fn fresh() -> KeyModel {
        KeyModel { active: 0, voices: Seq::empty(), glyph: Glyph::Blank }
    }

    /// What holds of every key between two events: with exact tracking there is one voice for
    /// each sounding note, without it there is none; and the key is blank exactly when no note
    /// sounds.
    pub open spec fn consistent(self, exact: bool) -> bool {
        &&& exact ==> self.voices.len() == self.active
        &&& !exact ==> self.voices.len() == 0
        &&& self.active == 0 <==> self.glyph is Blank
    }

    /// Every colour on the key is one of the sixteen channel colours.
    pub open spec fn in_palette(self) -> bool {
        &&& self.glyph matches Glyph::Note { color, .. } ==> color < CHANNEL_COUNT
        &&& forall|at: int|
            0 <= at < self.voices.len() ==> (#[trigger] self.voices[at]).color < CHANNEL_COUNT
    }

    /// The key after a note-on: one more note sounds, with exact tracking its voice is the
    /// newest, and the key shows the new note.
    pub open spec fn note_on(self, exact: bool, channel: u8, color: u8, black: bool) -> KeyModel {
        KeyModel {
            active: self.active + 1,
            voices: if exact {
                self.voices.push(Voice { channel, color })
            } else {
                self.voices
            },
            glyph: Glyph::Note { color, black },
        }
    }

    /// Whether a note-off on `channel` finds a note to end. Without exact tracking every
    /// note-off is taken.
    pub open spec fn accepts_note_off(self, exact: bool, channel: u8) -> bool {
        exact ==> has_voice(self.voices, channel)
    }

    /// The key after a note-off that it accepts. The count goes down by one and stops at zero.
    /// With exact tracking the oldest voice on the channel leaves, and the key shows the newest
    /// voice that is left; without it the key keeps what it showed. A key on which nothing
    /// sounds any more is blank.
    pub open spec fn note_off(self, exact: bool, channel: u8, black: bool) -> KeyModel {
        let voices = if exact {
            self.voices.remove(first_voice(self.voices, channel))
        } else {
            self.voices
        };
        let active = if self.active > 0 {
            (self.active - 1) as nat
        } else {
            0
        };
        KeyModel {
            active,
            voices,
            glyph: if active == 0 {
                Glyph::Blank
            } else if exact && voices.len() > 0 {
                Glyph::Note { color: voices.last().color, black }
            } else {
                self.glyph
            },
        }
    }
}

/// At most one position is that of the oldest voice on a channel.
pub proof fn lemma_first_voice_unique(voices: Seq<Voice>, channel: u8, at: int)
    requires
        is_first_voice(voices, channel, at),
    ensures
        first_voice(voices, channel) == at,
{
    let chosen = first_voice(voices, channel);
    assert(is_first_voice(voices, channel, chosen));
    if chosen < at {
        assert(voices[chosen].channel != channel);
    } else if at < chosen {
        assert(voices[at].channel != channel);
    }
}

/// The overlap tracker of one key.
pub struct KeyTrack {
    active: u64,
    voices: Vec<Voice>,
    glyph: Glyph,
}

impl View for KeyTrack {
    type V = KeyModel;

    closed spec fn view(&self) -> KeyModel {
        KeyModel { active: self.active as nat, voices: self.voices@, glyph: self.glyph }
    }
}

impl KeyTrack {
    pub fn new() -> (key: KeyTrack)
        ensures
            key@ == KeyModel::fresh(),
    {
        KeyTrack { active: 0, voices: Vec::new(), glyph: Glyph::Blank }
    }

    /// How many notes sound on the key.
    pub fn active(&self) -> (count: u64)
        ensures
            count == self@.active,
    {
        self.active
    }

    /// What the key shows.
    pub fn glyph(&self) -> (glyph: Glyph)
        ensures
            glyph == self@.glyph,
    {
        self.glyph
    }

    /// The sounding voices, oldest first.
    pub fn voices(&self) -> (voices: Vec<Voice>)
        ensures
            voices@ == self@.voices,
    {
        let mut voices: Vec<Voice> = Vec::new();
        let mut i: usize = 0;
        while i < self.voices.len()
            invariant
                i <= self.voices.len(),
                voices@ == self.voices@.take(i as int),
            decreases self.voices.len() - i,
        {
            voices.push(self.voices[i]);
            i += 1;
            assert(self.voices@.take(i as int) == self.voices@.take(i - 1).push(
                self.voices@[i - 1],
            ));
        }
        assert(self.voices@.take(i as int) == self.voices@);
        voices
    }

    /// Starts a note on the key.
    pub fn note_on(&mut self, exact: bool, channel: u8, color: u8, black: bool)
        requires
            old(self)@.active < u64::MAX,
        ensures
            final(self)@ == old(self)@.note_on(exact, channel, color, black),
            old(self)@.consistent(exact) ==> final(self)@.consistent(exact),
            old(self)@.in_palette() && color < CHANNEL_COUNT ==> final(self)@.in_palette(),
    {
        if exact {
            self.voices.push(Voice { channel, color });
        }
        self.active = self.active + 1;
        self.glyph = Glyph::Note { color, black };
    }

    /// Ends a note on the key, or refuses the note-off and leaves the key as it was.
    pub fn note_off(&mut self, exact: bool, channel: u8, black: bool) -> (outcome: Result<
        (),
        TrackError,
    >)
        ensures
            old(self)@.accepts_note_off(exact, channel) ==> outcome is Ok && final(self)@
                == old(self)@.note_off(exact, channel, black),
            !old(self)@.accepts_note_off(exact, channel) ==> outcome == Err::<(), TrackError>(
                TrackError::NoMatchingVoice,
            ) && final(self)@ == old(self)@,
            old(self)@.consistent(exact) ==> final(self)@.consistent(exact),
            old(self)@.in_palette() ==> final(self)@.in_palette(),
    {
        if exact {
            let mut at: usize = 0;
            while at < self.voices.len() && self.voices[at].channel != channel
                invariant
                    at <= self.voices.len(),
                    forall|j: int| 0 <= j < at ==> (#[trigger] self.voices@[j]).channel != channel,
                decreases self.voices.len() - at,
            {
                at += 1;
            }
            if at == self.voices.len() {
                return Err(TrackError::NoMatchingVoice);
            }
            proof {
                lemma_first_voice_unique(self.voices@, channel, at as int);
            }
            self.voices.remove(at);
            if self.voices.len() > 0 {
                let newest = self.voices[self.voices.len() - 1];
                self.glyph = Glyph::Note { color: newest.color, black };
            }
        }
        if self.active > 0 {
            self.active = self.active - 1;
        }
        if self.active == 0 {
            self.glyph = Glyph::Blank;
        }
        Ok(())
    }

    /// Takes one event: starts or ends a note.
    pub fn apply(&mut self, exact: bool, event: KeyEvent) -> (outcome: Result<(), TrackError>)
        requires
            event is On ==> old(self)@.active < u64::MAX,
        ensures
            match old(self)@.step(exact, event) {
                Some(next) => outcome is Ok && final(self)@ == next,
                None => outcome == Err::<(), TrackError>(TrackError::NoMatchingVoice)
                    && final(self)@ == old(self)@,
            },
            old(self)@.consistent(exact) ==> final(self)@.consistent(exact),
    {
        match event {
            KeyEvent::On { channel, color, black } => {
                self.note_on(exact, channel, color, black);
                Ok(())
            },
            KeyEvent::Off { channel, black } => self.note_off(exact, channel, black),
        }
    }
}

impl KeyModel {
    /// The key after one event, or nothing where it refuses a note-off.
    pub open spec fn step(self, exact: bool, event: KeyEvent) -> Option<KeyModel> {
        match event {
            KeyEvent::On { channel, color, black } => Some(
                self.note_on(exact, channel, color, black),
            ),
            KeyEvent::Off { channel, black } => if self.accepts_note_off(exact, channel) {
                Some(self.note_off(exact, channel, black))
            } else {
                None
            },
        }
    }

    /// The key after a run of events in their order, or nothing where it refuses one of them.
    pub open spec fn replay(self, exact: bool, events: Seq<KeyEvent>) -> Option<KeyModel>
        decreases events.len(),
    {
        if events.len() == 0 {
            Some(self)
        } else {
            match self.step(exact, events[0]) {
                Some(next) => next.replay(exact, events.drop_first()),
                None => None,
            }
        }
    }
}

/// What one event adds to the number of notes that are open on `channel`.
pub open spec fn opened(event: KeyEvent, channel: u8) -> int {
    match event {
        KeyEvent::On { channel: c, .. } => if c == channel {
            1
        } else {
            0
        },
        KeyEvent::Off { channel: c, .. } => if c == channel {
            -1
        } else {
            0
        },
    }
}

/// The note-ons on `channel` less the note-offs on it.
pub open spec fn open_notes(events: Seq<KeyEvent>, channel: u8) -> int
    decreases events.len(),
{
    if events.len() == 0 {
        0
    } else {
        opened(events[0], channel) + open_notes(events.drop_first(), channel)
    }
}

/// The events are note-on and note-off pairs, interleaved in any way: on every channel each
/// note-off comes after a note-on of its own, and no note is left open at the end.
pub open spec fn pairs_closed(events: Seq<KeyEvent>) -> bool {
    &&& forall|channel: u8, n: int|
        0 <= n <= events.len() ==> #[trigger] open_notes(events.take(n), channel) >= 0
    &&& forall|channel: u8| #[trigger] open_notes(events, channel) == 0
}

/// How many of the voices are on `channel`.
pub open spec fn voices_on(voices: Seq<Voice>, channel: u8) -> nat
    decreases voices.len(),
{
    if voices.len() == 0 {
        0
    } else {
        voices_on(voices.drop_last(), channel) + if voices.last().channel == channel {
            1nat
        } else {
            0nat
        }
    }
}

proof fn lemma_voices_on_push(voices: Seq<Voice>, voice: Voice, channel: u8)
    ensures
        voices_on(voices.push(voice), channel) == voices_on(voices, channel) + if voice.channel
            == channel {
            1nat
        } else {
            0nat
        },
{
    assert(voices.push(voice).drop_last() == voices);
}

proof fn lemma_voices_on_remove(voices: Seq<Voice>, at: int, channel: u8)
    requires
        0 <= at < voices.len(),
    ensures
        voices_on(voices.remove(at), channel) + (if voices[at].channel == channel {
            1nat
        } else {
            0nat
        }) == voices_on(voices, channel),
    decreases voices.len(),
{
    if at == voices.len() - 1 {
        assert(voices.remove(at) == voices.drop_last());
    } else {
        lemma_voices_on_remove(voices.drop_last(), at, channel);
        assert(voices.remove(at).drop_last() == voices.drop_last().remove(at));
        assert(voices.remove(at).last() == voices.last());
    }
}

proof fn lemma_voices_on_found(voices: Seq<Voice>, channel: u8)
    requires
        voices_on(voices, channel) > 0,
    ensures
        has_voice(voices, channel),
    decreases voices.len(),
{
    if voices.last().channel == channel {
        assert(voices[voices.len() - 1].channel == channel);
    } else {
        lemma_voices_on_found(voices.drop_last(), channel);
        let at = choose|at: int|
            0 <= at < voices.drop_last().len() && (#[trigger] voices.drop_last()[at]).channel
                == channel;
        assert(voices[at].channel == channel);
    }
}

/// Where some voice is on a channel, one of them is the oldest.
pub proof fn lemma_first_voice_exists(voices: Seq<Voice>, channel: u8)
    requires
        has_voice(voices, channel),
    ensures
        is_first_voice(voices, channel, first_voice(voices, channel)),
{
    let some = choose|at: int| 0 <= at < voices.len() && (#[trigger] voices[at]).channel == channel;
    let least = lemma_least_voice(voices, channel, some);
    assert(is_first_voice(voices, channel, least));
}

proof fn lemma_least_voice(voices: Seq<Voice>, channel: u8, at: int) -> (least: int)
    requires
        0 <= at < voices.len(),
        voices[at].channel == channel,
    ensures
        is_first_voice(voices, channel, least),
    decreases at,
{
    if exists|j: int| 0 <= j < at && (#[trigger] voices[j]).channel == channel {
        let j = choose|j: int| 0 <= j < at && (#[trigger] voices[j]).channel == channel;
        lemma_least_voice(voices, channel, j)
    } else {
        at
    }
}

/// Every event keeps a key consistent.
pub proof fn lemma_step_consistent(key: KeyModel, exact: bool, event: KeyEvent)
    requires
        key.consistent(exact),
    ensures
        key.step(exact, event) matches Some(next) ==> next.consistent(exact),
{
    if let KeyEvent::Off { channel, black } = event {
        if exact && has_voice(key.voices, channel) {
            lemma_first_voice_exists(key.voices, channel);
        }
    }
}

proof fn lemma_open_notes_take(events: Seq<KeyEvent>, n: int, channel: u8)
    requires
        events.len() > 0,
        0 <= n < events.len(),
    ensures
        open_notes(events.take(n + 1), channel) == opened(events[0], channel) + open_notes(
            events.drop_first().take(n),
            channel,
        ),
{
    assert(events.take(n + 1).drop_first() == events.drop_first().take(n));
}

proof fn lemma_exact_replay(key: KeyModel, events: Seq<KeyEvent>)
    requires
        key.consistent(true),
        forall|channel: u8, n: int|
            0 <= n <= events.len() ==> voices_on(key.voices, channel) + #[trigger] open_notes(
                events.take(n),
                channel,
            ) >= 0,
        forall|channel: u8|
            voices_on(key.voices, channel) + #[trigger] open_notes(events, channel) == 0,
    ensures
        key.replay(true, events) matches Some(end) && end.active == 0 && end.voices.len() == 0
            && end.glyph is Blank,
    decreases events.len(),
{
    if events.len() == 0 {
        if key.voices.len() > 0 {
            let channel = key.voices.last().channel;
            assert(open_notes(events, channel) == 0);
            assert(voices_on(key.voices, channel) > 0);
        }
    } else {
        let event = events[0];
        let rest = events.drop_first();
        match event {
            KeyEvent::On { channel, color, black } => {},
            KeyEvent::Off { channel, black } => {
                lemma_open_notes_take(events, 0, channel);
                assert(voices_on(key.voices, channel) + open_notes(events.take(1), channel) >= 0);
                lemma_voices_on_found(key.voices, channel);
                lemma_first_voice_exists(key.voices, channel);
            },
        }
        let next = key.step(true, event).unwrap();
        lemma_step_consistent(key, true, event);
        assert forall|channel: u8|
            voices_on(next.voices, channel) == voices_on(key.voices, channel) + opened(
                event,
                channel,
            ) by {
            match event {
                KeyEvent::On { channel: c, color, black } => {
                    lemma_voices_on_push(key.voices, Voice { channel: c, color }, channel);
                },
                KeyEvent::Off { channel: c, black } => {
                    lemma_voices_on_remove(key.voices, first_voice(key.voices, c), channel);
                },
            }
        }
        assert forall|channel: u8, n: int| 0 <= n <= rest.len() implies voices_on(
            next.voices,
            channel,
        ) + #[trigger] open_notes(rest.take(n), channel) >= 0 by {
            lemma_open_notes_take(events, n, channel);
            assert(voices_on(key.voices, channel) + open_notes(events.take(n + 1), channel) >= 0);
        }
        assert forall|channel: u8|
            voices_on(next.voices, channel) + #[trigger] open_notes(rest, channel) == 0 by {
            assert(voices_on(key.voices, channel) + open_notes(events, channel) == 0);
        }
        lemma_exact_replay(next, rest);
    }
}

proof fn lemma_modes_count_alike(precise: KeyModel, plain: KeyModel, events: Seq<KeyEvent>)
    requires
        precise.consistent(true),
        plain.consistent(false),
        precise.active == plain.active,
        precise.replay(true, events) is Some,
    ensures
        plain.replay(false, events) matches Some(end) && end.consistent(false) && end.active
            == precise.replay(true, events).unwrap().active,
    decreases events.len(),
{
    if events.len() > 0 {
        let event = events[0];
        lemma_step_consistent(precise, true, event);
        lemma_step_consistent(plain, false, event);
        if let KeyEvent::Off { channel, black } = event {
            lemma_first_voice_exists(precise.voices, channel);
        }
        lemma_modes_count_alike(
            precise.step(true, event).unwrap(),
            plain.step(false, event).unwrap(),
            events.drop_first(),
        );
    }
}

/// Whatever way note-on and note-off pairs on one key are interleaved over the channels, once
/// the last pair is closed no note sounds on the key and the key is blank. No note-off of
/// such a run is refused, with exact tracking or without.
pub proof fn lemma_closed_pairs_leave_key_blank(exact: bool, events: Seq<KeyEvent>)
    requires
        pairs_closed(events),
    ensures
        KeyModel::fresh().replay(exact, events) matches Some(end) && end.active == 0
            && end.glyph is Blank && end.voices.len() == 0,
{
    let key = KeyModel::fresh();
    assert forall|channel: u8| voices_on(key.voices, channel) == 0 by {}
    lemma_exact_replay(key, events);
    if !exact {
        lemma_modes_count_alike(key, key, events);
    }
}

/// The last remaining voice decides the colour. With exact tracking, after a note-on of one
/// voice, a note-on of a second and the note-off of the first one's channel, the key shows the
/// colour of the second, whatever sounded on the key before.
pub proof fn lemma_last_remaining_voice(
    key: KeyModel,
    first: Voice,
    second: Voice,
    first_black: bool,
    second_black: bool,
    off_black: bool,
)
    requires
        key.consistent(true),
    ensures
        ({
            let one = key.note_on(true, first.channel, first.color, first_black);
            let two = one.note_on(true, second.channel, second.color, second_black);
            &&& two.accepts_note_off(true, first.channel)
            &&& two.note_off(true, first.channel, off_black).glyph == Glyph::Note {
                color: second.color,
                black: off_black,
            }
        }),
{
    let one = key.note_on(true, first.channel, first.color, first_black);
    let two = one.note_on(true, second.channel, second.color, second_black);
    let n = key.voices.len() as int;
    assert(two.voices[n] == first);
    assert(two.voices[n + 1] == second);
    assert(has_voice(two.voices, first.channel));
    lemma_first_voice_exists(two.voices, first.channel);
    let at = first_voice(two.voices, first.channel);
    assert(at <= n);
    assert(two.voices.remove(at).last() == second);
}

} // verus!
