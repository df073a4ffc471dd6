//! The keyboard of 128 keys: where a key is drawn, which pitches are black, and the display
//! state of all keys.

use crate::overlap::{Glyph, KeyModel, KeyTrack, TrackError};
use crate::palette::CHANNEL_COUNT;
use vstd::prelude::*;

verus! {

/// Number of keys on the displayed keyboard.
pub const KEY_COUNT: usize = 128;

/// The slot in which a key is drawn: the key number shifted by the transposition and wrapped
/// onto the keyboard.
pub open spec fn slot_of(key: u8, transpose: i32) -> int {
    (key as int + transpose as int) % (KEY_COUNT as int)
}

/// The pitch class that sounds: the key number shifted by the transposition, modulo twelve.
pub open spec fn pitch_class(key: u8, transpose: i32) -> int {
    (key as int + transpose as int) % 12
}

/// The pitch classes of the black keys of a piano.
pub open spec fn is_black_pitch(class: int) -> bool {
    class == 1 || class == 3 || class == 6 || class == 8 || class == 10
}

pub fn slot_index(key: u8, transpose: i32) -> (slot: usize)
    ensures
        slot == slot_of(key, transpose),
        slot < KEY_COUNT,
{
    let shifted: i64 = key as i64 + transpose as i64;
    let wrapped: i64 = shifted % 128;
    if wrapped < 0 {
        (wrapped + 128) as usize
    } else {
        wrapped as usize
    }
}

/// Whether the sounding pitch is that of a black key.
pub fn is_black_key(key: u8, transpose: i32) -> (black: bool)
    ensures
        black == is_black_pitch(pitch_class(key, transpose)),
{
    let shifted: i64 = key as i64 + transpose as i64;
    let wrapped: i64 = shifted % 12;
    let class: i64 = if wrapped < 0 {
        wrapped + 12
    } else {
        wrapped
    };
    class == 1 || class == 3 || class == 6 || class == 8 || class == 10
}

/// The keyboard as a mathematical value: whether overlaps are tracked exactly, and the keys.
pub struct KeyboardModel {
    pub exact: bool,
    pub keys: Seq<KeyModel>,
}

impl KeyboardModel {
    pub open spec fn wf(self) -> bool {
        &&& self.keys.len() == KEY_COUNT
        &&& forall|slot: int|
            0 <= slot < KEY_COUNT ==> (#[trigger] self.keys[slot]).consistent(self.exact)
        &&& forall|slot: int| 0 <= slot < KEY_COUNT ==> (#[trigger] self.keys[slot]).in_palette()
    }

    /// A keyboard on which nothing has sounded yet.
    pub open spec fn fresh(exact: bool) -> KeyboardModel {
        KeyboardModel { exact, keys: Seq::new(KEY_COUNT as nat, |slot: int| KeyModel::fresh()) }
    }

    /// The keyboard after a note-on in `slot`: that key takes the note, the others stay.
    pub open spec fn note_on(
        self,
        slot: int,
        channel: u8,
        color: u8,
        black: bool,
    ) -> KeyboardModel {
        KeyboardModel {
            exact: self.exact,
            keys: self.keys.update(
                slot,
                self.keys[slot].note_on(self.exact, channel, color, black),
            ),
        }
    }

    pub open spec fn accepts_note_off(self, slot: int, channel: u8) -> bool {
        self.keys[slot].accepts_note_off(self.exact, channel)
    }

    /// The keyboard after a note-off in `slot` that the key accepts.
    pub open spec fn note_off(self, slot: int, channel: u8, black: bool) -> KeyboardModel {
        KeyboardModel {
            exact: self.exact,
            keys: self.keys.update(slot, self.keys[slot].note_off(self.exact, channel, black)),
        }
    }

    /// No key counts more than `bound` notes.
    pub open spec fn counts_within(self, bound: int) -> bool {
        forall|slot: int|
            0 <= slot < self.keys.len() ==> (#[trigger] self.keys[slot]).active <= bound
    }

    /// What the keys show, lowest slot first.
    pub open spec fn row(self) -> Seq<Glyph> {
        Seq::new(self.keys.len(), |slot: int| self.keys[slot].glyph)
    }
}

/// Every colour in the row is one of the sixteen channel colours.
pub open spec fn row_in_palette(row: Seq<Glyph>) -> bool {
    forall|slot: int|
        0 <= slot < row.len() ==> ((#[trigger] row[slot]) matches Glyph::Note { color, .. }
            ==> color < CHANNEL_COUNT)
}

/// The row of a well-formed keyboard has one glyph for each key, in colours of the palette.
pub proof fn lemma_row_of_keyboard(keyboard: KeyboardModel)
    requires
        keyboard.wf(),
    ensures
        keyboard.row().len() == KEY_COUNT,
        row_in_palette(keyboard.row()),
{
    assert forall|slot: int| 0 <= slot < keyboard.row().len() implies ((
    #[trigger] keyboard.row()[slot]) matches Glyph::Note { color, .. } ==> color
        < CHANNEL_COUNT) by {
        assert(keyboard.keys[slot].in_palette());
    }
}

/// The display state of all keys.
pub struct Keyboard {
    exact: bool,
    keys: Vec<KeyTrack>,
}

impl View for Keyboard {
    type V = KeyboardModel;

    closed spec fn view(&self) -> KeyboardModel {
        KeyboardModel {
            exact: self.exact,
            keys: Seq::new(self.keys@.len(), |slot: int| self.keys@[slot]@),
        }
    }
}

impl Keyboard {
    pub fn new(exact: bool) -> (keyboard: Keyboard)
        ensures
            keyboard@ == KeyboardModel::fresh(exact),
            keyboard@.wf(),
    {
        let mut keys: Vec<KeyTrack> = Vec::new();
        let mut slot: usize = 0;
        while slot < KEY_COUNT
            invariant
                slot <= KEY_COUNT,
                keys@.len() == slot,
                forall|k: int| 0 <= k < slot ==> (#[trigger] keys@[k])@ == KeyModel::fresh(),
            decreases KEY_COUNT - slot,
        {
            keys.push(KeyTrack::new());
            slot += 1;
        }
        let keyboard = Keyboard { exact, keys };
        assert(keyboard@.keys == KeyboardModel::fresh(exact).keys);
        keyboard
    }

    /// Whether overlaps are tracked exactly.
    pub fn is_exact(&self) -> (exact: bool)
        ensures
            exact == self@.exact,
    {
        self.exact
    }

    /// How many notes sound in `slot`.
    pub fn active(&self, slot: usize) -> (count: u64)
        requires
            self@.wf(),
            slot < KEY_COUNT,
        ensures
            count == self@.keys[slot as int].active,
    {
        self.keys[slot].active()
    }

    /// What `slot` shows.
    pub fn glyph(&self, slot: usize) -> (glyph: Glyph)
        requires
            self@.wf(),
            slot < KEY_COUNT,
        ensures
            glyph == self@.keys[slot as int].glyph,
    {
        self.keys[slot].glyph()
    }

    /// What the keys show, lowest slot first.
    pub fn row(&self) -> (row: Vec<Glyph>)
        requires
            self@.wf(),
        ensures
            row@ == self@.row(),
            row@.len() == KEY_COUNT,
            row_in_palette(row@),
    {
        proof {
            lemma_row_of_keyboard(self@);
        }
        let mut row: Vec<Glyph> = Vec::new();
        let mut slot: usize = 0;
        while slot < KEY_COUNT
            invariant
                self@.wf(),
                slot <= KEY_COUNT,
                row@.len() == slot,
                forall|k: int| 0 <= k < slot ==> #[trigger] row@[k] == self@.keys[k].glyph,
            decreases KEY_COUNT - slot,
        {
            row.push(self.keys[slot].glyph());
            slot += 1;
        }
        assert(row@ == self@.row());
        row
    }

    /// Copies what the keys show into the buffer that the renderer reads.
    pub fn publish(&self, shared: &mut Vec<Glyph>)
        requires
            self@.wf(),
        ensures
            final(shared)@ == self@.row(),
            final(shared)@.len() == KEY_COUNT,
            row_in_palette(final(shared)@),
    {
        *shared = self.row();
    }

    /// Starts a note in `slot`.
    pub fn note_on(&mut self, slot: usize, channel: u8, color: u8, black: bool)
        requires
            old(self)@.wf(),
            slot < KEY_COUNT,
            color < CHANNEL_COUNT,
            old(self)@.keys[slot as int].active < u64::MAX,
        ensures
            final(self)@ == old(self)@.note_on(slot as int, channel, color, black),
            final(self)@.wf(),
    {
        let exact = self.exact;
        self.keys[slot].note_on(exact, channel, color, black);
        assert(self@.keys == old(self)@.note_on(slot as int, channel, color, black).keys);
    }

    /// Ends a note in `slot`, or refuses the note-off and leaves the keyboard as it was.
    pub fn note_off(&mut self, slot: usize, channel: u8, black: bool) -> (outcome: Result<
        (),
        TrackError,
    >)
        requires
            old(self)@.wf(),
            slot < KEY_COUNT,
        ensures
            old(self)@.accepts_note_off(slot as int, channel) ==> outcome is Ok && final(self)@
                == old(self)@.note_off(slot as int, channel, black),
            !old(self)@.accepts_note_off(slot as int, channel) ==> outcome == Err::<
                (),
                TrackError,
            >(TrackError::NoMatchingVoice) && final(self)@ == old(self)@,
            final(self)@.wf(),
    {
        let exact = self.exact;
        let outcome = self.keys[slot].note_off(exact, channel, black);
        proof {
            if old(self)@.accepts_note_off(slot as int, channel) {
                assert(self@.keys == old(self)@.note_off(slot as int, channel, black).keys);
            } else {
                assert(self@.keys == old(self)@.keys);
            }
        }
        outcome
    }
}

} // verus!
