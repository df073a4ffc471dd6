//! The colour of each channel, and the shuffle that deals the colours out anew.

use crate::palette::CHANNEL_COUNT;
use rand::seq::SliceRandom;
use vstd::prelude::*;

verus! {

/// Shuffles the values in place with `rand::seq::SliceRandom::shuffle`, driven by
/// `rand::thread_rng`. The shuffle only swaps elements, so the values afterwards are the
/// values before in some order; which order is left to chance and nothing is claimed of it.
#[verifier::external_body]
fn shuffle_values(values: &mut Vec<u8>)
    ensures
        final(values)@.to_multiset() == old(values)@.to_multiset(),
{
    let mut rng = rand::thread_rng();
    values.shuffle(&mut rng);
}

/// The colour of each channel, as an index into the shade tables.
pub struct ColorTable {
    colors: Vec<u8>,
}

impl View for ColorTable {
    type V = Seq<u8>;

    closed spec fn view(&self) -> Seq<u8> {
        self.colors@
    }
}

/// The table gives each of the sixteen channels one of the sixteen colours.
pub open spec fn is_color_table(colors: Seq<u8>) -> bool {
    &&& colors.len() == CHANNEL_COUNT
    &&& forall|channel: int|
        0 <= channel < CHANNEL_COUNT ==> (#[trigger] colors[channel]) < CHANNEL_COUNT
}

/// A table that holds the colours of a colour table, in whatever order, is one.
proof fn lemma_same_colors(before: Seq<u8>, after: Seq<u8>)
    requires
        after.to_multiset() == before.to_multiset(),
    ensures
        is_color_table(before) ==> is_color_table(after),
{
    before.to_multiset_ensures();
    after.to_multiset_ensures();
    if is_color_table(before) {
        assert forall|channel: int| 0 <= channel < CHANNEL_COUNT implies (
        #[trigger] after[channel]) < CHANNEL_COUNT by {
            assert(after.contains(after[channel]));
            assert(before.to_multiset().count(after[channel]) > 0);
            assert(before.contains(after[channel]));
        }
    }
}

impl ColorTable {
    /// The table in which every channel has the colour of its own number.
    pub fn identity() -> (table: ColorTable)
        ensures
            is_color_table(table@),
            forall|channel: int| 0 <= channel < CHANNEL_COUNT ==> table@[channel] == channel,
    {
        let mut colors: Vec<u8> = Vec::new();
        let mut channel: u8 = 0;
        while channel < 16
            invariant
                channel <= 16,
                colors@.len() == channel,
                forall|c: int| 0 <= c < channel ==> colors@[c] == c,
            decreases 16 - channel,
        {
            colors.push(channel);
            channel += 1;
        }
        ColorTable { colors }
    }

    /// The colour of `channel`.
    pub fn color_of(&self, channel: u8) -> (color: u8)
        requires
            is_color_table(self@),
            channel < CHANNEL_COUNT,
        ensures
            color == self@[channel as int],
            color < CHANNEL_COUNT,
    {
        self.colors[channel as usize]
    }

    /// The colours of all channels, lowest channel first.
    pub fn to_vec(&self) -> (colors: Vec<u8>)
        ensures
            colors@ == self@,
    {
        self.colors.clone()
    }

    /// Deals the colours out anew: every colour the table held it still holds, as often as
    /// before, on a channel that chance picks.
    pub fn reshuffle(&mut self)
        ensures
            final(self)@.to_multiset() == old(self)@.to_multiset(),
            is_color_table(old(self)@) ==> is_color_table(final(self)@),
    {
        shuffle_values(&mut self.colors);
        proof {
            lemma_same_colors(old(self)@, self@);
        }
    }
}

} // verus!
