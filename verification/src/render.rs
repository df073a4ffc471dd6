//! Drawing a row of keys as one line of text.

use crate::keyboard::row_in_palette;
use crate::overlap::Glyph;
use crate::palette::CHANNEL_COUNT;
use vstd::prelude::*;
use vstd::string::*;

verus! {

/// The mark of a colour where the terminal draws no colours: one of eight characters, each
/// used for two colours.
pub open spec fn plain_mark(color: int) -> Seq<char> {
    let shape = color % 8;
    if shape == 0 {
        seq!['`']
    } else if shape == 1 {
        seq!['.']
    } else if shape == 2 {
        seq![',']
    } else if shape == 3 {
        seq!['!']
    } else if shape == 4 {
        seq!['#']
    } else if shape == 5 {
        seq!['&']
    } else if shape == 6 {
        seq!['$']
    } else {
        seq!['@']
    }
}

/// What is drawn in the cell of a key: a space for a blank key, and for a note the mark of
/// its colour, or with colours on the black or white shade of its colour.
pub open spec fn glyph_text(
    glyph: Glyph,
    use_colors: bool,
    note_shades_b: Seq<&str>,
    note_shades_w: Seq<&str>,
) -> Seq<char> {
    match glyph {
        Glyph::Blank => seq![' '],
        Glyph::Note { color, black } => if !use_colors {
            plain_mark(color as int)
        } else if black {
            note_shades_b[color as int]@
        } else {
            note_shades_w[color as int]@
        },
    }
}

/// The line that shows a row of keys: the cells of the keys, lowest slot first.
pub open spec fn row_text(
    row: Seq<Glyph>,
    use_colors: bool,
    note_shades_b: Seq<&str>,
    note_shades_w: Seq<&str>,
) -> Seq<char>
    decreases row.len(),
{
    if row.len() == 0 {
        Seq::empty()
    } else {
        row_text(row.drop_last(), use_colors, note_shades_b, note_shades_w) + glyph_text(
            row.last(),
            use_colors,
            note_shades_b,
            note_shades_w,
        )
    }
}

pub fn plain_shade(color: u8) -> (shade: &'static str)
    ensures
        shade@ == plain_mark(color as int),
{
    proof {
        reveal_strlit("`");
        reveal_strlit(".");
        reveal_strlit(",");
        reveal_strlit("!");
        reveal_strlit("#");
        reveal_strlit("&");
        reveal_strlit("$");
        reveal_strlit("@");
    }
    let shade = match color % 8 {
        0 => "`",
        1 => ".",
        2 => ",",
        3 => "!",
        4 => "#",
        5 => "&",
        6 => "$",
        _ => "@",
    };
    assert(shade@ =~= plain_mark(color as int));
    shade
}

/// The text of one cell.
pub fn cell<'a>(
    glyph: Glyph,
    use_colors: bool,
    note_shades_b: &Vec<&'a str>,
    note_shades_w: &Vec<&'a str>,
) -> (text: &'a str)
    requires
        note_shades_b@.len() == CHANNEL_COUNT,
        note_shades_w@.len() == CHANNEL_COUNT,
        glyph matches Glyph::Note { color, .. } ==> color < CHANNEL_COUNT,
    ensures
        text@ == glyph_text(glyph, use_colors, note_shades_b@, note_shades_w@),
{
    match glyph {
        Glyph::Blank => {
            proof {
                reveal_strlit(" ");
            }
            let blank = " ";
            assert(blank@ =~= seq![' ']);
            blank
        },
        Glyph::Note { color, black } => {
            if !use_colors {
                plain_shade(color)
            } else if black {
                note_shades_b[color as usize]
            } else {
                note_shades_w[color as usize]
            }
        },
    }
}

/// Draws a row of keys as one line.
pub fn render_row(
    row: &Vec<Glyph>,
    use_colors: bool,
    note_shades_b: &Vec<&str>,
    note_shades_w: &Vec<&str>,
) -> (line: String)
    requires
        note_shades_b@.len() == CHANNEL_COUNT,
        note_shades_w@.len() == CHANNEL_COUNT,
        row_in_palette(row@),
    ensures
        line@ == row_text(row@, use_colors, note_shades_b@, note_shades_w@),
{
    let mut line = String::new();
    let mut slot: usize = 0;
    while slot < row.len()
        invariant
            slot <= row.len(),
            note_shades_b@.len() == CHANNEL_COUNT,
            note_shades_w@.len() == CHANNEL_COUNT,
            row_in_palette(row@),
            line@ == row_text(row@.take(slot as int), use_colors, note_shades_b@, note_shades_w@),
        decreases row.len() - slot,
    {
        let glyph = row[slot];
        line.append(cell(glyph, use_colors, note_shades_b, note_shades_w));
        slot += 1;
        proof {
            assert(row@.take(slot as int).drop_last() == row@.take(slot - 1));
            assert(row@.take(slot as int).last() == glyph);
        }
    }
    assert(row@.take(slot as int) == row@);
    line
}

} // verus!
