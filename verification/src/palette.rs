//! The colour palettes and the shades that draw a note on the terminal.

use vstd::prelude::*;

verus! {

/// Number of MIDI channels, and so of entries in every shade table.
pub const CHANNEL_COUNT: usize = 16;

/// A colour as its red, green and blue components.
#[derive(Clone, Copy, Debug, PartialEq, Eq)]
pub struct Rgb {
    pub r: u8,
    pub g: u8,
    pub b: u8,
}

/// The palettes a user can choose from.
#[derive(Clone, Copy, Debug, PartialEq, Eq)]
pub enum Palette {
    /// Eight rainbow colours, used twice over the sixteen channels.
    Rainbow,
    /// Sixteen rainbow colours, one per channel.
    ExtendedRainbow,
    /// A second, softer sixteen-colour rainbow.
    Vivid,
}

pub open spec fn rgb(r: u8, g: u8, b: u8) -> Rgb {
    Rgb { r, g, b }
}

/// The colour that `palette` gives to each of the sixteen channels.
pub open spec fn palette_colours(palette: Palette) -> Seq<Rgb> {
    match palette {
        Palette::Rainbow => seq![
            rgb(255, 0, 0), rgb(255, 128, 0), rgb(255, 255, 0), rgb(0, 255, 0),
            rgb(0, 255, 255), rgb(0, 0, 255), rgb(128, 0, 255), rgb(255, 0, 255),
            rgb(255, 0, 0), rgb(255, 128, 0), rgb(255, 255, 0), rgb(0, 255, 0),
            rgb(0, 255, 255), rgb(0, 0, 255), rgb(128, 0, 255), rgb(255, 0, 255),
        ],
        Palette::ExtendedRainbow => seq![
            rgb(255, 0, 0), rgb(255, 64, 0), rgb(255, 128, 0), rgb(255, 192, 0),
            rgb(255, 255, 0), rgb(128, 255, 0), rgb(0, 255, 0), rgb(0, 255, 128),
            rgb(0, 255, 255), rgb(0, 128, 255), rgb(0, 0, 255), rgb(64, 0, 255),
            rgb(128, 0, 255), rgb(192, 0, 255), rgb(255, 0, 255), rgb(255, 0, 128),
        ],
        Palette::Vivid => seq![
            rgb(228, 14, 22), rgb(255, 28, 33), rgb(255, 107, 33), rgb(255, 116, 0),
            rgb(255, 255, 0), rgb(254, 245, 80), rgb(142, 251, 2), rgb(38, 224, 0),
            rgb(34, 190, 2), rgb(0, 205, 245), rgb(0, 0, 255), rgb(0, 53, 239),
            rgb(34, 0, 167), rgb(117, 0, 159), rgb(209, 3, 130), rgb(255, 0, 255),
        ],
    }
}

/// The palette that a palette number selects. The number is reduced by the remainder of its
/// division by three, which keeps the sign of the number: a negative number that is no multiple
/// of three selects nothing.
pub open spec fn selected_palette(color_type: i32) -> Option<Palette> {
    if color_type % 3 == 0 {
        Some(Palette::Rainbow)
    } else if color_type < 0 {
        None
    } else if color_type % 3 == 1 {
        Some(Palette::ExtendedRainbow)
    } else {
        Some(Palette::Vivid)
    }
}

pub open spec fn digit(d: nat) -> char {
    if d == 0 {
        '0'
    } else if d == 1 {
        '1'
    } else if d == 2 {
        '2'
    } else if d == 3 {
        '3'
    } else if d == 4 {
        '4'
    } else if d == 5 {
        '5'
    } else if d == 6 {
        '6'
    } else if d == 7 {
        '7'
    } else if d == 8 {
        '8'
    } else {
        '9'
    }
}

/// The decimal digits of `n`, most significant first, without leading zeros.
pub open spec fn decimal(n: nat) -> Seq<char>
    decreases n,
{
    if n < 10 {
        seq![digit(n)]
    } else {
        decimal(n / 10).push(digit(n % 10))
    }
}

/// The SGR escape sequence that selects a 24-bit colour for `layer`, which is `38` for the
/// foreground and `48` for the background.
pub open spec fn colour_code(layer: Seq<char>, c: Rgb) -> Seq<char> {
    seq!['\x1b', '['] + layer + seq![';', '2', ';'] + decimal(c.r as nat) + seq![';'] + decimal(
        c.g as nat,
    ) + seq![';'] + decimal(c.b as nat) + seq!['m']
}

pub open spec fn foreground(c: Rgb) -> Seq<char> {
    colour_code(seq!['3', '8'], c)
}

pub open spec fn background(c: Rgb) -> Seq<char> {
    colour_code(seq!['4', '8'], c)
}

/// The mark that every shade draws, followed by the sequence that resets the colours.
pub open spec fn mark_and_reset() -> Seq<char> {
    seq!['#', '\x1b', '[', '0', 'm']
}

/// The shade of a black key: the mark in the channel's colour on the terminal's own background.
pub open spec fn black_shade(c: Rgb) -> Seq<char> {
    foreground(c) + mark_and_reset()
}

/// The shade of a white key: the mark in the channel's colour on a background of the same
/// colour, which fills the whole cell.
pub open spec fn white_shade(c: Rgb) -> Seq<char> {
    background(c) + foreground(c) + mark_and_reset()
}

/// `shades` is the table of black-key shades of `palette`: one entry per channel, each the
/// black shade of that channel's colour.
pub open spec fn is_black_table(shades: Seq<&str>, palette: Palette) -> bool {
    &&& shades.len() == CHANNEL_COUNT
    &&& forall|ch: int|
        0 <= ch < CHANNEL_COUNT ==> (#[trigger] shades[ch])@ == black_shade(
            palette_colours(palette)[ch],
        )
}

/// `shades` is the table of white-key shades of `palette`.
pub open spec fn is_white_table(shades: Seq<&str>, palette: Palette) -> bool {
    &&& shades.len() == CHANNEL_COUNT
    &&& forall|ch: int|
        0 <= ch < CHANNEL_COUNT ==> (#[trigger] shades[ch])@ == white_shade(
            palette_colours(palette)[ch],
        )
}

/// The black-key shades of the rainbow, one per channel.
#[verifier::rlimit(30)]
fn rainbow_black() -> (shades: Vec<&'static str>)
    ensures
        is_black_table(shades@, Palette::Rainbow),
{
    let shades = vec![
        "\x1b[38;2;255;0;0m#\x1b[0m",
        "\x1b[38;2;255;128;0m#\x1b[0m",
        "\x1b[38;2;255;255;0m#\x1b[0m",
        "\x1b[38;2;0;255;0m#\x1b[0m",
        "\x1b[38;2;0;255;255m#\x1b[0m",
        "\x1b[38;2;0;0;255m#\x1b[0m",
        "\x1b[38;2;128;0;255m#\x1b[0m",
        "\x1b[38;2;255;0;255m#\x1b[0m",
        "\x1b[38;2;255;0;0m#\x1b[0m",
        "\x1b[38;2;255;128;0m#\x1b[0m",
        "\x1b[38;2;255;255;0m#\x1b[0m",
        "\x1b[38;2;0;255;0m#\x1b[0m",
        "\x1b[38;2;0;255;255m#\x1b[0m",
        "\x1b[38;2;0;0;255m#\x1b[0m",
        "\x1b[38;2;128;0;255m#\x1b[0m",
        "\x1b[38;2;255;0;255m#\x1b[0m",
    ];
    proof {
        let colours = palette_colours(Palette::Rainbow);
        assert(shades@[0]@ == black_shade(colours[0])) by {
            reveal_with_fuel(decimal, 3);
            reveal_strlit("\x1b[38;2;255;0;0m#\x1b[0m");
        }
        assert(shades@[1]@ == black_shade(colours[1])) by {
            reveal_with_fuel(decimal, 3);
            reveal_strlit("\x1b[38;2;255;128;0m#\x1b[0m");
        }
        assert(shades@[2]@ == black_shade(colours[2])) by {
            reveal_with_fuel(decimal, 3);
            reveal_strlit("\x1b[38;2;255;255;0m#\x1b[0m");
        }
        assert(shades@[3]@ == black_shade(colours[3])) by {
            reveal_with_fuel(decimal, 3);
            reveal_strlit("\x1b[38;2;0;255;0m#\x1b[0m");
        }
        assert(shades@[4]@ == black_shade(colours[4])) by {
            reveal_with_fuel(decimal, 3);
            reveal_strlit("\x1b[38;2;0;255;255m#\x1b[0m");
        }
        assert(shades@[5]@ == black_shade(colours[5])) by {
            reveal_with_fuel(decimal, 3);
            reveal_strlit("\x1b[38;2;0;0;255m#\x1b[0m");
        }
        assert(shades@[6]@ == black_shade(colours[6])) by {
            reveal_with_fuel(decimal, 3);
            reveal_strlit("\x1b[38;2;128;0;255m#\x1b[0m");
        }
        assert(shades@[7]@ == black_shade(colours[7])) by {
            reveal_with_fuel(decimal, 3);
            reveal_strlit("\x1b[38;2;255;0;255m#\x1b[0m");
        }
        assert(shades@[8]@ == black_shade(colours[8])) by {
            reveal_with_fuel(decimal, 3);
            reveal_strlit("\x1b[38;2;255;0;0m#\x1b[0m");
        }
        assert(shades@[9]@ == black_shade(colours[9])) by {
            reveal_with_fuel(decimal, 3);
            reveal_strlit("\x1b[38;2;255;128;0m#\x1b[0m");
        }
        assert(shades@[10]@ == black_shade(colours[10])) by {
            reveal_with_fuel(decimal, 3);
            reveal_strlit("\x1b[38;2;255;255;0m#\x1b[0m");
        }
        assert(shades@[11]@ == black_shade(colours[11])) by {
            reveal_with_fuel(decimal, 3);
            reveal_strlit("\x1b[38;2;0;255;0m#\x1b[0m");
        }
        assert(shades@[12]@ == black_shade(colours[12])) by {
            reveal_with_fuel(decimal, 3);
            reveal_strlit("\x1b[38;2;0;255;255m#\x1b[0m");
        }
        assert(shades@[13]@ == black_shade(colours[13])) by {
            reveal_with_fuel(decimal, 3);
            reveal_strlit("\x1b[38;2;0;0;255m#\x1b[0m");
        }
        assert(shades@[14]@ == black_shade(colours[14])) by {
            reveal_with_fuel(decimal, 3);
            reveal_strlit("\x1b[38;2;128;0;255m#\x1b[0m");
        }
        assert(shades@[15]@ == black_shade(colours[15])) by {
            reveal_with_fuel(decimal, 3);
            reveal_strlit("\x1b[38;2;255;0;255m#\x1b[0m");
        }
    }
    shades
}

/// The white-key shades of the rainbow, one per channel.
#[verifier::rlimit(30)]
fn rainbow_white() -> (shades: Vec<&'static str>)
    ensures
        is_white_table(shades@, Palette::Rainbow),
{
    let shades = vec![
        "\x1b[48;2;255;0;0m\x1b[38;2;255;0;0m#\x1b[0m",
        "\x1b[48;2;255;128;0m\x1b[38;2;255;128;0m#\x1b[0m",
        "\x1b[48;2;255;255;0m\x1b[38;2;255;255;0m#\x1b[0m",
        "\x1b[48;2;0;255;0m\x1b[38;2;0;255;0m#\x1b[0m",
        "\x1b[48;2;0;255;255m\x1b[38;2;0;255;255m#\x1b[0m",
        "\x1b[48;2;0;0;255m\x1b[38;2;0;0;255m#\x1b[0m",
        "\x1b[48;2;128;0;255m\x1b[38;2;128;0;255m#\x1b[0m",
        "\x1b[48;2;255;0;255m\x1b[38;2;255;0;255m#\x1b[0m",
        "\x1b[48;2;255;0;0m\x1b[38;2;255;0;0m#\x1b[0m",
        "\x1b[48;2;255;128;0m\x1b[38;2;255;128;0m#\x1b[0m",
        "\x1b[48;2;255;255;0m\x1b[38;2;255;255;0m#\x1b[0m",
        "\x1b[48;2;0;255;0m\x1b[38;2;0;255;0m#\x1b[0m",
        "\x1b[48;2;0;255;255m\x1b[38;2;0;255;255m#\x1b[0m",
        "\x1b[48;2;0;0;255m\x1b[38;2;0;0;255m#\x1b[0m",
        "\x1b[48;2;128;0;255m\x1b[38;2;128;0;255m#\x1b[0m",
        "\x1b[48;2;255;0;255m\x1b[38;2;255;0;255m#\x1b[0m",
    ];
    proof {
        let colours = palette_colours(Palette::Rainbow);
        assert(shades@[0]@ == white_shade(colours[0])) by {
            reveal_with_fuel(decimal, 3);
            reveal_strlit("\x1b[48;2;255;0;0m\x1b[38;2;255;0;0m#\x1b[0m");
        }
        assert(shades@[1]@ == white_shade(colours[1])) by {
            reveal_with_fuel(decimal, 3);
            reveal_strlit("\x1b[48;2;255;128;0m\x1b[38;2;255;128;0m#\x1b[0m");
        }
        assert(shades@[2]@ == white_shade(colours[2])) by {
            reveal_with_fuel(decimal, 3);
            reveal_strlit("\x1b[48;2;255;255;0m\x1b[38;2;255;255;0m#\x1b[0m");
        }
        assert(shades@[3]@ == white_shade(colours[3])) by {
            reveal_with_fuel(decimal, 3);
            reveal_strlit("\x1b[48;2;0;255;0m\x1b[38;2;0;255;0m#\x1b[0m");
        }
        assert(shades@[4]@ == white_shade(colours[4])) by {
            reveal_with_fuel(decimal, 3);
            reveal_strlit("\x1b[48;2;0;255;255m\x1b[38;2;0;255;255m#\x1b[0m");
        }
        assert(shades@[5]@ == white_shade(colours[5])) by {
            reveal_with_fuel(decimal, 3);
            reveal_strlit("\x1b[48;2;0;0;255m\x1b[38;2;0;0;255m#\x1b[0m");
        }
        assert(shades@[6]@ == white_shade(colours[6])) by {
            reveal_with_fuel(decimal, 3);
            reveal_strlit("\x1b[48;2;128;0;255m\x1b[38;2;128;0;255m#\x1b[0m");
        }
        assert(shades@[7]@ == white_shade(colours[7])) by {
            reveal_with_fuel(decimal, 3);
            reveal_strlit("\x1b[48;2;255;0;255m\x1b[38;2;255;0;255m#\x1b[0m");
        }
        assert(shades@[8]@ == white_shade(colours[8])) by {
            reveal_with_fuel(decimal, 3);
            reveal_strlit("\x1b[48;2;255;0;0m\x1b[38;2;255;0;0m#\x1b[0m");
        }
        assert(shades@[9]@ == white_shade(colours[9])) by {
            reveal_with_fuel(decimal, 3);
            reveal_strlit("\x1b[48;2;255;128;0m\x1b[38;2;255;128;0m#\x1b[0m");
        }
        assert(shades@[10]@ == white_shade(colours[10])) by {
            reveal_with_fuel(decimal, 3);
            reveal_strlit("\x1b[48;2;255;255;0m\x1b[38;2;255;255;0m#\x1b[0m");
        }
        assert(shades@[11]@ == white_shade(colours[11])) by {
            reveal_with_fuel(decimal, 3);
            reveal_strlit("\x1b[48;2;0;255;0m\x1b[38;2;0;255;0m#\x1b[0m");
        }
        assert(shades@[12]@ == white_shade(colours[12])) by {
            reveal_with_fuel(decimal, 3);
            reveal_strlit("\x1b[48;2;0;255;255m\x1b[38;2;0;255;255m#\x1b[0m");
        }
        assert(shades@[13]@ == white_shade(colours[13])) by {
            reveal_with_fuel(decimal, 3);
            reveal_strlit("\x1b[48;2;0;0;255m\x1b[38;2;0;0;255m#\x1b[0m");
        }
        assert(shades@[14]@ == white_shade(colours[14])) by {
            reveal_with_fuel(decimal, 3);
            reveal_strlit("\x1b[48;2;128;0;255m\x1b[38;2;128;0;255m#\x1b[0m");
        }
        assert(shades@[15]@ == white_shade(colours[15])) by {
            reveal_with_fuel(decimal, 3);
            reveal_strlit("\x1b[48;2;255;0;255m\x1b[38;2;255;0;255m#\x1b[0m");
        }
    }
    shades
}

/// The black-key shades of the extended rainbow, one per channel.
#[verifier::rlimit(30)]
fn extended_rainbow_black() -> (shades: Vec<&'static str>)
    ensures
        is_black_table(shades@, Palette::ExtendedRainbow),
{
    let shades = vec![
        "\x1b[38;2;255;0;0m#\x1b[0m",
        "\x1b[38;2;255;64;0m#\x1b[0m",
        "\x1b[38;2;255;128;0m#\x1b[0m",
        "\x1b[38;2;255;192;0m#\x1b[0m",
        "\x1b[38;2;255;255;0m#\x1b[0m",
        "\x1b[38;2;128;255;0m#\x1b[0m",
        "\x1b[38;2;0;255;0m#\x1b[0m",
        "\x1b[38;2;0;255;128m#\x1b[0m",
        "\x1b[38;2;0;255;255m#\x1b[0m",
        "\x1b[38;2;0;128;255m#\x1b[0m",
        "\x1b[38;2;0;0;255m#\x1b[0m",
        "\x1b[38;2;64;0;255m#\x1b[0m",
        "\x1b[38;2;128;0;255m#\x1b[0m",
        "\x1b[38;2;192;0;255m#\x1b[0m",
        "\x1b[38;2;255;0;255m#\x1b[0m",
        "\x1b[38;2;255;0;128m#\x1b[0m",
    ];
    proof {
        let colours = palette_colours(Palette::ExtendedRainbow);
        assert(shades@[0]@ == black_shade(colours[0])) by {
            reveal_with_fuel(decimal, 3);
            reveal_strlit("\x1b[38;2;255;0;0m#\x1b[0m");
        }
        assert(shades@[1]@ == black_shade(colours[1])) by {
            reveal_with_fuel(decimal, 3);
            reveal_strlit("\x1b[38;2;255;64;0m#\x1b[0m");
        }
        assert(shades@[2]@ == black_shade(colours[2])) by {
            reveal_with_fuel(decimal, 3);
            reveal_strlit("\x1b[38;2;255;128;0m#\x1b[0m");
        }
        assert(shades@[3]@ == black_shade(colours[3])) by {
            reveal_with_fuel(decimal, 3);
            reveal_strlit("\x1b[38;2;255;192;0m#\x1b[0m");
        }
        assert(shades@[4]@ == black_shade(colours[4])) by {
            reveal_with_fuel(decimal, 3);
            reveal_strlit("\x1b[38;2;255;255;0m#\x1b[0m");
        }
        assert(shades@[5]@ == black_shade(colours[5])) by {
            reveal_with_fuel(decimal, 3);
            reveal_strlit("\x1b[38;2;128;255;0m#\x1b[0m");
        }
        assert(shades@[6]@ == black_shade(colours[6])) by {
            reveal_with_fuel(decimal, 3);
            reveal_strlit("\x1b[38;2;0;255;0m#\x1b[0m");
        }
        assert(shades@[7]@ == black_shade(colours[7])) by {
            reveal_with_fuel(decimal, 3);
            reveal_strlit("\x1b[38;2;0;255;128m#\x1b[0m");
        }
        assert(shades@[8]@ == black_shade(colours[8])) by {
            reveal_with_fuel(decimal, 3);
            reveal_strlit("\x1b[38;2;0;255;255m#\x1b[0m");
        }
        assert(shades@[9]@ == black_shade(colours[9])) by {
            reveal_with_fuel(decimal, 3);
            reveal_strlit("\x1b[38;2;0;128;255m#\x1b[0m");
        }
        assert(shades@[10]@ == black_shade(colours[10])) by {
            reveal_with_fuel(decimal, 3);
            reveal_strlit("\x1b[38;2;0;0;255m#\x1b[0m");
        }
        assert(shades@[11]@ == black_shade(colours[11])) by {
            reveal_with_fuel(decimal, 3);
            reveal_strlit("\x1b[38;2;64;0;255m#\x1b[0m");
        }
        assert(shades@[12]@ == black_shade(colours[12])) by {
            reveal_with_fuel(decimal, 3);
            reveal_strlit("\x1b[38;2;128;0;255m#\x1b[0m");
        }
        assert(shades@[13]@ == black_shade(colours[13])) by {
            reveal_with_fuel(decimal, 3);
            reveal_strlit("\x1b[38;2;192;0;255m#\x1b[0m");
        }
        assert(shades@[14]@ == black_shade(colours[14])) by {
            reveal_with_fuel(decimal, 3);
            reveal_strlit("\x1b[38;2;255;0;255m#\x1b[0m");
        }
        assert(shades@[15]@ == black_shade(colours[15])) by {
            reveal_with_fuel(decimal, 3);
            reveal_strlit("\x1b[38;2;255;0;128m#\x1b[0m");
        }
    }
    shades
}

/// The white-key shades of the extended rainbow, one per channel.
#[verifier::rlimit(30)]
fn extended_rainbow_white() -> (shades: Vec<&'static str>)
    ensures
        is_white_table(shades@, Palette::ExtendedRainbow),
{
    let shades = vec![
        "\x1b[48;2;255;0;0m\x1b[38;2;255;0;0m#\x1b[0m",
        "\x1b[48;2;255;64;0m\x1b[38;2;255;64;0m#\x1b[0m",
        "\x1b[48;2;255;128;0m\x1b[38;2;255;128;0m#\x1b[0m",
        "\x1b[48;2;255;192;0m\x1b[38;2;255;192;0m#\x1b[0m",
        "\x1b[48;2;255;255;0m\x1b[38;2;255;255;0m#\x1b[0m",
        "\x1b[48;2;128;255;0m\x1b[38;2;128;255;0m#\x1b[0m",
        "\x1b[48;2;0;255;0m\x1b[38;2;0;255;0m#\x1b[0m",
        "\x1b[48;2;0;255;128m\x1b[38;2;0;255;128m#\x1b[0m",
        "\x1b[48;2;0;255;255m\x1b[38;2;0;255;255m#\x1b[0m",
        "\x1b[48;2;0;128;255m\x1b[38;2;0;128;255m#\x1b[0m",
        "\x1b[48;2;0;0;255m\x1b[38;2;0;0;255m#\x1b[0m",
        "\x1b[48;2;64;0;255m\x1b[38;2;64;0;255m#\x1b[0m",
        "\x1b[48;2;128;0;255m\x1b[38;2;128;0;255m#\x1b[0m",
        "\x1b[48;2;192;0;255m\x1b[38;2;192;0;255m#\x1b[0m",
        "\x1b[48;2;255;0;255m\x1b[38;2;255;0;255m#\x1b[0m",
        "\x1b[48;2;255;0;128m\x1b[38;2;255;0;128m#\x1b[0m",
    ];
    proof {
        let colours = palette_colours(Palette::ExtendedRainbow);
        assert(shades@[0]@ == white_shade(colours[0])) by {
            reveal_with_fuel(decimal, 3);
            reveal_strlit("\x1b[48;2;255;0;0m\x1b[38;2;255;0;0m#\x1b[0m");
        }
        assert(shades@[1]@ == white_shade(colours[1])) by {
            reveal_with_fuel(decimal, 3);
            reveal_strlit("\x1b[48;2;255;64;0m\x1b[38;2;255;64;0m#\x1b[0m");
        }
        assert(shades@[2]@ == white_shade(colours[2])) by {
            reveal_with_fuel(decimal, 3);
            reveal_strlit("\x1b[48;2;255;128;0m\x1b[38;2;255;128;0m#\x1b[0m");
        }
        assert(shades@[3]@ == white_shade(colours[3])) by {
            reveal_with_fuel(decimal, 3);
            reveal_strlit("\x1b[48;2;255;192;0m\x1b[38;2;255;192;0m#\x1b[0m");
        }
        assert(shades@[4]@ == white_shade(colours[4])) by {
            reveal_with_fuel(decimal, 3);
            reveal_strlit("\x1b[48;2;255;255;0m\x1b[38;2;255;255;0m#\x1b[0m");
        }
        assert(shades@[5]@ == white_shade(colours[5])) by {
            reveal_with_fuel(decimal, 3);
            reveal_strlit("\x1b[48;2;128;255;0m\x1b[38;2;128;255;0m#\x1b[0m");
        }
        assert(shades@[6]@ == white_shade(colours[6])) by {
            reveal_with_fuel(decimal, 3);
            reveal_strlit("\x1b[48;2;0;255;0m\x1b[38;2;0;255;0m#\x1b[0m");
        }
        assert(shades@[7]@ == white_shade(colours[7])) by {
            reveal_with_fuel(decimal, 3);
            reveal_strlit("\x1b[48;2;0;255;128m\x1b[38;2;0;255;128m#\x1b[0m");
        }
        assert(shades@[8]@ == white_shade(colours[8])) by {
            reveal_with_fuel(decimal, 3);
            reveal_strlit("\x1b[48;2;0;255;255m\x1b[38;2;0;255;255m#\x1b[0m");
        }
        assert(shades@[9]@ == white_shade(colours[9])) by {
            reveal_with_fuel(decimal, 3);
            reveal_strlit("\x1b[48;2;0;128;255m\x1b[38;2;0;128;255m#\x1b[0m");
        }
        assert(shades@[10]@ == white_shade(colours[10])) by {
            reveal_with_fuel(decimal, 3);
            reveal_strlit("\x1b[48;2;0;0;255m\x1b[38;2;0;0;255m#\x1b[0m");
        }
        assert(shades@[11]@ == white_shade(colours[11])) by {
            reveal_with_fuel(decimal, 3);
            reveal_strlit("\x1b[48;2;64;0;255m\x1b[38;2;64;0;255m#\x1b[0m");
        }
        assert(shades@[12]@ == white_shade(colours[12])) by {
            reveal_with_fuel(decimal, 3);
            reveal_strlit("\x1b[48;2;128;0;255m\x1b[38;2;128;0;255m#\x1b[0m");
        }
        assert(shades@[13]@ == white_shade(colours[13])) by {
            reveal_with_fuel(decimal, 3);
            reveal_strlit("\x1b[48;2;192;0;255m\x1b[38;2;192;0;255m#\x1b[0m");
        }
        assert(shades@[14]@ == white_shade(colours[14])) by {
            reveal_with_fuel(decimal, 3);
            reveal_strlit("\x1b[48;2;255;0;255m\x1b[38;2;255;0;255m#\x1b[0m");
        }
        assert(shades@[15]@ == white_shade(colours[15])) by {
            reveal_with_fuel(decimal, 3);
            reveal_strlit("\x1b[48;2;255;0;128m\x1b[38;2;255;0;128m#\x1b[0m");
        }
    }
    shades
}

/// The black-key shades of the vivid rainbow, one per channel.
#[verifier::rlimit(30)]
fn vivid_black() -> (shades: Vec<&'static str>)
    ensures
        is_black_table(shades@, Palette::Vivid),
{
    let shades = vec![
        "\x1b[38;2;228;14;22m#\x1b[0m",
        "\x1b[38;2;255;28;33m#\x1b[0m",
        "\x1b[38;2;255;107;33m#\x1b[0m",
        "\x1b[38;2;255;116;0m#\x1b[0m",
        "\x1b[38;2;255;255;0m#\x1b[0m",
        "\x1b[38;2;254;245;80m#\x1b[0m",
        "\x1b[38;2;142;251;2m#\x1b[0m",
        "\x1b[38;2;38;224;0m#\x1b[0m",
        "\x1b[38;2;34;190;2m#\x1b[0m",
        "\x1b[38;2;0;205;245m#\x1b[0m",
        "\x1b[38;2;0;0;255m#\x1b[0m",
        "\x1b[38;2;0;53;239m#\x1b[0m",
        "\x1b[38;2;34;0;167m#\x1b[0m",
        "\x1b[38;2;117;0;159m#\x1b[0m",
        "\x1b[38;2;209;3;130m#\x1b[0m",
        "\x1b[38;2;255;0;255m#\x1b[0m",
    ];
    proof {
        let colours = palette_colours(Palette::Vivid);
        assert(shades@[0]@ == black_shade(colours[0])) by {
            reveal_with_fuel(decimal, 3);
            reveal_strlit("\x1b[38;2;228;14;22m#\x1b[0m");
        }
        assert(shades@[1]@ == black_shade(colours[1])) by {
            reveal_with_fuel(decimal, 3);
            reveal_strlit("\x1b[38;2;255;28;33m#\x1b[0m");
        }
        assert(shades@[2]@ == black_shade(colours[2])) by {
            reveal_with_fuel(decimal, 3);
            reveal_strlit("\x1b[38;2;255;107;33m#\x1b[0m");
        }
        assert(shades@[3]@ == black_shade(colours[3])) by {
            reveal_with_fuel(decimal, 3);
            reveal_strlit("\x1b[38;2;255;116;0m#\x1b[0m");
        }
        assert(shades@[4]@ == black_shade(colours[4])) by {
            reveal_with_fuel(decimal, 3);
            reveal_strlit("\x1b[38;2;255;255;0m#\x1b[0m");
        }
        assert(shades@[5]@ == black_shade(colours[5])) by {
            reveal_with_fuel(decimal, 3);
            reveal_strlit("\x1b[38;2;254;245;80m#\x1b[0m");
        }
        assert(shades@[6]@ == black_shade(colours[6])) by {
            reveal_with_fuel(decimal, 3);
            reveal_strlit("\x1b[38;2;142;251;2m#\x1b[0m");
        }
        assert(shades@[7]@ == black_shade(colours[7])) by {
            reveal_with_fuel(decimal, 3);
            reveal_strlit("\x1b[38;2;38;224;0m#\x1b[0m");
        }
        assert(shades@[8]@ == black_shade(colours[8])) by {
            reveal_with_fuel(decimal, 3);
            reveal_strlit("\x1b[38;2;34;190;2m#\x1b[0m");
        }
        assert(shades@[9]@ == black_shade(colours[9])) by {
            reveal_with_fuel(decimal, 3);
            reveal_strlit("\x1b[38;2;0;205;245m#\x1b[0m");
        }
        assert(shades@[10]@ == black_shade(colours[10])) by {
            reveal_with_fuel(decimal, 3);
            reveal_strlit("\x1b[38;2;0;0;255m#\x1b[0m");
        }
        assert(shades@[11]@ == black_shade(colours[11])) by {
            reveal_with_fuel(decimal, 3);
            reveal_strlit("\x1b[38;2;0;53;239m#\x1b[0m");
        }
        assert(shades@[12]@ == black_shade(colours[12])) by {
            reveal_with_fuel(decimal, 3);
            reveal_strlit("\x1b[38;2;34;0;167m#\x1b[0m");
        }
        assert(shades@[13]@ == black_shade(colours[13])) by {
            reveal_with_fuel(decimal, 3);
            reveal_strlit("\x1b[38;2;117;0;159m#\x1b[0m");
        }
        assert(shades@[14]@ == black_shade(colours[14])) by {
            reveal_with_fuel(decimal, 3);
            reveal_strlit("\x1b[38;2;209;3;130m#\x1b[0m");
        }
        assert(shades@[15]@ == black_shade(colours[15])) by {
            reveal_with_fuel(decimal, 3);
            reveal_strlit("\x1b[38;2;255;0;255m#\x1b[0m");
        }
    }
    shades
}

/// The white-key shades of the vivid rainbow, one per channel.
#[verifier::rlimit(30)]
fn vivid_white() -> (shades: Vec<&'static str>)
    ensures
        is_white_table(shades@, Palette::Vivid),
{
    let shades = vec![
        "\x1b[48;2;228;14;22m\x1b[38;2;228;14;22m#\x1b[0m",
        "\x1b[48;2;255;28;33m\x1b[38;2;255;28;33m#\x1b[0m",
        "\x1b[48;2;255;107;33m\x1b[38;2;255;107;33m#\x1b[0m",
        "\x1b[48;2;255;116;0m\x1b[38;2;255;116;0m#\x1b[0m",
        "\x1b[48;2;255;255;0m\x1b[38;2;255;255;0m#\x1b[0m",
        "\x1b[48;2;254;245;80m\x1b[38;2;254;245;80m#\x1b[0m",
        "\x1b[48;2;142;251;2m\x1b[38;2;142;251;2m#\x1b[0m",
        "\x1b[48;2;38;224;0m\x1b[38;2;38;224;0m#\x1b[0m",
        "\x1b[48;2;34;190;2m\x1b[38;2;34;190;2m#\x1b[0m",
        "\x1b[48;2;0;205;245m\x1b[38;2;0;205;245m#\x1b[0m",
        "\x1b[48;2;0;0;255m\x1b[38;2;0;0;255m#\x1b[0m",
        "\x1b[48;2;0;53;239m\x1b[38;2;0;53;239m#\x1b[0m",
        "\x1b[48;2;34;0;167m\x1b[38;2;34;0;167m#\x1b[0m",
        "\x1b[48;2;117;0;159m\x1b[38;2;117;0;159m#\x1b[0m",
        "\x1b[48;2;209;3;130m\x1b[38;2;209;3;130m#\x1b[0m",
        "\x1b[48;2;255;0;255m\x1b[38;2;255;0;255m#\x1b[0m",
    ];
    proof {
        let colours = palette_colours(Palette::Vivid);
        assert(shades@[0]@ == white_shade(colours[0])) by {
            reveal_with_fuel(decimal, 3);
            reveal_strlit("\x1b[48;2;228;14;22m\x1b[38;2;228;14;22m#\x1b[0m");
        }
        assert(shades@[1]@ == white_shade(colours[1])) by {
            reveal_with_fuel(decimal, 3);
            reveal_strlit("\x1b[48;2;255;28;33m\x1b[38;2;255;28;33m#\x1b[0m");
        }
        assert(shades@[2]@ == white_shade(colours[2])) by {
            reveal_with_fuel(decimal, 3);
            reveal_strlit("\x1b[48;2;255;107;33m\x1b[38;2;255;107;33m#\x1b[0m");
        }
        assert(shades@[3]@ == white_shade(colours[3])) by {
            reveal_with_fuel(decimal, 3);
            reveal_strlit("\x1b[48;2;255;116;0m\x1b[38;2;255;116;0m#\x1b[0m");
        }
        assert(shades@[4]@ == white_shade(colours[4])) by {
            reveal_with_fuel(decimal, 3);
            reveal_strlit("\x1b[48;2;255;255;0m\x1b[38;2;255;255;0m#\x1b[0m");
        }
        assert(shades@[5]@ == white_shade(colours[5])) by {
            reveal_with_fuel(decimal, 3);
            reveal_strlit("\x1b[48;2;254;245;80m\x1b[38;2;254;245;80m#\x1b[0m");
        }
        assert(shades@[6]@ == white_shade(colours[6])) by {
            reveal_with_fuel(decimal, 3);
            reveal_strlit("\x1b[48;2;142;251;2m\x1b[38;2;142;251;2m#\x1b[0m");
        }
        assert(shades@[7]@ == white_shade(colours[7])) by {
            reveal_with_fuel(decimal, 3);
            reveal_strlit("\x1b[48;2;38;224;0m\x1b[38;2;38;224;0m#\x1b[0m");
        }
        assert(shades@[8]@ == white_shade(colours[8])) by {
            reveal_with_fuel(decimal, 3);
            reveal_strlit("\x1b[48;2;34;190;2m\x1b[38;2;34;190;2m#\x1b[0m");
        }
        assert(shades@[9]@ == white_shade(colours[9])) by {
            reveal_with_fuel(decimal, 3);
            reveal_strlit("\x1b[48;2;0;205;245m\x1b[38;2;0;205;245m#\x1b[0m");
        }
        assert(shades@[10]@ == white_shade(colours[10])) by {
            reveal_with_fuel(decimal, 3);
            reveal_strlit("\x1b[48;2;0;0;255m\x1b[38;2;0;0;255m#\x1b[0m");
        }
        assert(shades@[11]@ == white_shade(colours[11])) by {
            reveal_with_fuel(decimal, 3);
            reveal_strlit("\x1b[48;2;0;53;239m\x1b[38;2;0;53;239m#\x1b[0m");
        }
        assert(shades@[12]@ == white_shade(colours[12])) by {
            reveal_with_fuel(decimal, 3);
            reveal_strlit("\x1b[48;2;34;0;167m\x1b[38;2;34;0;167m#\x1b[0m");
        }
        assert(shades@[13]@ == white_shade(colours[13])) by {
            reveal_with_fuel(decimal, 3);
            reveal_strlit("\x1b[48;2;117;0;159m\x1b[38;2;117;0;159m#\x1b[0m");
        }
        assert(shades@[14]@ == white_shade(colours[14])) by {
            reveal_with_fuel(decimal, 3);
            reveal_strlit("\x1b[48;2;209;3;130m\x1b[38;2;209;3;130m#\x1b[0m");
        }
        assert(shades@[15]@ == white_shade(colours[15])) by {
            reveal_with_fuel(decimal, 3);
            reveal_strlit("\x1b[48;2;255;0;255m\x1b[38;2;255;0;255m#\x1b[0m");
        }
    }
    shades
}

/// Fills the two shade tables from the palette that `color_type` selects, and leaves both as
/// they are where it selects none.
pub fn set_palette(color_type: i32, note_shades_b: &mut Vec<&str>, note_shades_w: &mut Vec<&str>)
    ensures
        match selected_palette(color_type) {
            Some(palette) => is_black_table(final(note_shades_b)@, palette) && is_white_table(
                final(note_shades_w)@,
                palette,
            ),
            None => {
                &&& final(note_shades_b)@ == old(note_shades_b)@
                &&& final(note_shades_w)@ == old(note_shades_w)@
            },
        },
{
    match color_type % 3 {
        0 => {
            *note_shades_b = rainbow_black();
            *note_shades_w = rainbow_white();
        },
        1 => {
            *note_shades_b = extended_rainbow_black();
            *note_shades_w = extended_rainbow_white();
        },
        2 => {
            *note_shades_b = vivid_black();
            *note_shades_w = vivid_white();
        },
        _ => {},
    }
}

} // verus!
