//! The main menu: its keys, the palette steps, the colour legend and the animated greeting.

use crate::palette::{
    foreground, is_black_table, is_white_table, palette_colours, selected_palette, set_palette,
    Palette, CHANNEL_COUNT,
};
use vstd::prelude::*;
use vstd::string::*;

verus! {

/// The remainder of the division by three that keeps the sign of `n`.
pub open spec fn signed_rem3(n: int) -> int {
    if n >= 0 {
        n % 3
    } else {
        -((-n) % 3)
    }
}

/// The palette number after this one.
pub fn next_palette(color_type: i32) -> (next: i32)
    requires
        color_type < i32::MAX,
    ensures
        next == signed_rem3(color_type + 1),
{
    (color_type + 1) % 3
}

/// The palette number before this one.
pub fn previous_palette(color_type: i32) -> (previous: i32)
    requires
        color_type <= i32::MAX - 2,
    ensures
        previous == signed_rem3(color_type + 2),
{
    (color_type + 2) % 3
}

/// From a palette number that is not negative, three steps forward lead back to the palette
/// it selects, and a step back undoes a step forward.
pub proof fn lemma_palettes_cycle(color_type: i32)
    requires
        0 <= color_type <= i32::MAX - 3,
    ensures
        selected_palette(signed_rem3(signed_rem3(signed_rem3(color_type + 1) + 1) + 1) as i32)
            == selected_palette(color_type),
        selected_palette(signed_rem3(signed_rem3(color_type + 1) + 2) as i32) == selected_palette(
            color_type,
        ),
{
}

/// A key pressed in the main menu.
#[derive(Clone, Copy, Debug, PartialEq, Eq, Structural)]
pub enum MenuKey {
    Escape,
    /// The key that asks for another file.
    ChooseFile,
    Right,
    Left,
    /// The key that shows and hides the help.
    Help,
    Other,
}

/// What the program has to do after a key.
#[derive(Clone, Copy, Debug, PartialEq, Eq, Structural)]
pub enum MenuAction {
    /// Clear the screen and leave the program.
    Quit,
    /// Ask for a file and show its path.
    AskForFile,
    /// Draw the colour legend again, from the new shade tables.
    RedrawLegend,
    ShowHelp,
    HideHelp,
    /// Leave the menu and start the playback.
    Start,
}

/// The state of the main menu.
pub struct Menu {
    /// The number of the chosen palette.
    pub color_type: i32,
    /// Whether the help is shown.
    pub help: bool,
    /// Whether the menu is still open.
    pub open: bool,
    pub note_shades_b: Vec<&'static str>,
    pub note_shades_w: Vec<&'static str>,
}

impl Menu {
    /// The palette number can take the steps that the arrow keys ask for.
    pub open spec fn wf(&self) -> bool {
        self.color_type <= i32::MAX - 2
    }

    /// The shade tables are those of the palette that `color_type` selects, and are untouched
    /// where it selects none.
    pub open spec fn shades_follow(&self, before: &Menu) -> bool {
        match selected_palette(self.color_type) {
            Some(palette) => is_black_table(self.note_shades_b@, palette) && is_white_table(
                self.note_shades_w@,
                palette,
            ),
            None => self.note_shades_b@ == before.note_shades_b@ && self.note_shades_w@
                == before.note_shades_w@,
        }
    }

    /// The open menu with the shades of the palette that `color_type` selects.
    pub fn new(color_type: i32) -> (menu: Menu)
        ensures
            menu.color_type == color_type,
            !menu.help,
            menu.open,
            match selected_palette(color_type) {
                Some(palette) => is_black_table(menu.note_shades_b@, palette) && is_white_table(
                    menu.note_shades_w@,
                    palette,
                ),
                None => menu.note_shades_b@.len() == 0 && menu.note_shades_w@.len() == 0,
            },
    {
        let mut note_shades_b: Vec<&'static str> = Vec::new();
        let mut note_shades_w: Vec<&'static str> = Vec::new();
        set_palette(color_type, &mut note_shades_b, &mut note_shades_w);
        Menu { color_type, help: false, open: true, note_shades_b, note_shades_w }
    }

    /// Takes a key and says what the program has to do. The arrow keys step through the
    /// palettes and load their shades, the help key turns the help on and off, the file key
    /// and the escape key change nothing here, and every other key closes the menu.
    pub fn press(&mut self, key: MenuKey) -> (action: MenuAction)
        requires
            old(self).wf(),
        ensures
            final(self).wf(),
            match key {
                MenuKey::Escape => action == MenuAction::Quit && *final(self) == *old(self),
                MenuKey::ChooseFile => action == MenuAction::AskForFile && *final(self) == *old(
                    self,
                ),
                MenuKey::Right => {
                    &&& action == MenuAction::RedrawLegend
                    &&& final(self).color_type == signed_rem3(old(self).color_type + 1)
                    &&& final(self).shades_follow(old(self))
                    &&& final(self).help == old(self).help
                    &&& final(self).open == old(self).open
                },
                MenuKey::Left => {
                    &&& action == MenuAction::RedrawLegend
                    &&& final(self).color_type == signed_rem3(old(self).color_type + 2)
                    &&& final(self).shades_follow(old(self))
                    &&& final(self).help == old(self).help
                    &&& final(self).open == old(self).open
                },
                MenuKey::Help => {
                    &&& final(self).help == !old(self).help
                    &&& action == if final(self).help {
                        MenuAction::ShowHelp
                    } else {
                        MenuAction::HideHelp
                    }
                    &&& final(self).color_type == old(self).color_type
                    &&& final(self).open == old(self).open
                    &&& final(self).note_shades_b@ == old(self).note_shades_b@
                    &&& final(self).note_shades_w@ == old(self).note_shades_w@
                },
                MenuKey::Other => {
                    &&& action == MenuAction::Start
                    &&& !final(self).open
                    &&& final(self).color_type == old(self).color_type
                    &&& final(self).help == old(self).help
                    &&& final(self).note_shades_b@ == old(self).note_shades_b@
                    &&& final(self).note_shades_w@ == old(self).note_shades_w@
                },
            },
    {
        match key {
            MenuKey::Escape => MenuAction::Quit,
            MenuKey::ChooseFile => MenuAction::AskForFile,
            MenuKey::Right => {
                self.color_type = next_palette(self.color_type);
                set_palette(self.color_type, &mut self.note_shades_b, &mut self.note_shades_w);
                MenuAction::RedrawLegend
            },
            MenuKey::Left => {
                self.color_type = previous_palette(self.color_type);
                set_palette(self.color_type, &mut self.note_shades_b, &mut self.note_shades_w);
                MenuAction::RedrawLegend
            },
            MenuKey::Help => {
                self.help = !self.help;
                if self.help {
                    MenuAction::ShowHelp
                } else {
                    MenuAction::HideHelp
                }
            },
            MenuKey::Other => {
                self.open = false;
                MenuAction::Start
            },
        }
    }
}

/// What stands before the shade of each channel in the colour legend.
pub open spec fn legend_label(channel: int) -> Seq<char> {
    if channel == 0 {
        "Channel colors:\n0: "@
    } else if channel == 1 {
        " 1: "@
    } else if channel == 2 {
        " 2:  "@
    } else if channel == 3 {
        "  3: "@
    } else if channel == 4 {
        "  4: "@
    } else if channel == 5 {
        "  5: "@
    } else if channel == 6 {
        "  6: "@
    } else if channel == 7 {
        "  7: "@
    } else if channel == 8 {
        "\n8: "@
    } else if channel == 9 {
        " 9: "@
    } else if channel == 10 {
        " 10: "@
    } else if channel == 11 {
        " 11: "@
    } else if channel == 12 {
        " 12: "@
    } else if channel == 13 {
        " 13: "@
    } else if channel == 14 {
        " 14: "@
    } else {
        " 15: "@
    }
}

/// The colour legend up to, and without, the channel `channels`: for each channel its label
/// and its white shade.
pub open spec fn legend_text(note_shades_w: Seq<&str>, channels: int) -> Seq<char>
    decreases channels,
{
    if channels <= 0 {
        Seq::empty()
    } else {
        legend_text(note_shades_w, channels - 1) + legend_label(channels - 1)
            + note_shades_w[channels - 1]@
    }
}

fn label_of(channel: usize) -> (label: &'static str)
    requires
        channel < CHANNEL_COUNT,
    ensures
        label@ == legend_label(channel as int),
{
    match channel {
        0 => "Channel colors:\n0: ",
        1 => " 1: ",
        2 => " 2:  ",
        3 => "  3: ",
        4 => "  4: ",
        5 => "  5: ",
        6 => "  6: ",
        7 => "  7: ",
        8 => "\n8: ",
        9 => " 9: ",
        10 => " 10: ",
        11 => " 11: ",
        12 => " 12: ",
        13 => " 13: ",
        14 => " 14: ",
        _ => " 15: ",
    }
}

/// The colour legend of the main menu: the sixteen channels with their white shades, on
/// three lines.
pub fn channel_legend(note_shades_w: &Vec<&str>) -> (legend: String)
    requires
        note_shades_w@.len() == CHANNEL_COUNT,
    ensures
        legend@ == legend_text(note_shades_w@, CHANNEL_COUNT as int),
{
    let mut legend = String::new();
    let mut channel: usize = 0;
    while channel < CHANNEL_COUNT
        invariant
            channel <= CHANNEL_COUNT,
            note_shades_w@.len() == CHANNEL_COUNT,
            legend@ == legend_text(note_shades_w@, channel as int),
        decreases CHANNEL_COUNT - channel,
    {
        legend.append(label_of(channel));
        legend.append(note_shades_w[channel]);
        channel += 1;
    }
    legend
}

/// The letters of the program's name.
pub open spec fn title_letter(at: int) -> Seq<char> {
    if at == 0 {
        seq!['U']
    } else if at == 1 {
        seq!['n']
    } else if at == 2 {
        seq!['i']
    } else if at == 3 {
        seq!['M']
    } else if at == 4 {
        seq!['I']
    } else if at == 5 {
        seq!['D']
    } else {
        seq!['I']
    }
}

/// The first `letters` letters of the name in the frame `frame` of the title animation: each
/// letter in the rainbow colour one further than the letter before it, the first in the
/// colour of the frame's number.
pub open spec fn title_text(frame: int, letters: int) -> Seq<char>
    decreases letters,
{
    if letters <= 0 {
        Seq::empty()
    } else {
        title_text(frame, letters - 1) + foreground(
            palette_colours(Palette::Rainbow)[(frame + letters - 1) % 16],
        ) + title_letter(letters - 1)
    }
}

/// The greeting in the frame `frame` of the title animation.
pub open spec fn banner_text(frame: int) -> Seq<char> {
    "Welcome to "@ + title_text(frame, 7) + "\x1b[0m."@
}

/// The escape sequence that sets the foreground to a colour of the rainbow.
#[verifier::rlimit(30)]
fn title_color(index: usize) -> (code: &'static str)
    requires
        index < CHANNEL_COUNT,
    ensures
        code@ == foreground(palette_colours(Palette::Rainbow)[index as int]),
{
    let colours = Ghost(palette_colours(Palette::Rainbow));
    match index {
        0 => {
            let code = "\x1b[38;2;255;0;0m";
            assert(code@ == foreground(colours@[0])) by {
                reveal_with_fuel(crate::palette::decimal, 3);
                reveal_strlit("\x1b[38;2;255;0;0m");
            }
            code
        },
        1 => {
            let code = "\x1b[38;2;255;128;0m";
            assert(code@ == foreground(colours@[1])) by {
                reveal_with_fuel(crate::palette::decimal, 3);
                reveal_strlit("\x1b[38;2;255;128;0m");
            }
            code
        },
        2 => {
            let code = "\x1b[38;2;255;255;0m";
            assert(code@ == foreground(colours@[2])) by {
                reveal_with_fuel(crate::palette::decimal, 3);
                reveal_strlit("\x1b[38;2;255;255;0m");
            }
            code
        },
        3 => {
            let code = "\x1b[38;2;0;255;0m";
            assert(code@ == foreground(colours@[3])) by {
                reveal_with_fuel(crate::palette::decimal, 3);
                reveal_strlit("\x1b[38;2;0;255;0m");
            }
            code
        },
        4 => {
            let code = "\x1b[38;2;0;255;255m";
            assert(code@ == foreground(colours@[4])) by {
                reveal_with_fuel(crate::palette::decimal, 3);
                reveal_strlit("\x1b[38;2;0;255;255m");
            }
            code
        },
        5 => {
            let code = "\x1b[38;2;0;0;255m";
            assert(code@ == foreground(colours@[5])) by {
                reveal_with_fuel(crate::palette::decimal, 3);
                reveal_strlit("\x1b[38;2;0;0;255m");
            }
            code
        },
        6 => {
            let code = "\x1b[38;2;128;0;255m";
            assert(code@ == foreground(colours@[6])) by {
                reveal_with_fuel(crate::palette::decimal, 3);
                reveal_strlit("\x1b[38;2;128;0;255m");
            }
            code
        },
        7 => {
            let code = "\x1b[38;2;255;0;255m";
            assert(code@ == foreground(colours@[7])) by {
                reveal_with_fuel(crate::palette::decimal, 3);
                reveal_strlit("\x1b[38;2;255;0;255m");
            }
            code
        },
        8 => {
            let code = "\x1b[38;2;255;0;0m";
            assert(code@ == foreground(colours@[8])) by {
                reveal_with_fuel(crate::palette::decimal, 3);
                reveal_strlit("\x1b[38;2;255;0;0m");
            }
            code
        },
        9 => {
            let code = "\x1b[38;2;255;128;0m";
            assert(code@ == foreground(colours@[9])) by {
                reveal_with_fuel(crate::palette::decimal, 3);
                reveal_strlit("\x1b[38;2;255;128;0m");
            }
            code
        },
        10 => {
            let code = "\x1b[38;2;255;255;0m";
            assert(code@ == foreground(colours@[10])) by {
                reveal_with_fuel(crate::palette::decimal, 3);
                reveal_strlit("\x1b[38;2;255;255;0m");
            }
            code
        },
        11 => {
            let code = "\x1b[38;2;0;255;0m";
            assert(code@ == foreground(colours@[11])) by {
                reveal_with_fuel(crate::palette::decimal, 3);
                reveal_strlit("\x1b[38;2;0;255;0m");
            }
            code
        },
        12 => {
            let code = "\x1b[38;2;0;255;255m";
            assert(code@ == foreground(colours@[12])) by {
                reveal_with_fuel(crate::palette::decimal, 3);
                reveal_strlit("\x1b[38;2;0;255;255m");
            }
            code
        },
        13 => {
            let code = "\x1b[38;2;0;0;255m";
            assert(code@ == foreground(colours@[13])) by {
                reveal_with_fuel(crate::palette::decimal, 3);
                reveal_strlit("\x1b[38;2;0;0;255m");
            }
            code
        },
        14 => {
            let code = "\x1b[38;2;128;0;255m";
            assert(code@ == foreground(colours@[14])) by {
                reveal_with_fuel(crate::palette::decimal, 3);
                reveal_strlit("\x1b[38;2;128;0;255m");
            }
            code
        },
        _ => {
            let code = "\x1b[38;2;255;0;255m";
            assert(code@ == foreground(colours@[15])) by {
                reveal_with_fuel(crate::palette::decimal, 3);
                reveal_strlit("\x1b[38;2;255;0;255m");
            }
            code
        },
    }
}

fn letter_of(at: usize) -> (letter: &'static str)
    requires
        at < 7,
    ensures
        letter@ == title_letter(at as int),
{
    proof {
        reveal_strlit("U");
        reveal_strlit("n");
        reveal_strlit("i");
        reveal_strlit("M");
        reveal_strlit("I");
        reveal_strlit("D");
    }
    let letter = match at {
        0 => "U",
        1 => "n",
        2 => "i",
        3 => "M",
        4 => "I",
        5 => "D",
        _ => "I",
    };
    assert(letter@ =~= title_letter(at as int));
    letter
}

/// The greeting of the main menu in one frame of its animation.
pub fn welcome_banner(frame: usize) -> (banner: String)
    requires
        frame + 6 <= usize::MAX,
    ensures
        banner@ == banner_text(frame as int),
{
    let mut banner = String::from_str("Welcome to ");
    let mut at: usize = 0;
    while at < 7
        invariant
            at <= 7,
            frame + 6 <= usize::MAX,
            banner@ == "Welcome to "@ + title_text(frame as int, at as int),
        decreases 7 - at,
    {
        banner.append(title_color((frame + at) % 16));
        banner.append(letter_of(at));
        at += 1;
    }
    banner.append("\x1b[0m.");
    banner
}

} // verus!
