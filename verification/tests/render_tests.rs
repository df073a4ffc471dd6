use unimidi::overlap::Glyph;
use unimidi::palette::set_palette;
use unimidi::render::{cell, plain_shade, render_row};

fn shade_tables(color_type: i32) -> (Vec<&'static str>, Vec<&'static str>) {
    let mut black = Vec::new();
    let mut white = Vec::new();
    set_palette(color_type, &mut black, &mut white);
    (black, white)
}

#[test]
fn plain_marks_repeat_after_eight_colours() {
    let marks = ["`", ".", ",", "!", "#", "&", "$", "@", "`", ".", ",", "!", "#", "&", "$", "@"];
    for color in 0..16u8 {
        assert_eq!(plain_shade(color), marks[color as usize]);
    }
}

#[test]
fn blank_cell_is_a_space() {
    let (black, white) = shade_tables(0);
    assert_eq!(cell(Glyph::Blank, true, &black, &white), " ");
    assert_eq!(cell(Glyph::Blank, false, &black, &white), " ");
}

#[test]
fn note_cell_takes_the_shade_of_its_key_colour() {
    let (black, white) = shade_tables(0);
    assert_eq!(
        cell(Glyph::Note { color: 1, black: true }, true, &black, &white),
        "\x1b[38;2;255;128;0m#\x1b[0m"
    );
    assert_eq!(
        cell(Glyph::Note { color: 1, black: false }, true, &black, &white),
        "\x1b[48;2;255;128;0m\x1b[38;2;255;128;0m#\x1b[0m"
    );
    assert_eq!(cell(Glyph::Note { color: 1, black: true }, false, &black, &white), ".");
    assert_eq!(cell(Glyph::Note { color: 15, black: false }, false, &black, &white), "@");
}

#[test]
fn row_is_drawn_cell_by_cell() {
    let (black, white) = shade_tables(1);
    let row = vec![
        Glyph::Blank,
        Glyph::Note { color: 0, black: false },
        Glyph::Note { color: 15, black: true },
        Glyph::Blank,
    ];
    assert_eq!(
        render_row(&row, true, &black, &white),
        " \x1b[48;2;255;0;0m\x1b[38;2;255;0;0m#\x1b[0m\x1b[38;2;255;0;128m#\x1b[0m "
    );
    assert_eq!(render_row(&row, false, &black, &white), " `@ ");
    assert_eq!(render_row(&Vec::new(), true, &black, &white), "");
}

#[test]
fn blank_keyboard_is_a_line_of_spaces() {
    let (black, white) = shade_tables(2);
    let row = vec![Glyph::Blank; 128];
    assert_eq!(render_row(&row, true, &black, &white), " ".repeat(128));
}
