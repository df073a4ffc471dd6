use unimidi::palette::set_palette;

const RAINBOW_BLACK: [&str; 16] = [
    "\x1b[38;2;255;0;0m#\x1b[0m",
    "\x1b[38;2;255;128;0m#\x1b[0m",
    "\x1b[38;2;255;255;0m#\x1b[0m",
    "\x1b[38;2;0;255;0m#\x1b[0m",
    "\x1b[38;2;0;255;255m#\x1b[0m",
    "\x1b[38;2;0;0;255m#\x1b[0m",
    "\x1b[38;2;128;0;255m#\x1b[0m",
    "\x1b[38;2;255;0;255m#\x1b[0m",
    "\x1b[38;2;255;0;0m#\x1b[0m",
    "\x1b[38;2;255;128;0m#\x1b[0m",
    "\x1b[38;2;255;255;0m#\x1b[0m",
    "\x1b[38;2;0;255;0m#\x1b[0m",
    "\x1b[38;2;0;255;255m#\x1b[0m",
    "\x1b[38;2;0;0;255m#\x1b[0m",
    "\x1b[38;2;128;0;255m#\x1b[0m",
    "\x1b[38;2;255;0;255m#\x1b[0m",
];

const RAINBOW_WHITE: [&str; 16] = [
    "\x1b[48;2;255;0;0m\x1b[38;2;255;0;0m#\x1b[0m",
    "\x1b[48;2;255;128;0m\x1b[38;2;255;128;0m#\x1b[0m",
    "\x1b[48;2;255;255;0m\x1b[38;2;255;255;0m#\x1b[0m",
    "\x1b[48;2;0;255;0m\x1b[38;2;0;255;0m#\x1b[0m",
    "\x1b[48;2;0;255;255m\x1b[38;2;0;255;255m#\x1b[0m",
    "\x1b[48;2;0;0;255m\x1b[38;2;0;0;255m#\x1b[0m",
    "\x1b[48;2;128;0;255m\x1b[38;2;128;0;255m#\x1b[0m",
    "\x1b[48;2;255;0;255m\x1b[38;2;255;0;255m#\x1b[0m",
    "\x1b[48;2;255;0;0m\x1b[38;2;255;0;0m#\x1b[0m",
    "\x1b[48;2;255;128;0m\x1b[38;2;255;128;0m#\x1b[0m",
    "\x1b[48;2;255;255;0m\x1b[38;2;255;255;0m#\x1b[0m",
    "\x1b[48;2;0;255;0m\x1b[38;2;0;255;0m#\x1b[0m",
    "\x1b[48;2;0;255;255m\x1b[38;2;0;255;255m#\x1b[0m",
    "\x1b[48;2;0;0;255m\x1b[38;2;0;0;255m#\x1b[0m",
    "\x1b[48;2;128;0;255m\x1b[38;2;128;0;255m#\x1b[0m",
    "\x1b[48;2;255;0;255m\x1b[38;2;255;0;255m#\x1b[0m",
];

const EXTENDED_BLACK: [&str; 16] = [
    "\x1b[38;2;255;0;0m#\x1b[0m",
    "\x1b[38;2;255;64;0m#\x1b[0m",
    "\x1b[38;2;255;128;0m#\x1b[0m",
    "\x1b[38;2;255;192;0m#\x1b[0m",
    "\x1b[38;2;255;255;0m#\x1b[0m",
    "\x1b[38;2;128;255;0m#\x1b[0m",
    "\x1b[38;2;0;255;0m#\x1b[0m",
    "\x1b[38;2;0;255;128m#\x1b[0m",
    "\x1b[38;2;0;255;255m#\x1b[0m",
    "\x1b[38;2;0;128;255m#\x1b[0m",
    "\x1b[38;2;0;0;255m#\x1b[0m",
    "\x1b[38;2;64;0;255m#\x1b[0m",
    "\x1b[38;2;128;0;255m#\x1b[0m",
    "\x1b[38;2;192;0;255m#\x1b[0m",
    "\x1b[38;2;255;0;255m#\x1b[0m",
    "\x1b[38;2;255;0;128m#\x1b[0m",
];

const EXTENDED_WHITE: [&str; 16] = [
    "\x1b[48;2;255;0;0m\x1b[38;2;255;0;0m#\x1b[0m",
    "\x1b[48;2;255;64;0m\x1b[38;2;255;64;0m#\x1b[0m",
    "\x1b[48;2;255;128;0m\x1b[38;2;255;128;0m#\x1b[0m",
    "\x1b[48;2;255;192;0m\x1b[38;2;255;192;0m#\x1b[0m",
    "\x1b[48;2;255;255;0m\x1b[38;2;255;255;0m#\x1b[0m",
    "\x1b[48;2;128;255;0m\x1b[38;2;128;255;0m#\x1b[0m",
    "\x1b[48;2;0;255;0m\x1b[38;2;0;255;0m#\x1b[0m",
    "\x1b[48;2;0;255;128m\x1b[38;2;0;255;128m#\x1b[0m",
    "\x1b[48;2;0;255;255m\x1b[38;2;0;255;255m#\x1b[0m",
    "\x1b[48;2;0;128;255m\x1b[38;2;0;128;255m#\x1b[0m",
    "\x1b[48;2;0;0;255m\x1b[38;2;0;0;255m#\x1b[0m",
    "\x1b[48;2;64;0;255m\x1b[38;2;64;0;255m#\x1b[0m",
    "\x1b[48;2;128;0;255m\x1b[38;2;128;0;255m#\x1b[0m",
    "\x1b[48;2;192;0;255m\x1b[38;2;192;0;255m#\x1b[0m",
    "\x1b[48;2;255;0;255m\x1b[38;2;255;0;255m#\x1b[0m",
    "\x1b[48;2;255;0;128m\x1b[38;2;255;0;128m#\x1b[0m",
];

const VIVID_BLACK: [&str; 16] = [
    "\x1b[38;2;228;14;22m#\x1b[0m",
    "\x1b[38;2;255;28;33m#\x1b[0m",
    "\x1b[38;2;255;107;33m#\x1b[0m",
    "\x1b[38;2;255;116;0m#\x1b[0m",
    "\x1b[38;2;255;255;0m#\x1b[0m",
    "\x1b[38;2;254;245;80m#\x1b[0m",
    "\x1b[38;2;142;251;2m#\x1b[0m",
    "\x1b[38;2;38;224;0m#\x1b[0m",
    "\x1b[38;2;34;190;2m#\x1b[0m",
    "\x1b[38;2;0;205;245m#\x1b[0m",
    "\x1b[38;2;0;0;255m#\x1b[0m",
    "\x1b[38;2;0;53;239m#\x1b[0m",
    "\x1b[38;2;34;0;167m#\x1b[0m",
    "\x1b[38;2;117;0;159m#\x1b[0m",
    "\x1b[38;2;209;3;130m#\x1b[0m",
    "\x1b[38;2;255;0;255m#\x1b[0m",
];

const VIVID_WHITE: [&str; 16] = [
    "\x1b[48;2;228;14;22m\x1b[38;2;228;14;22m#\x1b[0m",
    "\x1b[48;2;255;28;33m\x1b[38;2;255;28;33m#\x1b[0m",
    "\x1b[48;2;255;107;33m\x1b[38;2;255;107;33m#\x1b[0m",
    "\x1b[48;2;255;116;0m\x1b[38;2;255;116;0m#\x1b[0m",
    "\x1b[48;2;255;255;0m\x1b[38;2;255;255;0m#\x1b[0m",
    "\x1b[48;2;254;245;80m\x1b[38;2;254;245;80m#\x1b[0m",
    "\x1b[48;2;142;251;2m\x1b[38;2;142;251;2m#\x1b[0m",
    "\x1b[48;2;38;224;0m\x1b[38;2;38;224;0m#\x1b[0m",
    "\x1b[48;2;34;190;2m\x1b[38;2;34;190;2m#\x1b[0m",
    "\x1b[48;2;0;205;245m\x1b[38;2;0;205;245m#\x1b[0m",
    "\x1b[48;2;0;0;255m\x1b[38;2;0;0;255m#\x1b[0m",
    "\x1b[48;2;0;53;239m\x1b[38;2;0;53;239m#\x1b[0m",
    "\x1b[48;2;34;0;167m\x1b[38;2;34;0;167m#\x1b[0m",
    "\x1b[48;2;117;0;159m\x1b[38;2;117;0;159m#\x1b[0m",
    "\x1b[48;2;209;3;130m\x1b[38;2;209;3;130m#\x1b[0m",
    "\x1b[48;2;255;0;255m\x1b[38;2;255;0;255m#\x1b[0m",
];

fn tables(color_type: i32) -> (Vec<&'static str>, Vec<&'static str>) {
    let mut black = Vec::new();
    let mut white = Vec::new();
    set_palette(color_type, &mut black, &mut white);
    (black, white)
}

#[test]
fn palette_zero_is_the_rainbow() {
    let (black, white) = tables(0);
    assert_eq!(black, RAINBOW_BLACK.to_vec());
    assert_eq!(white, RAINBOW_WHITE.to_vec());
}

#[test]
fn palette_one_is_the_extended_rainbow() {
    let (black, white) = tables(1);
    assert_eq!(black, EXTENDED_BLACK.to_vec());
    assert_eq!(white, EXTENDED_WHITE.to_vec());
}

#[test]
fn palette_two_is_the_vivid_rainbow() {
    let (black, white) = tables(2);
    assert_eq!(black, VIVID_BLACK.to_vec());
    assert_eq!(white, VIVID_WHITE.to_vec());
}

#[test]
fn palette_number_counts_modulo_three() {
    assert_eq!(tables(3).0, RAINBOW_BLACK.to_vec());
    assert_eq!(tables(4).1, EXTENDED_WHITE.to_vec());
    assert_eq!(tables(5).0, VIVID_BLACK.to_vec());
    assert_eq!(tables(i32::MAX).1, EXTENDED_WHITE.to_vec());
    assert_eq!(tables(300).0, RAINBOW_BLACK.to_vec());
}

#[test]
fn negative_multiple_of_three_is_the_rainbow() {
    assert_eq!(tables(-3).0, RAINBOW_BLACK.to_vec());
    assert_eq!(tables(-300).1, RAINBOW_WHITE.to_vec());
}

#[test]
fn other_negative_numbers_select_nothing() {
    for color_type in [-1, -2, -4, -5, i32::MIN] {
        let (black, white) = tables(color_type);
        assert!(black.is_empty());
        assert!(white.is_empty());
        let mut black = vec!["b"];
        let mut white = vec!["w", "w"];
        set_palette(color_type, &mut black, &mut white);
        assert_eq!(black, vec!["b"]);
        assert_eq!(white, vec!["w", "w"]);
    }
}

#[test]
fn set_palette_replaces_what_the_tables_held() {
    let mut black = vec!["old"; 40];
    let mut white = Vec::new();
    set_palette(2, &mut black, &mut white);
    assert_eq!(black.len(), 16);
    assert_eq!(white.len(), 16);
    assert_eq!(black[0], "\x1b[38;2;228;14;22m#\x1b[0m");
    assert_eq!(white[15], "\x1b[48;2;255;0;255m\x1b[38;2;255;0;255m#\x1b[0m");
}

#[test]
fn white_shade_is_the_black_shade_on_its_own_colour() {
    for color_type in 0..3 {
        let (black, white) = tables(color_type);
        for channel in 0..16 {
            let code = black[channel].strip_prefix("\x1b[38;2;").unwrap();
            assert_eq!(white[channel], format!("\x1b[48;2;{}\x1b[38;2;{}", code.strip_suffix("#\x1b[0m").unwrap(), code));
        }
    }
}
