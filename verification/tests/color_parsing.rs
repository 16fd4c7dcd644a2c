use aegis::widgets::{parse_color, ColorError, Rgb};

/// The channels as fractions of full intensity.
fn unit_channels(color: Rgb) -> [f32; 3] {
    [(color.r as f32) / 255., (color.g as f32) / 255., (color.b as f32) / 255.]
}

#[test]
fn widgets_test_color_parsing() {
    let red = String::from("red");
    let black = String::from("black");
    let blue_hex = String::from("#4287f5");

    let red_output = unit_channels(parse_color(red.as_str()).unwrap());
    let black_output = unit_channels(parse_color(black.as_str()).unwrap());
    let blue_output = unit_channels(parse_color(blue_hex.as_str()).unwrap());

    assert_eq!(red_output, [1.0, 0.0, 0.0]);
    assert_eq!(black_output, [0.0, 0.0, 0.0]);

    assert_eq!(blue_output, [66.0 / 255., 135.0 / 255., 245.0 / 255.]);
}

#[test]
fn rect_test_color_parsing() {
    let red = String::from("red");
    let black = String::from("black");
    let blue_hex = String::from("#4287f5");

    let red_output = unit_channels(parse_color(red.as_str()).unwrap());
    let black_output = unit_channels(parse_color(black.as_str()).unwrap());
    let blue_output = unit_channels(parse_color(blue_hex.as_str()).unwrap());

    assert_eq!(red_output, [1.0, 0.0, 0.0]);
    assert_eq!(black_output, [0.0, 0.0, 0.0]);

    assert_eq!(blue_output, [66.0 / 255., 135.0 / 255., 245.0 / 255.]);
}

#[test]
fn named_colors_resolve_to_their_channels() {
    assert_eq!(parse_color("red"), Ok(Rgb { r: 255, g: 0, b: 0 }));
    assert_eq!(parse_color("black"), Ok(Rgb { r: 0, g: 0, b: 0 }));
}

#[test]
fn hex_color_reads_two_digits_per_channel() {
    assert_eq!(parse_color("#4287f5"), Ok(Rgb { r: 0x42, g: 0x87, b: 0xf5 }));
    assert_eq!(parse_color("#32a852"), Ok(Rgb { r: 50, g: 168, b: 82 }));
    assert_eq!(parse_color("#010203"), Ok(Rgb { r: 1, g: 2, b: 3 }));
    assert_eq!(parse_color("#10a00f"), Ok(Rgb { r: 16, g: 160, b: 15 }));
}

#[test]
fn hex_color_covers_the_whole_channel_range() {
    assert_eq!(parse_color("#000000"), Ok(Rgb { r: 0, g: 0, b: 0 }));
    assert_eq!(parse_color("#ffffff"), Ok(Rgb { r: 255, g: 255, b: 255 }));
    assert_eq!(parse_color("#ff0000"), parse_color("red"));
    assert_eq!(parse_color("#000000"), parse_color("black"));
}

#[test]
fn hex_digits_are_read_in_either_case() {
    assert_eq!(parse_color("#FFFFFF"), Ok(Rgb { r: 255, g: 255, b: 255 }));
    assert_eq!(parse_color("#AbCdEf"), Ok(Rgb { r: 0xab, g: 0xcd, b: 0xef }));
    assert_eq!(parse_color("#4287F5"), parse_color("#4287f5"));
}

#[test]
fn unknown_names_are_rejected() {
    assert_eq!(parse_color("blue"), Err(ColorError::WrongColorCode));
    assert_eq!(parse_color("Red"), Err(ColorError::WrongColorCode));
    assert_eq!(parse_color("RED"), Err(ColorError::WrongColorCode));
    assert_eq!(parse_color("red "), Err(ColorError::WrongColorCode));
    assert_eq!(parse_color(" black"), Err(ColorError::WrongColorCode));
    assert_eq!(parse_color("re"), Err(ColorError::WrongColorCode));
    assert_eq!(parse_color("blac"), Err(ColorError::WrongColorCode));
    assert_eq!(parse_color("redblack"), Err(ColorError::WrongColorCode));
}

#[test]
fn empty_specifier_is_rejected() {
    assert_eq!(parse_color(""), Err(ColorError::WrongColorCode));
}

#[test]
fn hex_color_of_the_wrong_length_is_rejected() {
    assert_eq!(parse_color("#"), Err(ColorError::WrongColorCode));
    assert_eq!(parse_color("#fff"), Err(ColorError::WrongColorCode));
    assert_eq!(parse_color("#4287f"), Err(ColorError::WrongColorCode));
    assert_eq!(parse_color("#4287f55"), Err(ColorError::WrongColorCode));
    assert_eq!(parse_color("#4287f5ff"), Err(ColorError::WrongColorCode));
}

#[test]
fn hex_color_without_the_hash_is_rejected() {
    assert_eq!(parse_color("4287f5"), Err(ColorError::WrongColorCode));
    assert_eq!(parse_color("04287f5"), Err(ColorError::WrongColorCode));
    assert_eq!(parse_color("x4287f5"), Err(ColorError::WrongColorCode));
}

#[test]
fn hex_color_with_a_digit_that_is_not_hexadecimal_is_rejected() {
    assert_eq!(parse_color("#g287f5"), Err(ColorError::WrongColorCode));
    assert_eq!(parse_color("#4287fg"), Err(ColorError::WrongColorCode));
    assert_eq!(parse_color("#42 7f5"), Err(ColorError::WrongColorCode));
    assert_eq!(parse_color("#42-7f5"), Err(ColorError::WrongColorCode));
    assert_eq!(parse_color("#######"), Err(ColorError::WrongColorCode));
}

#[test]
fn hex_color_with_a_sign_is_rejected() {
    assert_eq!(parse_color("#+1+2+3"), Err(ColorError::WrongColorCode));
    assert_eq!(parse_color("#+f0000"), Err(ColorError::WrongColorCode));
}

#[test]
fn characters_are_counted_not_bytes() {
    // Seven bytes but six characters.
    assert_eq!(parse_color("#aaaa\u{e9}"), Err(ColorError::WrongColorCode));
    // Seven characters, the last one outside ASCII.
    assert_eq!(parse_color("#aaaaa\u{e9}"), Err(ColorError::WrongColorCode));
    // Digits of another script are no hexadecimal digits.
    assert_eq!(parse_color("#\u{665}\u{665}\u{665}\u{665}\u{665}\u{665}"), Err(ColorError::WrongColorCode));
}

#[test]
fn neighbours_of_the_digit_ranges_are_rejected() {
    for outsider in ['/', ':', '@', 'G', '`', 'g'] {
        let code = format!("#00000{}", outsider);
        assert_eq!(parse_color(code.as_str()), Err(ColorError::WrongColorCode));
    }
    for digit in ['0', '9', 'a', 'f', 'A', 'F'] {
        let code = format!("#00000{}", digit);
        assert!(parse_color(code.as_str()).is_ok());
    }
}

#[test]
fn every_two_digit_value_is_read_exactly() {
    for value in 0u32..=255 {
        let lower = format!("#{:02x}{:02x}{:02x}", value, 255 - value, value / 2);
        let upper = format!("#{:02X}{:02X}{:02X}", value, 255 - value, value / 2);
        let expected = Rgb { r: value as u8, g: (255 - value) as u8, b: (value / 2) as u8 };
        assert_eq!(parse_color(lower.as_str()), Ok(expected));
        assert_eq!(parse_color(upper.as_str()), Ok(expected));
    }
}
