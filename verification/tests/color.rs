use player::color::{color_from_hex, is_hex_color, parse_hex_color, Rgba};

#[test]
fn six_digits_give_an_opaque_colour() {
    assert_eq!(parse_hex_color("#2e3440"), Some(Rgba { r: 0x2e, g: 0x34, b: 0x40, a: 255 }));
    assert_eq!(parse_hex_color("#eceff4"), Some(Rgba { r: 236, g: 239, b: 244, a: 255 }));
}

#[test]
fn eight_digits_give_the_alpha_channel() {
    assert_eq!(parse_hex_color("#a3be8c80"), Some(Rgba { r: 163, g: 190, b: 140, a: 128 }));
    assert_eq!(parse_hex_color("00000000"), Some(Rgba { r: 0, g: 0, b: 0, a: 0 }));
}

#[test]
fn the_hash_is_optional_and_may_be_repeated() {
    let expected = Some(Rgba { r: 0x88, g: 0xc0, b: 0xd0, a: 255 });
    assert_eq!(parse_hex_color("88c0d0"), expected);
    assert_eq!(parse_hex_color("#88c0d0"), expected);
    assert_eq!(parse_hex_color("###88c0d0"), expected);
}

#[test]
fn a_hash_after_a_digit_is_not_stripped() {
    assert_eq!(parse_hex_color("88c0d0#"), None);
    assert_eq!(parse_hex_color("#88#c0d0"), None);
}

#[test]
fn digits_may_be_upper_case() {
    assert_eq!(parse_hex_color("#8FBCBB"), Some(Rgba { r: 0x8f, g: 0xbc, b: 0xbb, a: 255 }));
    assert_eq!(parse_hex_color("#FfFfFf"), Some(Rgba { r: 255, g: 255, b: 255, a: 255 }));
}

#[test]
fn a_plus_sign_may_stand_for_the_first_digit_of_a_channel() {
    assert_eq!(parse_hex_color("#+a+b+c"), Some(Rgba { r: 10, g: 11, b: 12, a: 255 }));
    assert_eq!(parse_hex_color("#0102+f+0"), Some(Rgba { r: 1, g: 2, b: 15, a: 0 }));
}

#[test]
fn a_sign_in_any_other_place_is_malformed() {
    assert_eq!(parse_hex_color("#a+0000"), None);
    assert_eq!(parse_hex_color("#++0000"), None);
    assert_eq!(parse_hex_color("#-a0000"), None);
}

#[test]
fn other_lengths_are_malformed() {
    assert_eq!(parse_hex_color(""), None);
    assert_eq!(parse_hex_color("#"), None);
    assert_eq!(parse_hex_color("#12345"), None);
    assert_eq!(parse_hex_color("#1234567"), None);
    assert_eq!(parse_hex_color("#123456789"), None);
}

#[test]
fn other_characters_are_malformed() {
    assert_eq!(parse_hex_color("#12345g"), None);
    assert_eq!(parse_hex_color("#12 456"), None);
    assert_eq!(parse_hex_color("#1_3456"), None);
    assert_eq!(parse_hex_color("#12345\u{e9}"), None);
    assert_eq!(parse_hex_color("#\u{e9}\u{e9}\u{e9}"), None);
}

#[test]
fn is_hex_color_agrees_with_parse_hex_color() {
    let samples = vec!["#2e3440", "2e3440ff", "##+1+2+3", "", "#zzzzzz", "#1234", "#12345678#"];
    for s in samples {
        assert_eq!(is_hex_color(s), parse_hex_color(s).is_some());
    }
}

#[test]
fn color_from_hex_reads_the_theme() {
    assert_eq!(color_from_hex("#2e3440"), Rgba { r: 46, g: 52, b: 64, a: 255 });
    assert_eq!(color_from_hex("#3b4252"), Rgba { r: 59, g: 66, b: 82, a: 255 });
    assert_eq!(color_from_hex("#434c5e"), Rgba { r: 67, g: 76, b: 94, a: 255 });
    assert_eq!(color_from_hex("#4c566a"), Rgba { r: 76, g: 86, b: 106, a: 255 });
    assert_eq!(color_from_hex("#eceff4"), Rgba { r: 236, g: 239, b: 244, a: 255 });
    assert_eq!(color_from_hex("#e5e9f0"), Rgba { r: 229, g: 233, b: 240, a: 255 });
    assert_eq!(color_from_hex("#d8dee9"), Rgba { r: 216, g: 222, b: 233, a: 255 });
    assert_eq!(color_from_hex("#a3be8c"), Rgba { r: 163, g: 190, b: 140, a: 255 });
    assert_eq!(color_from_hex("#8fbcbb"), Rgba { r: 143, g: 188, b: 187, a: 255 });
    assert_eq!(color_from_hex("#88c0d0"), Rgba { r: 136, g: 192, b: 208, a: 255 });
}
