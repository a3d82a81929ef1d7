use oreo::color::Color;
use oreo::colors::{colour_from_rgb, hex_to_color, hex_to_rgb, HexError, ERROR, PRIMARY, WARN};
use oreo::dec::parse_u64;
use oreo::hex::{format_hex6, format_hex_lower};
use oreo::message::emoji;
use oreo::message::mention::{self, MentionType};
use oreo::palette;
use oreo::string_util::StringUtil;
use oreo::text::u64_to_string;

#[test]
fn parse_u64_reads_plain_and_signed_numbers() {
    assert_eq!(parse_u64("42"), Some(42));
    assert_eq!(parse_u64("+7"), Some(7));
    assert_eq!(parse_u64("007"), Some(7));
    assert_eq!(parse_u64("18446744073709551615"), Some(u64::MAX));
}

#[test]
fn parse_u64_refuses_bad_text() {
    assert_eq!(parse_u64(""), None);
    assert_eq!(parse_u64("+"), None);
    assert_eq!(parse_u64("-1"), None);
    assert_eq!(parse_u64("12a"), None);
    assert_eq!(parse_u64(" 1"), None);
    assert_eq!(parse_u64("18446744073709551616"), None);
}

#[test]
fn u64_to_string_writes_decimal() {
    assert_eq!(u64_to_string(0), "0");
    assert_eq!(u64_to_string(803315311663251537), "803315311663251537");
}

#[test]
fn from_hex_reads_three_bytes() {
    let c = Color::from_hex("#ff8000").unwrap();
    assert_eq!(c, Color { r: 255, g: 128, b: 0 });
    let c = Color::from_hex("##0a0B0c").unwrap();
    assert_eq!(c, Color { r: 10, g: 11, b: 12 });
}

#[test]
fn from_hex_reads_a_short_last_piece() {
    // "12" "34" "5": the last piece is a single digit.
    let c = Color::from_hex("#12345").unwrap();
    assert_eq!(c, Color { r: 0x12, g: 0x34, b: 0x5 });
}

#[test]
fn from_hex_refuses_a_wrong_number_of_pieces() {
    match Color::from_hex("#ffff") {
        Err(e) => assert_eq!(e.message(), "Problem parsing hex"),
        _ => panic!("expected a hex error"),
    }
    assert_eq!(Color::from_hex("#fff").err().unwrap().0, "Problem parsing hex");
    assert_eq!(Color::from_hex("#2b2d31ff").err().unwrap().0, "Problem parsing hex");
}

#[test]
fn into_hex_writes_lower_case_without_padding() {
    assert_eq!(Color { r: 255, g: 128, b: 0 }.into_hex(), "#ff800");
    assert_eq!(Color { r: 171, g: 205, b: 239 }.into_hex_no_hash(), "abcdef");
    assert_eq!(Color { r: 1, g: 2, b: 3 }.to_display_string(), "#123\n");
}

#[test]
fn hex_round_trip_on_concrete_color() {
    let c = Color { r: 0x2b, g: 0x2d, b: 0x31 };
    assert_eq!(Color::from_hex(&c.into_hex()).unwrap(), c);
}

#[test]
fn hex_round_trip_fails_for_small_components() {
    // black is written "#000", which has two pieces only
    let black = Color { r: 0, g: 0, b: 0 };
    assert!(Color::from_hex(&black.into_hex()).is_err());
}

#[test]
fn color_numbers_and_tuples() {
    let c = Color::from_rgb(0x12, 0x34, 0x56);
    assert_eq!(c.into_u32(), 0x123456);
    assert_eq!(c.into_u64(), 0x123456u64);
    let t: (u8, u8, u8) = c.into();
    assert_eq!(t, (0x12, 0x34, 0x56));
    assert_eq!(Color::from(t), c);
    assert_eq!(colour_from_rgb(PRIMARY.0, PRIMARY.1, PRIMARY.2), 0x2b2d31);
}

#[test]
fn color_name_lookup() {
    assert_eq!(Color::from_color_name("InDigo").unwrap(), Color { r: 75, g: 0, b: 130 });
    assert_eq!(Color::lookup_color_name(" red "), Some(Color { r: 255, g: 0, b: 0 }));
    assert_eq!(Color::lookup_color_name("notacolor"), None);
    assert_eq!(Color::lookup_color_name(""), None);
}

#[test]
fn parse_without_a_css_name_gives_none() {
    assert_eq!(Color::parse("#ff0000"), None);
}

#[test]
fn hex_to_rgb_is_strict() {
    assert_eq!(hex_to_rgb("#2b2d31"), Ok((43, 45, 49)));
    assert_eq!(hex_to_rgb("2b2d31"), Ok((43, 45, 49)));
    assert_eq!(hex_to_rgb("#2b2d3"), Err(HexError::InvalidLength));
    assert_eq!(hex_to_rgb("#2b2dzz"), Err(HexError::InvalidDigit));
    assert_eq!(hex_to_color("#bf243b"), Ok(0xbf243b));
    assert_eq!(HexError::InvalidLength.message(), "Invalid hex color");
}

#[test]
fn palette_constants() {
    assert_eq!(PRIMARY, (43, 45, 49));
    assert_eq!(WARN, (178, 146, 3));
    assert_eq!(ERROR, (191, 36, 59));
    assert_eq!(palette::Color::Success.rgb(), (20, 160, 51));
    assert_eq!(palette::Color::Warning.colour(), 0xbfad09);
}

#[test]
fn hex_formatting() {
    assert_eq!(format_hex_lower(9), "9");
    assert_eq!(format_hex_lower(0xab), "ab");
    assert_eq!(format_hex6(0x2b2d31), "2B2D31");
    assert_eq!(format_hex6(0xff), "0000FF");
}

#[test]
fn capitalize_first_letter_uppercases_only_the_first() {
    assert_eq!("hello world".capitalize_first_letter(), "Hello world");
    assert_eq!(String::from("").capitalize_first_letter(), "");
    assert_eq!("ßa".capitalize_first_letter(), "SSa");
}

#[test]
fn display_case_splits_on_underscores() {
    assert_eq!("color_role".display_case(), "Color Role");
    assert_eq!("jump_to_chat".display_case(), "Jump To Chat");
    assert_eq!(String::from("a__b").display_case(), "A  B");
}

#[test]
fn display_case_of_one_word_is_capitalized() {
    assert_eq!("ping".display_case(), "ping".capitalize_first_letter());
}

#[test]
fn mentions_and_emoji() {
    assert_eq!(mention::create("5", MentionType::User), "<@5>");
    assert_eq!(mention::create("5", MentionType::Role), "<@&5>");
    assert_eq!(mention::create("5", MentionType::Channel), "<#5>");
    assert_eq!(emoji::create(emoji::CURVED, "curved"), "<:curved:1034653422416302151>");
}

#[test]
fn from_str_definedness() {
    assert!(Color::from_str_is_defined("#ff0000"));
    // "re" is no hexadecimal byte
    assert!(!Color::from_str_is_defined("red"));
    // two decimal bytes where three are read
    assert!(!Color::from_str_is_defined("1,2"));
    // a non-ASCII first character
    assert!(!Color::from_str_is_defined("#00é"));
}

#[test]
fn checked_from_str_needs_a_css_name_that_every_reading_accepts() {
    assert_eq!(Color::checked_from_str("#ff0000"), None);
    assert_eq!(Color::checked_from_str("red"), None);
}
