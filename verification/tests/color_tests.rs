use resvg_wrapper::color::{parse_color, Rgba8};

fn rgba(r: u8, g: u8, b: u8, a: u8) -> Rgba8 {
    Rgba8 { r, g, b, a }
}

#[test]
fn named_white_is_opaque_white() {
    assert_eq!(parse_color("white"), Some(rgba(255, 255, 255, 255)));
}

#[test]
fn short_hex_fff_is_opaque_white() {
    assert_eq!(parse_color("#fff"), Some(rgba(255, 255, 255, 255)));
}

#[test]
fn long_hex_336699_parses_exactly() {
    assert_eq!(parse_color("#336699"), Some(rgba(51, 102, 153, 255)));
}

#[test]
fn unrecognized_name_is_no_color() {
    assert_eq!(parse_color("not-a-color"), None);
}

#[test]
fn all_five_names_parse() {
    assert_eq!(parse_color("red"), Some(rgba(255, 0, 0, 255)));
    assert_eq!(parse_color("green"), Some(rgba(0, 255, 0, 255)));
    assert_eq!(parse_color("blue"), Some(rgba(0, 0, 255, 255)));
    assert_eq!(parse_color("white"), Some(rgba(255, 255, 255, 255)));
    assert_eq!(parse_color("black"), Some(rgba(0, 0, 0, 255)));
}

#[test]
fn names_are_case_sensitive() {
    assert_eq!(parse_color("RED"), None);
    assert_eq!(parse_color("White"), None);
}

#[test]
fn short_hex_doubles_each_nibble() {
    assert_eq!(parse_color("#abc"), Some(rgba(170, 187, 204, 255)));
    assert_eq!(parse_color("#000"), Some(rgba(0, 0, 0, 255)));
    assert_eq!(parse_color("#1a9"), Some(rgba(17, 170, 153, 255)));
}

#[test]
fn hex_digits_allow_either_case() {
    assert_eq!(parse_color("#AbC"), Some(rgba(170, 187, 204, 255)));
    assert_eq!(parse_color("#FF00ff"), Some(rgba(255, 0, 255, 255)));
}

#[test]
fn wrong_hex_lengths_are_no_color() {
    assert_eq!(parse_color("#"), None);
    assert_eq!(parse_color("#f"), None);
    assert_eq!(parse_color("#ff"), None);
    assert_eq!(parse_color("#ffff"), None);
    assert_eq!(parse_color("#fffff"), None);
    assert_eq!(parse_color("#fffffff"), None);
}

#[test]
fn non_hex_digits_are_no_color() {
    assert_eq!(parse_color("#ggg"), None);
    assert_eq!(parse_color("#33669z"), None);
}

#[test]
fn only_one_leading_hash_is_recognized() {
    assert_eq!(parse_color("##fff"), None);
    assert_eq!(parse_color("##336699"), None);
}

#[test]
fn empty_string_is_no_color() {
    assert_eq!(parse_color(""), None);
}
