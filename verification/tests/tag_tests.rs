use fontdump::tag::{tag_from_string, tag_to_string};
use fontdump::ParseError;

#[test]
fn tag_cmap_encodes_big_endian() {
    assert_eq!(tag_from_string("cmap"), Ok(0x636D6170));
}

#[test]
fn tag_round_trip_full_width() {
    let tag = tag_from_string("cmap").unwrap();
    assert_eq!(tag_to_string(tag), "cmap");
}

#[test]
fn tag_round_trip_padded() {
    let tag = tag_from_string("ab").unwrap();
    assert_eq!(tag, 0x61622020);
    assert_eq!(tag_to_string(tag), "ab  ");
}

#[test]
fn tag_empty_is_all_spaces() {
    assert_eq!(tag_from_string(""), Ok(0x20202020));
}

#[test]
fn tag_too_long_rejected() {
    assert_eq!(tag_from_string("abcde"), Err(ParseError::BadValue));
}

#[test]
fn tag_non_ascii_rejected() {
    assert_eq!(tag_from_string("aé"), Err(ParseError::BadValue));
}

#[test]
fn tag_control_char_rejected() {
    assert_eq!(tag_from_string("a\tb"), Err(ParseError::BadValue));
    assert_eq!(tag_from_string("\u{7f}"), Err(ParseError::BadValue));
}

#[test]
fn tag_known_table_tags() {
    assert_eq!(tag_from_string("head"), Ok(0x68656164));
    assert_eq!(tag_from_string("GSUB"), Ok(0x47535542));
}
