use fontdump::name::{
    decode_name, get_name_meaning, name_table_lines, select_codec, NameCodec, NameRecord,
    NameTableModel,
};
use fontdump::ParseError;

#[test]
fn codec_selection_table() {
    assert_eq!(select_codec(0, 0), NameCodec::Utf16Be);
    assert_eq!(select_codec(0, 5), NameCodec::Utf16Be);
    assert_eq!(select_codec(1, 0), NameCodec::MacRoman);
    assert_eq!(select_codec(1, 1), NameCodec::Unknown);
    assert_eq!(select_codec(3, 0), NameCodec::Utf16Be);
    assert_eq!(select_codec(3, 1), NameCodec::Utf16Be);
    assert_eq!(select_codec(3, 10), NameCodec::Utf16Be);
    assert_eq!(select_codec(3, 2), NameCodec::Unknown);
    assert_eq!(select_codec(99, 5), NameCodec::Unknown);
}

#[test]
fn windows_unicode_record_decodes_utf16be() {
    let data = [0x00, 0x41, 0x00, 0x42];
    assert_eq!(decode_name(3, 1, 0, &data), "AB");
}

#[test]
fn unicode_platform_decodes_utf16be() {
    let data = [0x00, 0x41];
    assert_eq!(decode_name(0, 3, 0, &data), "A");
}

#[test]
fn mac_roman_record_decodes() {
    let data = [0x41, 0x42];
    assert_eq!(decode_name(1, 0, 0, &data), "AB");
}

#[test]
fn unknown_platform_yields_placeholder() {
    let data = [0x01, 0x02];
    assert_eq!(
        decode_name(99, 5, 7, &data),
        "(unknown platform=99 encoding=5 language=7)"
    );
}

#[test]
fn name_meaning_labels() {
    assert_eq!(get_name_meaning(0), Some("Copyright"));
    assert_eq!(get_name_meaning(1), Some("Font Family"));
    assert_eq!(get_name_meaning(5), Some("Version"));
    assert_eq!(get_name_meaning(25), Some("Variations PostScript Name Prefix"));
}

#[test]
fn name_meaning_reserved_and_unknown() {
    assert_eq!(get_name_meaning(15), None);
    assert_eq!(get_name_meaning(26), None);
    assert_eq!(get_name_meaning(1000), None);
}

#[test]
fn name_table_lines_per_record() {
    let table = NameTableModel {
        name_records: vec![
            NameRecord {
                platform_id: 3,
                encoding_id: 1,
                language_id: 0,
                name_id: 1,
                offset: 0,
                length: 4,
            },
            NameRecord {
                platform_id: 3,
                encoding_id: 1,
                language_id: 0,
                name_id: 15,
                offset: 4,
                length: 2,
            },
        ],
        string_storage: vec![0x00, 0x41, 0x00, 0x42, 0x00, 0x43],
    };
    let lines = name_table_lines(&table).unwrap();
    assert_eq!(
        lines,
        vec![
            "Font Family".to_string(),
            "\"AB\"".to_string(),
            "".to_string(),
            "name 15".to_string(),
            "\"C\"".to_string(),
            "".to_string(),
        ]
    );
}

#[test]
fn name_record_outside_storage_rejected() {
    let table = NameTableModel {
        name_records: vec![NameRecord {
            platform_id: 3,
            encoding_id: 1,
            language_id: 0,
            name_id: 1,
            offset: 4,
            length: 4,
        }],
        string_storage: vec![0x00, 0x41],
    };
    assert_eq!(name_table_lines(&table), Err(ParseError::BadEof));
}
