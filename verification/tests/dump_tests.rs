use fontdump::dump::{
    dump_loca_table, dump_ttc, dump_ttf, dump_woff, dump_woff2, plan_dump, raw_table,
    raw_table_outcome, DumpAction, DumpFault, TtcModel, TtfModel, Woff2Model, WoffModel,
};
use fontdump::tables::{
    GlyfChain, GlyfSource, LocaSource, TableRecord, Woff2TableRecord, WoffTableRecord,
};
use fontdump::ParseError;

fn sample_ttf() -> TtfModel {
    TtfModel {
        sfnt_version: 0x00010000,
        data_len: 100,
        records: vec![TableRecord {
            tag: 0x68656164,
            checksum: 0xDEADBEEF,
            offset: 12,
            length: 54,
        }],
        name_table: None,
    }
}

#[test]
fn ttf_summary_lines() {
    let lines = dump_ttf(&sample_ttf()).unwrap();
    assert_eq!(
        lines,
        vec![
            "TTF".to_string(),
            " - version: 0x00010000".to_string(),
            " - num_tables: 1".to_string(),
            "".to_string(),
            "head (checksum: 0xdeadbeef, offset: 12, length: 54)".to_string(),
            "".to_string(),
        ]
    );
}

#[test]
fn ttf_record_outside_buffer_rejected() {
    let mut m = sample_ttf();
    m.records[0].offset = 90;
    m.records[0].length = 20;
    assert_eq!(dump_ttf(&m), Err(ParseError::BadEof));
}

#[test]
fn dump_twice_is_byte_identical() {
    let first = dump_ttf(&sample_ttf()).unwrap();
    let second = dump_ttf(&sample_ttf()).unwrap();
    assert_eq!(first, second);
}

#[test]
fn ttc_summary_wraps_each_font() {
    let m = TtcModel { major_version: 1, minor_version: 0, fonts: vec![sample_ttf()] };
    let lines = dump_ttc(&m).unwrap();
    assert_eq!(lines[0], "TTC");
    assert_eq!(lines[1], " - version: 1.0");
    assert_eq!(lines[2], " - num_fonts: 1");
    assert_eq!(lines[3], "");
    assert_eq!(lines[4..10], dump_ttf(&sample_ttf()).unwrap()[..]);
    assert_eq!(lines[10], "");
    assert_eq!(lines.len(), 11);
}

#[test]
fn woff_summary_lines() {
    let m = WoffModel {
        data_len: 1000,
        records: vec![WoffTableRecord {
            tag: 0x68656164,
            offset: 44,
            orig_checksum: 0xABCD1234,
            comp_length: 10,
            orig_length: 54,
            fetch_error: None,
        }],
        metadata: Some("<meta/>".to_string()),
        name_table: None,
    };
    let lines = dump_woff(&m).unwrap();
    assert_eq!(
        lines,
        vec![
            "TTF in WOFF".to_string(),
            " - num_tables: 1".to_string(),
            "".to_string(),
            "head (original checksum: 0xabcd1234, compressed length: 10 original length: 54)"
                .to_string(),
            "".to_string(),
            "Extended Metadata:".to_string(),
            "<meta/>".to_string(),
            "".to_string(),
        ]
    );
}

#[test]
fn woff_record_outside_container_rejected() {
    let m = WoffModel {
        data_len: 40,
        records: vec![WoffTableRecord {
            tag: 0x68656164,
            offset: 38,
            orig_checksum: 0,
            comp_length: 10,
            orig_length: 54,
            fetch_error: None,
        }],
        metadata: None,
        name_table: None,
    };
    assert_eq!(dump_woff(&m), Err(ParseError::BadEof));
}

fn sample_woff2() -> Woff2Model {
    Woff2Model {
        records: vec![Woff2TableRecord {
            tag: 0x676C7966,
            orig_length: 40,
            transform_length: Some(30),
        }],
        num_fonts: None,
        total_compressed_size: 123,
        table_data_len: 456,
        metadata: None,
        glyf: Some(GlyfChain {
            head_loc_format: Some(0),
            maxp_num_glyphs: Some(3),
            loca: Some(LocaSource::Raw(vec![0, 0, 0, 10, 0, 10, 0, 20])),
            glyf: GlyfSource::Raw((0u8..40).collect()),
        }),
        name_table: None,
    }
}

#[test]
fn woff2_summary_reports_three_glyphs() {
    let lines = dump_woff2(&sample_woff2()).unwrap();
    assert_eq!(
        lines,
        vec![
            "TTF in WOFF2".to_string(),
            " - num tables: 1".to_string(),
            " - sizeof font data: 123 compressed 456 uncompressed".to_string(),
            "".to_string(),
            "glyf (original length: 40, transform length: 30)".to_string(),
            "".to_string(),
            "Read glyf table with 3 glyphs:".to_string(),
            "- 20 bytes".to_string(),
            "- 0 bytes".to_string(),
            "- 20 bytes".to_string(),
        ]
    );
}

#[test]
fn woff2_missing_chain_table_is_fatal() {
    let mut m = sample_woff2();
    if let Some(chain) = &mut m.glyf {
        chain.maxp_num_glyphs = None;
    }
    assert_eq!(dump_woff2(&m), Err(ParseError::MissingTable));
}

#[test]
fn woff2_collection_names_font_count() {
    let mut m = sample_woff2();
    m.num_fonts = Some(2);
    m.glyf = None;
    let lines = dump_woff2(&m).unwrap();
    assert_eq!(lines[2], " - num fonts: 2");
}

#[test]
fn loca_dump_lists_offsets() {
    let loca = LocaSource::Raw(vec![0u8, 0, 0, 10]);
    let lines = dump_loca_table(Some(0), Some(1), Some(&loca)).unwrap();
    assert_eq!(lines, vec!["loca:".to_string(), "0: 0".to_string(), "1: 20".to_string()]);
}

#[test]
fn loca_dump_accepts_decoded_offsets() {
    let loca = LocaSource::Decoded(vec![0, 16]);
    let lines = dump_loca_table(Some(1), Some(1), Some(&loca)).unwrap();
    assert_eq!(lines, vec!["loca:".to_string(), "0: 0".to_string(), "1: 16".to_string()]);
}

#[test]
fn loca_dump_missing_table_is_fatal() {
    let loca = LocaSource::Raw(vec![0u8; 4]);
    assert_eq!(dump_loca_table(None, Some(1), Some(&loca)), Err(ParseError::MissingTable));
    assert_eq!(dump_loca_table(Some(0), None, Some(&loca)), Err(ParseError::MissingTable));
    assert_eq!(dump_loca_table(Some(0), Some(1), None), Err(ParseError::MissingTable));
}

#[test]
fn woff_failed_fetch_aborts_summary() {
    let m = WoffModel {
        data_len: 1000,
        records: vec![
            WoffTableRecord {
                tag: 0x68656164,
                offset: 44,
                orig_checksum: 0,
                comp_length: 10,
                orig_length: 54,
                fetch_error: None,
            },
            WoffTableRecord {
                tag: 0x676C7966,
                offset: 60,
                orig_checksum: 0,
                comp_length: 10,
                orig_length: 54,
                fetch_error: Some(ParseError::BadValue),
            },
        ],
        metadata: None,
        name_table: None,
    };
    assert_eq!(dump_woff(&m), Err(ParseError::BadValue));
}

#[test]
fn raw_table_exact_bytes() {
    let buffer: Vec<u8> = (0u8..32).collect();
    let records = vec![
        TableRecord { tag: 0x636D6170, checksum: 0, offset: 4, length: 8 },
        TableRecord { tag: 0x68656164, checksum: 0, offset: 16, length: 6 },
    ];
    let bytes = raw_table(&buffer, &records, 0x68656164).unwrap();
    assert_eq!(bytes, buffer[16..22].to_vec());
    assert_eq!(bytes.len(), 6);
}

#[test]
fn raw_table_missing_tag_is_fatal_and_named() {
    let buffer = [0u8; 8];
    let records = vec![TableRecord { tag: 0x636D6170, checksum: 0, offset: 0, length: 4 }];
    let fault = raw_table(&buffer, &records, 0x68656164).unwrap_err();
    assert_eq!(fault, DumpFault::MissingTag(0x68656164));
    assert_eq!(fault.message(), "Table head not found");
}

#[test]
fn raw_table_range_past_end_is_parse_fault() {
    let buffer = [0u8; 8];
    let records = vec![TableRecord { tag: 0x636D6170, checksum: 0, offset: 4, length: 8 }];
    assert_eq!(
        raw_table(&buffer, &records, 0x636D6170),
        Err(DumpFault::Parse(ParseError::BadEof))
    );
}

#[test]
fn raw_table_outcome_by_presence() {
    assert_eq!(raw_table_outcome(Some(vec![1, 2, 3]), 0x636D6170), Ok(vec![1, 2, 3]));
    let fault = raw_table_outcome(None, 0x636D6170).unwrap_err();
    assert_eq!(fault, DumpFault::MissingTag(0x636D6170));
    assert_eq!(fault.message(), "Table cmap not found");
}

#[test]
fn raw_dump_refused_on_tty() {
    assert_eq!(plan_dump(Some(5), false, true), DumpAction::RefuseTty);
    assert_eq!(plan_dump(Some(5), true, true), DumpAction::RefuseTty);
}

#[test]
fn dump_mode_selection() {
    assert_eq!(plan_dump(None, true, true), DumpAction::Loca);
    assert_eq!(plan_dump(Some(5), true, false), DumpAction::Loca);
    assert_eq!(plan_dump(Some(5), false, false), DumpAction::Raw(5));
    assert_eq!(plan_dump(None, false, false), DumpAction::Summary);
}
