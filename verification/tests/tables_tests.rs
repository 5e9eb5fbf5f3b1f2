use fontdump::dispatch::{classify, FontKind};
use fontdump::tables::{
    decode_loca, find_table_record, glyph_records, resolve_glyf_chain, table_bytes, GlyfSource,
    LocaSource, TableRecord,
};
use fontdump::ParseError;

#[test]
fn classify_all_signatures() {
    assert_eq!(classify(&[0x00, 0x01, 0x00, 0x00, 0xFF]), Ok(FontKind::SingleFont));
    assert_eq!(classify(b"OTTO"), Ok(FontKind::SingleFont));
    assert_eq!(classify(b"ttcf"), Ok(FontKind::Collection));
    assert_eq!(classify(b"wOFF"), Ok(FontKind::Woff));
    assert_eq!(classify(b"wOF2"), Ok(FontKind::Woff2));
}

#[test]
fn classify_unknown_signature() {
    assert_eq!(classify(b"abcd"), Err(ParseError::BadVersion));
}

#[test]
fn classify_truncated_header() {
    assert_eq!(classify(&[0x00, 0x01]), Err(ParseError::BadEof));
}

#[test]
fn loca_short_format_scales_by_two() {
    let data = [0u8, 0, 0, 10, 0, 10, 0, 20];
    let offsets = decode_loca(&data, 3, 0).unwrap();
    assert_eq!(offsets, vec![0, 20, 20, 40]);
}

#[test]
fn loca_long_format_reads_u32() {
    let data = [0u8, 0, 0, 0, 0, 0, 0, 16];
    let offsets = decode_loca(&data, 1, 1).unwrap();
    assert_eq!(offsets, vec![0, 16]);
}

#[test]
fn loca_length_is_num_glyphs_plus_one() {
    let data = [0u8; 10];
    let offsets = decode_loca(&data, 4, 0).unwrap();
    assert_eq!(offsets.len(), 5);
}

#[test]
fn loca_bad_format_rejected() {
    let data = [0u8; 8];
    assert_eq!(decode_loca(&data, 1, 2), Err(ParseError::BadValue));
    assert_eq!(decode_loca(&data, 1, -1), Err(ParseError::BadValue));
}

#[test]
fn loca_truncated_rejected() {
    let data = [0u8; 6];
    assert_eq!(decode_loca(&data, 3, 0), Err(ParseError::BadEof));
}

#[test]
fn loca_decreasing_rejected() {
    let data = [0u8, 10, 0, 5];
    assert_eq!(decode_loca(&data, 1, 0), Err(ParseError::BadValue));
}

#[test]
fn glyph_records_bounded_by_consecutive_offsets() {
    let glyf: Vec<u8> = (0u8..40).collect();
    let loca = vec![0u32, 20, 20, 40];
    let records = glyph_records(&glyf, &loca).unwrap();
    assert_eq!(records.len(), 3);
    assert_eq!(records[0], glyf[0..20].to_vec());
    assert_eq!(records[1], Vec::<u8>::new());
    assert_eq!(records[2], glyf[20..40].to_vec());
}

#[test]
fn glyph_records_empty_offsets_rejected() {
    let glyf = [0u8; 4];
    assert_eq!(glyph_records(&glyf, &vec![]), Err(ParseError::BadValue));
}

#[test]
fn glyph_records_decreasing_offsets_rejected() {
    let glyf = [0u8; 16];
    assert_eq!(glyph_records(&glyf, &vec![10, 5]), Err(ParseError::BadValue));
}

#[test]
fn glyph_records_offset_past_end_rejected() {
    let glyf = [0u8; 16];
    assert_eq!(glyph_records(&glyf, &vec![0, 20]), Err(ParseError::BadEof));
}

#[test]
fn chain_reports_three_glyphs() {
    let loca = LocaSource::Raw(vec![0u8, 0, 0, 10, 0, 10, 0, 20]);
    let glyf_data: Vec<u8> = (0u8..40).collect();
    let glyf = GlyfSource::Raw(glyf_data.clone());
    let records = resolve_glyf_chain(Some(0), Some(3), Some(&loca), Some(&glyf)).unwrap();
    assert_eq!(records.len(), 3);
    assert_eq!(records[0], glyf_data[0..20].to_vec());
    assert_eq!(records[1], Vec::<u8>::new());
    assert_eq!(records[2], glyf_data[20..40].to_vec());
}

#[test]
fn chain_missing_table_is_fatal() {
    let loca = LocaSource::Raw(vec![0u8; 8]);
    let glyf = GlyfSource::Raw(vec![0u8; 4]);
    assert_eq!(
        resolve_glyf_chain(None, Some(3), Some(&loca), Some(&glyf)),
        Err(ParseError::MissingTable)
    );
    assert_eq!(
        resolve_glyf_chain(Some(0), None, Some(&loca), Some(&glyf)),
        Err(ParseError::MissingTable)
    );
    assert_eq!(
        resolve_glyf_chain(Some(0), Some(3), None, Some(&glyf)),
        Err(ParseError::MissingTable)
    );
    assert_eq!(
        resolve_glyf_chain(Some(0), Some(3), Some(&loca), None),
        Err(ParseError::MissingTable)
    );
}

#[test]
fn chain_accepts_decoded_offsets() {
    let loca = LocaSource::Decoded(vec![0, 20, 20, 40]);
    let glyf_data: Vec<u8> = (0u8..40).collect();
    let glyf = GlyfSource::Raw(glyf_data.clone());
    let records = resolve_glyf_chain(Some(1), Some(3), Some(&loca), Some(&glyf)).unwrap();
    assert_eq!(records.len(), 3);
    assert_eq!(records[0], glyf_data[0..20].to_vec());
}

#[test]
fn chain_rejects_decoded_offsets_of_wrong_count() {
    let loca = LocaSource::Decoded(vec![0, 20, 40]);
    let glyf = GlyfSource::Raw(vec![0u8; 40]);
    assert_eq!(
        resolve_glyf_chain(Some(1), Some(3), Some(&loca), Some(&glyf)),
        Err(ParseError::BadValue)
    );
}

#[test]
fn chain_rejects_decreasing_decoded_offsets() {
    let loca = LocaSource::Decoded(vec![0, 30, 20, 40]);
    let glyf = GlyfSource::Raw(vec![0u8; 40]);
    assert_eq!(
        resolve_glyf_chain(Some(1), Some(3), Some(&loca), Some(&glyf)),
        Err(ParseError::BadValue)
    );
}

#[test]
fn chain_accepts_reconstructed_records() {
    let loca = LocaSource::Decoded(vec![0, 20, 20, 40]);
    let glyf = GlyfSource::Records(vec![vec![1; 20], vec![], vec![2; 20]]);
    let records = resolve_glyf_chain(Some(1), Some(3), Some(&loca), Some(&glyf)).unwrap();
    assert_eq!(records.len(), 3);
    assert_eq!(records[0], vec![1; 20]);
}

#[test]
fn chain_rejects_record_count_mismatch() {
    let loca = LocaSource::Decoded(vec![0, 20, 20, 40]);
    let glyf = GlyfSource::Records(vec![vec![1; 20]]);
    assert_eq!(
        resolve_glyf_chain(Some(1), Some(3), Some(&loca), Some(&glyf)),
        Err(ParseError::BadValue)
    );
}

#[test]
fn table_bytes_exact_range() {
    let buffer: Vec<u8> = (0u8..10).collect();
    let bytes = table_bytes(&buffer, 2, 3).unwrap();
    assert_eq!(bytes, vec![2, 3, 4]);
    assert_eq!(bytes.len(), 3);
}

#[test]
fn table_bytes_out_of_range_rejected() {
    let buffer = [0u8; 10];
    assert_eq!(table_bytes(&buffer, 8, 3), Err(ParseError::BadEof));
    assert_eq!(table_bytes(&buffer, 11, 0), Err(ParseError::BadEof));
}

#[test]
fn find_table_record_first_match() {
    let rec = |tag: u32| TableRecord { tag, checksum: 0, offset: 0, length: 0 };
    let records = vec![rec(1), rec(2), rec(2)];
    assert_eq!(find_table_record(&records, 2), Some(1));
    assert_eq!(find_table_record(&records, 3), None);
}

#[test]
fn loca_zero_glyphs_single_offset() {
    let data = [0u8, 0];
    let offsets = decode_loca(&data, 0, 0).unwrap();
    assert_eq!(offsets, vec![0]);
    let records = glyph_records(&[], &offsets).unwrap();
    assert!(records.is_empty());
}

#[test]
fn loca_largest_glyph_count() {
    let data = vec![0u8; (65535 + 1) * 2];
    let offsets = decode_loca(&data, 65535, 0).unwrap();
    assert_eq!(offsets.len(), 65536);
}
