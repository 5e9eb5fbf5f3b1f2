use fontdump::shape::{
    cmap_diagnostic, dotted_circle_fallback, glyphs_before_line, glyphs_from_mappings,
    make_dotted_circle, make_glyph, substitution_report, GlyphOrigin,
};
use fontdump::ParseError;

#[test]
fn make_glyph_fields() {
    let g = make_glyph('A', 3);
    assert_eq!(g.unicodes, vec!['A']);
    assert_eq!(g.glyph_index, Some(3));
    assert_eq!(g.liga_component_pos, 0);
    assert_eq!(g.glyph_origin, GlyphOrigin::Char('A'));
    assert!(!g.small_caps);
    assert!(!g.multi_subst_dup);
    assert!(!g.is_vert_alt);
    assert!(!g.fake_bold);
    assert!(!g.fake_italic);
}

#[test]
fn unmapped_characters_are_dropped() {
    let pairs = vec![('A', Some(3)), ('B', None), ('C', Some(7))];
    let glyphs = glyphs_from_mappings(&pairs);
    assert_eq!(glyphs.len(), 2);
    assert_eq!(glyphs[0].glyph_index, Some(3));
    assert_eq!(glyphs[0].unicodes, vec!['A']);
    assert_eq!(glyphs[1].glyph_index, Some(7));
    assert_eq!(glyphs[1].unicodes, vec!['C']);
}

#[test]
fn glyph_trace_line() {
    let pairs = vec![('A', Some(3))];
    let glyphs = glyphs_from_mappings(&pairs);
    assert_eq!(glyphs_before_line(&glyphs), "glyphs before: U+000041->3");
}

#[test]
fn no_cmap_diagnostic() {
    assert_eq!(cmap_diagnostic(false, false), Some("no cmap table".to_string()));
    assert_eq!(cmap_diagnostic(false, true), Some("no cmap table".to_string()));
}

#[test]
fn no_suitable_subtable_diagnostic() {
    assert_eq!(cmap_diagnostic(true, false), Some("no suitable cmap subtable".to_string()));
}

#[test]
fn subtable_found_no_diagnostic() {
    assert_eq!(cmap_diagnostic(true, true), None);
}

#[test]
fn missing_gsub_reported() {
    let glyphs = glyphs_from_mappings(&vec![('A', Some(3))]);
    assert_eq!(substitution_report(false, false, &glyphs), vec!["no GSUB table".to_string()]);
}

#[test]
fn substitution_fired_reports_after_sequence() {
    let glyphs = glyphs_from_mappings(&vec![('A', Some(3))]);
    assert_eq!(
        substitution_report(true, true, &glyphs),
        vec!["res: true".to_string(), "glyphs after: U+000041->3".to_string()]
    );
}

#[test]
fn substitution_not_fired_keeps_sequence_silent() {
    let glyphs = glyphs_from_mappings(&vec![('A', Some(3))]);
    assert_eq!(substitution_report(true, false, &glyphs), vec!["res: false".to_string()]);
}

#[test]
fn dotted_circle_by_mapping() {
    let some = make_dotted_circle(Some(9));
    assert_eq!(some.len(), 1);
    assert_eq!(some[0].unicodes, vec!['\u{25cc}']);
    assert_eq!(some[0].glyph_index, Some(9));
    assert!(make_dotted_circle(None).is_empty());
}

#[test]
fn shaping_with_cmap_but_no_gsub() {
    // A font whose character map sends 'A' to glyph 3 and which has no
    // substitution table: the trace carries glyph 3 and the pipeline stops
    // with the missing-table line, leaving no after-sequence.
    assert_eq!(cmap_diagnostic(true, true), None);
    let glyphs = glyphs_from_mappings(&vec![('A', Some(3))]);
    let before = glyphs_before_line(&glyphs);
    assert!(before.contains("->3"));
    let report = substitution_report(false, false, &glyphs);
    assert_eq!(report, vec!["no GSUB table".to_string()]);
}

#[test]
fn dotted_circle_lookup_error_yields_empty() {
    assert!(dotted_circle_fallback(Err(ParseError::BadValue)).is_empty());
    assert!(dotted_circle_fallback(Ok(None)).is_empty());
    let one = dotted_circle_fallback(Ok(Some(9)));
    assert_eq!(one.len(), 1);
    assert_eq!(one[0].glyph_index, Some(9));
}
