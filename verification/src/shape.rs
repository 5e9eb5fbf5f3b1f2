//! The shaping pipeline: characters are mapped to glyphs through a
//! character-map subtable, unmapped characters are silently dropped, and a
//! substitution pass may rewrite the glyph sequence; each early exit is an
//! informational outcome, not an error.
use vstd::prelude::*;
use crate::render::{dec_chars, hex_chars, render_dec, render_hex};

verus! {

/// Where a glyph of the pipeline came from.
#[derive(Clone, Copy, Debug, PartialEq, Eq, Structural)]
pub enum GlyphOrigin {
    /// The glyph stands for one character of the input text.
    Char(char),
    /// The glyph was made up by the pipeline itself.
    Synthesized,
}

/// One glyph of the shaping pipeline.
#[derive(Clone, Debug)]
pub struct RawGlyph {
    /// The characters that contributed to the glyph.
    pub unicodes: Vec<char>,
    /// The glyph's identifier in the font, where one is known.
    pub glyph_index: Option<u16>,
    /// The glyph's position within a ligature.
    pub liga_component_pos: u16,
    /// Where the glyph came from.
    pub glyph_origin: GlyphOrigin,
    /// Whether the glyph is a small-caps form.
    pub small_caps: bool,
    /// Whether the glyph was duplicated by a multiple substitution.
    pub multi_subst_dup: bool,
    /// Whether the glyph is a vertical alternate.
    pub is_vert_alt: bool,
    /// Whether a bold form is to be faked.
    pub fake_bold: bool,
    /// Whether an italic form is to be faked.
    pub fake_italic: bool,
}

/// The mathematical value of one glyph.
pub ghost struct GlyphModel {
    /// The characters that contributed to the glyph.
    pub unicodes: Seq<char>,
    /// The glyph's identifier, where one is known.
    pub glyph_index: Option<u16>,
    /// The glyph's position within a ligature.
    pub liga_component_pos: u16,
    /// Where the glyph came from.
    pub glyph_origin: GlyphOrigin,
    /// Whether the glyph is a small-caps form.
    pub small_caps: bool,
    /// Whether the glyph was duplicated by a multiple substitution.
    pub multi_subst_dup: bool,
    /// Whether the glyph is a vertical alternate.
    pub is_vert_alt: bool,
    /// Whether a bold form is to be faked.
    pub fake_bold: bool,
    /// Whether an italic form is to be faked.
    pub fake_italic: bool,
}

impl View for RawGlyph {
    type V = GlyphModel;

    open spec fn view(&self) -> GlyphModel {
        GlyphModel {
            unicodes: self.unicodes@,
            glyph_index: self.glyph_index,
            liga_component_pos: self.liga_component_pos,
            glyph_origin: self.glyph_origin,
            small_caps: self.small_caps,
            multi_subst_dup: self.multi_subst_dup,
            is_vert_alt: self.is_vert_alt,
            fake_bold: self.fake_bold,
            fake_italic: self.fake_italic,
        }
    }
}

/// The glyph one mapped character yields: carrying that character, its
/// glyph identifier, and no ligature position or appearance flag.
pub open spec fn char_glyph(ch: char, glyph_index: u16) -> GlyphModel {
    GlyphModel {
        unicodes: seq![ch],
        glyph_index: Some(glyph_index),
        liga_component_pos: 0,
        glyph_origin: GlyphOrigin::Char(ch),
        small_caps: false,
        multi_subst_dup: false,
        is_vert_alt: false,
        fake_bold: false,
        fake_italic: false,
    }
}

/// The glyph values of a sequence of glyphs.
pub open spec fn views_of(s: Seq<RawGlyph>) -> Seq<GlyphModel> {
    s.map_values(|g: RawGlyph| g@)
}

/// Builds the glyph for one mapped character.
pub fn make_glyph(ch: char, glyph_index: u16) -> (r: RawGlyph)
    ensures
        r@ == char_glyph(ch, glyph_index),
{
    let mut unicodes: Vec<char> = Vec::new();
    unicodes.push(ch);
    proof {
        assert(unicodes@ =~= seq![ch]);
    }
    RawGlyph {
        unicodes,
        glyph_index: Some(glyph_index),
        liga_component_pos: 0,
        glyph_origin: GlyphOrigin::Char(ch),
        small_caps: false,
        multi_subst_dup: false,
        is_vert_alt: false,
        fake_bold: false,
        fake_italic: false,
    }
}

/// The glyphs that the mappings from position `k` on yield: one glyph per
/// mapped character, in text order; a character the subtable does not map
/// is silently dropped, on purpose, and leaves no placeholder.
pub open spec fn mapped_glyphs_from(pairs: Seq<(char, Option<u16>)>, k: int) -> Seq<GlyphModel>
    decreases pairs.len() - k,
{
    if k < 0 || k >= pairs.len() {
        Seq::empty()
    } else {
        match pairs[k].1 {
            None => mapped_glyphs_from(pairs, k + 1),
            Some(idx) => seq![char_glyph(pairs[k].0, idx)] + mapped_glyphs_from(pairs, k + 1),
        }
    }
}

/// Turns the subtable's answers into the glyph sequence: each mapped
/// character becomes one glyph, each unmapped character is dropped.
pub fn glyphs_from_mappings(pairs: &Vec<(char, Option<u16>)>) -> (r: Vec<RawGlyph>)
    ensures
        views_of(r@) == mapped_glyphs_from(pairs@, 0),
{
    let mut glyphs: Vec<RawGlyph> = Vec::new();
    let mut i: usize = 0;
    while i < pairs.len()
        invariant
            0 <= i <= pairs@.len(),
            views_of(glyphs@) + mapped_glyphs_from(pairs@, i as int) =~= mapped_glyphs_from(
                pairs@,
                0,
            ),
        decreases pairs@.len() - i,
    {
        let (ch, mapping) = pairs[i];
        let ghost old_views = views_of(glyphs@);
        match mapping {
            None => {},
            Some(idx) => {
                glyphs.push(make_glyph(ch, idx));
                proof {
                    assert(views_of(glyphs@) =~= old_views + seq![char_glyph(ch, idx)]);
                }
            },
        }
        i = i + 1;
        proof {
            assert(views_of(glyphs@) + mapped_glyphs_from(pairs@, i as int) =~= old_views
                + mapped_glyphs_from(pairs@, i - 1));
        }
    }
    glyphs
}

/// The character whose glyph stands in for a missing combining-mark base:
/// the dotted circle.
pub const DOTTED_CIRCLE: char = '\u{25cc}';

/// The fallback glyph sequence: one glyph for the dotted circle where the
/// subtable maps it, and an empty sequence where it does not.
pub fn make_dotted_circle(mapping: Option<u16>) -> (r: Vec<RawGlyph>)
    ensures
        mapping is Some ==> views_of(r@) == seq![char_glyph(DOTTED_CIRCLE, mapping->Some_0)],
        mapping is None ==> r@.len() == 0,
{
    match mapping {
        Some(idx) => {
            let mut v: Vec<RawGlyph> = Vec::new();
            v.push(make_glyph(DOTTED_CIRCLE, idx));
            proof {
                assert(views_of(v@) =~= seq![char_glyph(DOTTED_CIRCLE, idx)]);
            }
            v
        },
        None => Vec::new(),
    }
}

/// The fallback sequence for the outcome of the dotted-circle lookup: one
/// glyph where the subtable maps the character, and an empty sequence both
/// where it does not and where the lookup itself failed — the fallback
/// never fails.
pub fn dotted_circle_fallback(lookup: Result<Option<u16>, crate::ParseError>) -> (r: Vec<RawGlyph>)
    ensures
        lookup is Ok && lookup->Ok_0 is Some ==> views_of(r@) == seq![
            char_glyph(DOTTED_CIRCLE, lookup->Ok_0->Some_0),
        ],
        !(lookup is Ok && lookup->Ok_0 is Some) ==> r@.len() == 0,
{
    match lookup {
        Ok(mapping) => make_dotted_circle(mapping),
        Err(_) => Vec::new(),
    }
}

/// The diagnostic the character-map stage emits: one line where the font
/// has no character map at all, another where no subtable suits, nothing
/// where a subtable was found; the first two end the pipeline early,
/// successfully.
pub open spec fn cmap_diag(has_cmap: bool, has_subtable: bool) -> Option<Seq<char>> {
    if !has_cmap {
        Some("no cmap table"@)
    } else if !has_subtable {
        Some("no suitable cmap subtable"@)
    } else {
        None
    }
}

/// Reports whether the character-map stage can go on, and with which
/// diagnostic it stops where it cannot.
pub fn cmap_diagnostic(has_cmap: bool, has_subtable: bool) -> (r: Option<String>)
    ensures
        r is Some <==> cmap_diag(has_cmap, has_subtable) is Some,
        r is Some ==> r->Some_0@ == cmap_diag(has_cmap, has_subtable)->Some_0,
{
    if !has_cmap {
        Some(String::from_str("no cmap table"))
    } else if !has_subtable {
        Some(String::from_str("no suitable cmap subtable"))
    } else {
        None
    }
}

/// The rendering of one glyph: the character it came from as a six-digit
/// scalar value (or `synth` for a made-up glyph), an arrow, and its glyph
/// identifier (or `none`).
pub open spec fn glyph_repr(g: GlyphModel) -> Seq<char> {
    (match g.glyph_origin {
        GlyphOrigin::Char(c) => "U+"@ + hex_chars(c as u32 as nat, 6),
        GlyphOrigin::Synthesized => "synth"@,
    }) + "->"@ + (match g.glyph_index {
        Some(idx) => dec_chars(idx as nat),
        None => "none"@,
    })
}

/// The rendering of a glyph sequence from position `k` on: each glyph
/// after one space.
pub open spec fn glyphs_chars_from(s: Seq<GlyphModel>, k: int) -> Seq<char>
    decreases s.len() - k,
{
    if k < 0 || k >= s.len() {
        Seq::empty()
    } else {
        " "@ + glyph_repr(s[k]) + glyphs_chars_from(s, k + 1)
    }
}

/// Renders one glyph.
fn render_glyph(g: &RawGlyph) -> (r: String)
    ensures
        r@ == glyph_repr(g@),
{
    let mut s = match g.glyph_origin {
        GlyphOrigin::Char(c) => {
            let mut s = String::from_str("U+");
            s.append(render_hex(c as u64, 6).as_str());
            s
        },
        GlyphOrigin::Synthesized => String::from_str("synth"),
    };
    s.append("->");
    match g.glyph_index {
        Some(idx) => s.append(render_dec(idx as u64).as_str()),
        None => s.append("none"),
    }
    proof {
        assert(s@ =~= glyph_repr(g@));
    }
    s
}

/// Renders a glyph sequence after a heading.
fn glyphs_line(heading: &str, glyphs: &Vec<RawGlyph>) -> (r: String)
    ensures
        r@ == heading@ + glyphs_chars_from(views_of(glyphs@), 0),
{
    let mut line = String::from_str(heading);
    let mut i: usize = 0;
    while i < glyphs.len()
        invariant
            0 <= i <= glyphs@.len(),
            line@ + glyphs_chars_from(views_of(glyphs@), i as int) =~= heading@
                + glyphs_chars_from(views_of(glyphs@), 0),
        decreases glyphs@.len() - i,
    {
        let ghost old_line = line@;
        line.append(" ");
        line.append(render_glyph(&glyphs[i]).as_str());
        i = i + 1;
        proof {
            assert(views_of(glyphs@)[i - 1] == glyphs@[i - 1]@);
            assert(line@ + glyphs_chars_from(views_of(glyphs@), i as int) =~= old_line
                + glyphs_chars_from(views_of(glyphs@), i - 1));
        }
    }
    line
}

/// The line tracing the glyph sequence before substitution.
pub fn glyphs_before_line(glyphs: &Vec<RawGlyph>) -> (r: String)
    ensures
        r@ == "glyphs before:"@ + glyphs_chars_from(views_of(glyphs@), 0),
{
    glyphs_line("glyphs before:", glyphs)
}

/// What the substitution stage must report: its absence is an
/// informational line; otherwise whether any substitution fired, and the
/// rewritten sequence where one did.
pub open spec fn substitution_report_lines(
    gsub_present: bool,
    applied: bool,
    glyphs: Seq<GlyphModel>,
) -> Seq<Seq<char>> {
    if !gsub_present {
        seq!["no GSUB table"@]
    } else if applied {
        seq![
            "res: true"@,
            "glyphs after:"@ + glyphs_chars_from(glyphs, 0),
        ]
    } else {
        seq!["res: false"@]
    }
}

/// Reports the substitution stage: the missing-table line where the font
/// has no substitution table, otherwise whether a substitution fired and,
/// where one did, the rewritten glyph sequence.
pub fn substitution_report(gsub_present: bool, applied: bool, glyphs: &Vec<RawGlyph>) -> (r: Vec<
    String,
>)
    ensures
        r.deep_view() == substitution_report_lines(gsub_present, applied, views_of(glyphs@)),
{
    let mut lines: Vec<String> = Vec::new();
    if !gsub_present {
        lines.push(String::from_str("no GSUB table"));
        proof {
            assert(lines.deep_view() =~= substitution_report_lines(
                gsub_present,
                applied,
                views_of(glyphs@),
            ));
        }
        return lines;
    }
    if applied {
        lines.push(String::from_str("res: true"));
        lines.push(glyphs_line("glyphs after:", glyphs));
    } else {
        lines.push(String::from_str("res: false"));
    }
    proof {
        assert(lines.deep_view() =~= substitution_report_lines(
            gsub_present,
            applied,
            views_of(glyphs@),
        ));
    }
    lines
}

} // verus!
