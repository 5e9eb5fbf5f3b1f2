//! The dump operation: a human-readable summary of each container variant,
//! the resolved glyph-offset table, and the choice among the dump modes.
use vstd::prelude::*;
use crate::ParseError;
use crate::name::{name_lines_from, name_table_lines, NameTableModel};
use crate::render::{dec_chars, hex_chars, render_dec, render_hex};
use crate::tables::{loca_from_source, resolved_chain, resolve_glyf_chain, GlyfChain, LocaSource,
    TableRecord, Woff2TableRecord, WoffTableRecord};
use crate::tag::{tag_chars, tag_to_string};

verus! {

/// A single font's table directory, as read from one buffer.
#[derive(Debug)]
pub struct TtfModel {
    /// The version value of the offset table.
    pub sfnt_version: u32,
    /// How many bytes the font's data region holds; table ranges must lie
    /// within it.
    pub data_len: u32,
    /// The table records, in directory order.
    pub records: Vec<TableRecord>,
    /// The font's name table, where one is present.
    pub name_table: Option<NameTableModel>,
}

/// What the name-table part of a summary must yield: nothing where no name
/// table is present, its lines otherwise.
pub open spec fn name_part(t: Option<NameTableModel>) -> Result<Seq<Seq<char>>, ParseError> {
    match t {
        None => Ok(Seq::empty()),
        Some(table) => name_lines_from(table.name_records@, table.string_storage@, 0),
    }
}

/// One directory line of a single font's summary.
pub open spec fn ttf_record_line(rec: TableRecord) -> Seq<char> {
    tag_chars(rec.tag) + " (checksum: 0x"@ + hex_chars(rec.checksum as nat, 8) + ", offset: "@
        + dec_chars(rec.offset as nat) + ", length: "@ + dec_chars(rec.length as nat) + ")"@
}

/// The heading lines of a single font's summary.
pub open spec fn ttf_header_lines(m: TtfModel) -> Seq<Seq<char>> {
    seq![
        "TTF"@,
        " - version: 0x"@ + hex_chars(m.sfnt_version as nat, 8),
        " - num_tables: "@ + dec_chars(m.records@.len()),
        Seq::<char>::empty(),
    ]
}

/// Whether every record's byte range lies within the font's data region.
pub open spec fn records_in_bounds(records: Seq<TableRecord>, data_len: u32) -> bool {
    forall|i: int| 0 <= i < records.len() ==> (#[trigger] records[i]).offset + records[i].length
        <= data_len
}

/// What a single font's summary must yield: the headings, one line per
/// directory record, a blank, and the name table where present; a record
/// past the end of the data region is truncation.
pub open spec fn ttf_lines(m: TtfModel) -> Result<Seq<Seq<char>>, ParseError> {
    if !records_in_bounds(m.records@, m.data_len) {
        Err(ParseError::BadEof)
    } else {
        match name_part(m.name_table) {
            Err(e) => Err(e),
            Ok(nl) => Ok(
                ttf_header_lines(m) + Seq::new(
                    m.records@.len(),
                    |i: int| ttf_record_line(m.records@[i]),
                ) + seq![Seq::<char>::empty()] + nl,
            ),
        }
    }
}

/// Summarises a single font: version, table count, one line per table
/// record, and the decoded name table where one is present.
pub fn dump_ttf(m: &TtfModel) -> (r: Result<Vec<String>, ParseError>)
    ensures
        r is Ok <==> ttf_lines(*m) is Ok,
        r is Ok ==> r->Ok_0.deep_view() == ttf_lines(*m)->Ok_0,
        r is Err ==> r == Err::<Vec<String>, ParseError>(ttf_lines(*m)->Err_0),
{
    let mut lines: Vec<String> = Vec::new();
    lines.push(String::from_str("TTF"));
    let mut version = String::from_str(" - version: 0x");
    version.append(render_hex(m.sfnt_version as u64, 8).as_str());
    lines.push(version);
    let mut count = String::from_str(" - num_tables: ");
    count.append(render_dec(m.records.len() as u64).as_str());
    lines.push(count);
    lines.push(String::new());
    proof {
        assert(lines.deep_view() =~= ttf_header_lines(*m));
    }
    let mut i: usize = 0;
    while i < m.records.len()
        invariant
            0 <= i <= m.records@.len(),
            forall|k: int| 0 <= k < i ==> (#[trigger] m.records@[k]).offset + m.records@[k].length
                <= m.data_len,
            lines.deep_view() =~= ttf_header_lines(*m) + Seq::new(
                i as nat,
                |k: int| ttf_record_line(m.records@[k]),
            ),
        decreases m.records@.len() - i,
    {
        let rec = m.records[i];
        if rec.length > m.data_len || rec.offset > m.data_len - rec.length {
            return Err(ParseError::BadEof);
        }
        let mut line = tag_to_string(rec.tag);
        line.append(" (checksum: 0x");
        line.append(render_hex(rec.checksum as u64, 8).as_str());
        line.append(", offset: ");
        line.append(render_dec(rec.offset as u64).as_str());
        line.append(", length: ");
        line.append(render_dec(rec.length as u64).as_str());
        line.append(")");
        proof {
            assert(line@ =~= ttf_record_line(m.records@[i as int]));
        }
        let ghost old_dv = lines.deep_view();
        lines.push(line);
        i = i + 1;
        proof {
            let ghost target = ttf_header_lines(*m) + Seq::new(
                i as nat,
                |k: int| ttf_record_line(m.records@[k]),
            );
            assert(lines@.len() == old_dv.len() + 1);
            assert(old_dv.len() == 4 + (i - 1));
            assert forall|j: int| 0 <= j < lines.deep_view().len() implies lines.deep_view()[j]
                == target[j] by {
                if j < old_dv.len() {
                    assert(lines.deep_view()[j] == old_dv[j]);
                } else {
                    assert(lines.deep_view()[j] == line@);
                }
            }
            assert(lines.deep_view() =~= target);
        }
    }
    lines.push(String::new());
    let ghost before_name = lines.deep_view();
    proof {
        assert(before_name =~= ttf_header_lines(*m) + Seq::new(
            m.records@.len(),
            |k: int| ttf_record_line(m.records@[k]),
        ) + seq![Seq::<char>::empty()]);
    }
    match &m.name_table {
        None => {
            proof {
                assert(lines.deep_view() =~= ttf_lines(*m)->Ok_0);
            }
            Ok(lines)
        },
        Some(table) => {
            match name_table_lines(table) {
                Err(e) => Err(e),
                Ok(mut nl) => {
                    let ghost nl_dv = nl.deep_view();
                    lines.append(&mut nl);
                    proof {
                        assert(lines.deep_view() =~= before_name + nl_dv);
                        assert(lines.deep_view() =~= ttf_lines(*m)->Ok_0);
                    }
                    Ok(lines)
                },
            }
        },
    }
}

/// A font collection's header and its member fonts.
#[derive(Debug)]
pub struct TtcModel {
    /// The collection header's major version.
    pub major_version: u16,
    /// The collection header's minor version.
    pub minor_version: u16,
    /// The member fonts, in offset-table order.
    pub fonts: Vec<TtfModel>,
}

/// What the member fonts of a collection must yield from position `k` on:
/// each font's summary in turn, stopping at the first fault.
pub open spec fn ttc_fonts_lines_from(fonts: Seq<TtfModel>, k: int) -> Result<
    Seq<Seq<char>>,
    ParseError,
>
    decreases fonts.len() - k,
{
    if k < 0 || k >= fonts.len() {
        Ok(Seq::empty())
    } else {
        match ttf_lines(fonts[k]) {
            Err(e) => Err(e),
            Ok(fl) => match ttc_fonts_lines_from(fonts, k + 1) {
                Err(e) => Err(e),
                Ok(rest) => Ok(fl + rest),
            },
        }
    }
}

/// The heading lines of a collection's summary.
pub open spec fn ttc_header_lines(m: TtcModel) -> Seq<Seq<char>> {
    seq![
        "TTC"@,
        " - version: "@ + dec_chars(m.major_version as nat) + "."@ + dec_chars(
            m.minor_version as nat,
        ),
        " - num_fonts: "@ + dec_chars(m.fonts@.len()),
        Seq::<char>::empty(),
    ]
}

/// What a collection's summary must yield: the headings, then each member
/// font's summary, then a blank line.
pub open spec fn ttc_lines(m: TtcModel) -> Result<Seq<Seq<char>>, ParseError> {
    match ttc_fonts_lines_from(m.fonts@, 0) {
        Err(e) => Err(e),
        Ok(fl) => Ok(ttc_header_lines(m) + fl + seq![Seq::<char>::empty()]),
    }
}

/// Summarises a font collection: version, font count, and each member
/// font's summary in turn.
pub fn dump_ttc(m: &TtcModel) -> (r: Result<Vec<String>, ParseError>)
    ensures
        r is Ok <==> ttc_lines(*m) is Ok,
        r is Ok ==> r->Ok_0.deep_view() == ttc_lines(*m)->Ok_0,
        r is Err ==> r == Err::<Vec<String>, ParseError>(ttc_lines(*m)->Err_0),
{
    let ghost fonts = m.fonts@;
    let mut lines: Vec<String> = Vec::new();
    lines.push(String::from_str("TTC"));
    let mut version = String::from_str(" - version: ");
    version.append(render_dec(m.major_version as u64).as_str());
    version.append(".");
    version.append(render_dec(m.minor_version as u64).as_str());
    lines.push(version);
    let mut count = String::from_str(" - num_fonts: ");
    count.append(render_dec(m.fonts.len() as u64).as_str());
    lines.push(count);
    lines.push(String::new());
    proof {
        assert(lines.deep_view() =~= ttc_header_lines(*m));
    }
    let mut i: usize = 0;
    while i < m.fonts.len()
        invariant
            fonts == m.fonts@,
            0 <= i <= fonts.len(),
            match ttc_fonts_lines_from(fonts, i as int) {
                Ok(rest) => ttc_fonts_lines_from(fonts, 0) == Ok::<Seq<Seq<char>>, ParseError>(
                    lines.deep_view().skip(4) + rest,
                ),
                Err(e) => ttc_fonts_lines_from(fonts, 0) == Err::<Seq<Seq<char>>, ParseError>(e),
            },
            lines.deep_view().take(4) =~= ttc_header_lines(*m),
            lines.deep_view().len() >= 4,
        decreases fonts.len() - i,
    {
        match dump_ttf(&m.fonts[i]) {
            Err(e) => {
                return Err(e);
            },
            Ok(mut fl) => {
                let ghost fl_dv = fl.deep_view();
                let ghost old_dv = lines.deep_view();
                lines.append(&mut fl);
                i = i + 1;
                proof {
                    assert(lines.deep_view() =~= old_dv + fl_dv);
                    assert(lines.deep_view().take(4) =~= old_dv.take(4));
                    if ttc_fonts_lines_from(fonts, i as int) is Ok {
                        assert(lines.deep_view().skip(4) + ttc_fonts_lines_from(
                            fonts,
                            i as int,
                        )->Ok_0 =~= old_dv.skip(4) + (fl_dv + ttc_fonts_lines_from(
                            fonts,
                            i as int,
                        )->Ok_0));
                    }
                }
            },
        }
    }
    lines.push(String::new());
    proof {
        assert(lines.deep_view() =~= ttc_lines(*m)->Ok_0);
    }
    Ok(lines)
}

/// The idempotence of dumping: the lines a summary yields are a function
/// of the model alone, so dumping the same data twice yields byte-identical
/// text.
pub proof fn lemma_dump_idempotent(
    m1: TtfModel,
    m2: TtfModel,
    c1: TtcModel,
    c2: TtcModel,
    w1: WoffModel,
    w2: WoffModel,
    v1: Woff2Model,
    v2: Woff2Model,
)
    requires
        m1 == m2,
        c1 == c2,
        w1 == w2,
        v1 == v2,
    ensures
        ttf_lines(m1) == ttf_lines(m2),
        ttc_lines(c1) == ttc_lines(c2),
        woff_lines(w1) == woff_lines(w2),
        woff2_lines(v1) == woff2_lines(v2),
{
}

/// A WOFF container: its directory, extended metadata, and name table.
#[derive(Debug)]
pub struct WoffModel {
    /// How many bytes the container holds; compressed table ranges must
    /// lie within it.
    pub data_len: u32,
    /// The table records, in directory order.
    pub records: Vec<WoffTableRecord>,
    /// The decompressed extended-metadata text, where the container
    /// carries any.
    pub metadata: Option<String>,
    /// The font's name table, where one is present.
    pub name_table: Option<NameTableModel>,
}

/// One directory line of a WOFF summary.
pub open spec fn woff_record_line(rec: WoffTableRecord) -> Seq<char> {
    tag_chars(rec.tag) + " (original checksum: 0x"@ + hex_chars(rec.orig_checksum as nat, 8)
        + ", compressed length: "@ + dec_chars(rec.comp_length as nat) + " original length: "@
        + dec_chars(rec.orig_length as nat) + ")"@
}

/// The extended-metadata part of a summary: a blank line, a heading and
/// the text where metadata is present, nothing otherwise.
pub open spec fn metadata_lines(metadata: Option<String>) -> Seq<Seq<char>> {
    match metadata {
        None => Seq::empty(),
        Some(text) => seq![Seq::<char>::empty(), "Extended Metadata:"@, text@],
    }
}

/// The fault one WOFF directory entry carries: truncation where its
/// compressed range runs past the container, else whatever fault fetching
/// (decompressing and reading) the table hit.
pub open spec fn woff_record_fault(rec: WoffTableRecord, data_len: u32) -> Option<ParseError> {
    if rec.offset + rec.comp_length > data_len {
        Some(ParseError::BadEof)
    } else {
        rec.fetch_error
    }
}

/// The first fault among the directory entries from position `k` on, in
/// directory order, if any.
pub open spec fn first_woff_fault(records: Seq<WoffTableRecord>, data_len: u32, k: int) -> Option<
    ParseError,
>
    decreases records.len() - k,
{
    if k < 0 || k >= records.len() {
        None
    } else {
        match woff_record_fault(records[k], data_len) {
            Some(e) => Some(e),
            None => first_woff_fault(records, data_len, k + 1),
        }
    }
}

/// What a WOFF summary must yield: the headings, one line per directory
/// record, the extended metadata where present, a blank, and the name
/// table where present; every entry must fetch, and the summary stops at
/// the first entry that does not.
pub open spec fn woff_lines(m: WoffModel) -> Result<Seq<Seq<char>>, ParseError> {
    if first_woff_fault(m.records@, m.data_len, 0) is Some {
        Err(first_woff_fault(m.records@, m.data_len, 0)->Some_0)
    } else {
        match name_part(m.name_table) {
            Err(e) => Err(e),
            Ok(nl) => Ok(
                seq![
                    "TTF in WOFF"@,
                    " - num_tables: "@ + dec_chars(m.records@.len()),
                    Seq::<char>::empty(),
                ] + Seq::new(m.records@.len(), |i: int| woff_record_line(m.records@[i]))
                    + metadata_lines(m.metadata) + seq![Seq::<char>::empty()] + nl,
            ),
        }
    }
}

/// Summarises a WOFF container: table count, one line per directory
/// record with both sizes, the extended metadata, and the name table.
pub fn dump_woff(m: &WoffModel) -> (r: Result<Vec<String>, ParseError>)
    ensures
        r is Ok <==> woff_lines(*m) is Ok,
        r is Ok ==> r->Ok_0.deep_view() == woff_lines(*m)->Ok_0,
        r is Err ==> r == Err::<Vec<String>, ParseError>(woff_lines(*m)->Err_0),
{
    let ghost header = seq![
        "TTF in WOFF"@,
        " - num_tables: "@ + dec_chars(m.records@.len()),
        Seq::<char>::empty(),
    ];
    let mut lines: Vec<String> = Vec::new();
    lines.push(String::from_str("TTF in WOFF"));
    let mut count = String::from_str(" - num_tables: ");
    count.append(render_dec(m.records.len() as u64).as_str());
    lines.push(count);
    lines.push(String::new());
    proof {
        assert(lines.deep_view() =~= header);
    }
    let mut i: usize = 0;
    while i < m.records.len()
        invariant
            header == seq![
                "TTF in WOFF"@,
                " - num_tables: "@ + dec_chars(m.records@.len()),
                Seq::<char>::empty(),
            ],
            0 <= i <= m.records@.len(),
            first_woff_fault(m.records@, m.data_len, 0) == first_woff_fault(
                m.records@,
                m.data_len,
                i as int,
            ),
            lines.deep_view() =~= header + Seq::new(
                i as nat,
                |k: int| woff_record_line(m.records@[k]),
            ),
        decreases m.records@.len() - i,
    {
        let rec = m.records[i];
        if rec.comp_length > m.data_len || rec.offset > m.data_len - rec.comp_length {
            return Err(ParseError::BadEof);
        }
        match rec.fetch_error {
            Some(e) => {
                return Err(e);
            },
            None => {},
        }
        let mut line = tag_to_string(rec.tag);
        line.append(" (original checksum: 0x");
        line.append(render_hex(rec.orig_checksum as u64, 8).as_str());
        line.append(", compressed length: ");
        line.append(render_dec(rec.comp_length as u64).as_str());
        line.append(" original length: ");
        line.append(render_dec(rec.orig_length as u64).as_str());
        line.append(")");
        proof {
            assert(line@ =~= woff_record_line(m.records@[i as int]));
        }
        let ghost old_dv = lines.deep_view();
        lines.push(line);
        i = i + 1;
        proof {
            let ghost target = header + Seq::new(
                i as nat,
                |k: int| woff_record_line(m.records@[k]),
            );
            assert(old_dv.len() == 3 + (i - 1));
            assert forall|j: int| 0 <= j < lines.deep_view().len() implies lines.deep_view()[j]
                == target[j] by {
                if j < old_dv.len() {
                    assert(lines.deep_view()[j] == old_dv[j]);
                } else {
                    assert(lines.deep_view()[j] == line@);
                }
            }
            assert(lines.deep_view() =~= target);
        }
    }
    let ghost after_records = lines.deep_view();
    match &m.metadata {
        None => {},
        Some(text) => {
            lines.push(String::new());
            lines.push(String::from_str("Extended Metadata:"));
            lines.push(text.clone());
            proof {
                assert(lines.deep_view() =~= after_records + metadata_lines(m.metadata));
            }
        },
    }
    proof {
        assert(lines.deep_view() =~= after_records + metadata_lines(m.metadata));
    }
    lines.push(String::new());
    let ghost before_name = lines.deep_view();
    proof {
        assert(before_name =~= after_records + metadata_lines(m.metadata) + seq![
            Seq::<char>::empty(),
        ]);
    }
    match &m.name_table {
        None => {
            proof {
                assert(lines.deep_view() =~= woff_lines(*m)->Ok_0);
            }
            Ok(lines)
        },
        Some(table) => {
            match name_table_lines(table) {
                Err(e) => Err(e),
                Ok(mut nl) => {
                    let ghost nl_dv = nl.deep_view();
                    lines.append(&mut nl);
                    proof {
                        assert(lines.deep_view() =~= before_name + nl_dv);
                        assert(lines.deep_view() =~= woff_lines(*m)->Ok_0);
                    }
                    Ok(lines)
                },
            }
        },
    }
}


/// A WOFF2 container: its directory, sizes, metadata, the glyph-chain
/// context for the chosen font, and its name table.
#[derive(Debug)]
pub struct Woff2Model {
    /// The table records, in directory order.
    pub records: Vec<Woff2TableRecord>,
    /// How many fonts the collection directory names, where the container
    /// packages a collection.
    pub num_fonts: Option<u32>,
    /// The size of the compressed font data, as the header records it.
    pub total_compressed_size: u32,
    /// The size of the decompressed table data block.
    pub table_data_len: u32,
    /// The decompressed extended-metadata text, where the container
    /// carries any.
    pub metadata: Option<String>,
    /// The glyph-chain context, where the chosen font has a `glyf` table.
    pub glyf: Option<GlyfChain>,
    /// The font's name table, where one is present.
    pub name_table: Option<NameTableModel>,
}

/// One directory line of a WOFF2 summary.
pub open spec fn woff2_record_line(rec: Woff2TableRecord) -> Seq<char> {
    tag_chars(rec.tag) + " (original length: "@ + dec_chars(rec.orig_length as nat)
        + ", transform length: "@ + (match rec.transform_length {
        Some(t) => dec_chars(t as nat),
        None => "none"@,
    }) + ")"@
}

/// One line per glyph outline record: the record's size.
pub open spec fn glyf_record_line(record: Seq<u8>) -> Seq<char> {
    "- "@ + dec_chars(record.len()) + " bytes"@
}

/// What the glyph part of a WOFF2 summary must yield where the chosen font
/// has a `glyf` table: the resolved chain's record count and one line per
/// record, or the first fault of the chain.
pub open spec fn glyf_part(g: Option<GlyfChain>) -> Result<Seq<Seq<char>>, ParseError> {
    match g {
        None => Ok(Seq::empty()),
        Some(c) => {
            if c.head_loc_format is None || c.maxp_num_glyphs is None || c.loca is None {
                Err(ParseError::MissingTable)
            } else {
                match resolved_chain(
                    c.head_loc_format->Some_0 as int,
                    c.maxp_num_glyphs->Some_0 as int,
                    c.loca->Some_0,
                    c.glyf,
                ) {
                    Err(e) => Err(e),
                    Ok(recs) => Ok(
                        seq![
                            Seq::<char>::empty(),
                            "Read glyf table with "@ + dec_chars(recs.len()) + " glyphs:"@,
                        ] + Seq::new(recs.len(), |i: int| glyf_record_line(recs[i])),
                    ),
                }
            }
        },
    }
}

/// The heading lines of a WOFF2 summary.
pub open spec fn woff2_header_lines(m: Woff2Model) -> Seq<Seq<char>> {
    seq![
        "TTF in WOFF2"@,
        " - num tables: "@ + dec_chars(m.records@.len()),
    ] + (match m.num_fonts {
        Some(n) => seq![" - num fonts: "@ + dec_chars(n as nat)],
        None => Seq::<Seq<char>>::empty(),
    }) + seq![
        " - sizeof font data: "@ + dec_chars(m.total_compressed_size as nat) + " compressed "@
            + dec_chars(m.table_data_len as nat) + " uncompressed"@,
        Seq::<char>::empty(),
    ]
}

/// What a WOFF2 summary must yield: the headings, one line per directory
/// record, the extended metadata, the glyph records of the chosen font,
/// and the name table, stopping at the chain's first fault.
pub open spec fn woff2_lines(m: Woff2Model) -> Result<Seq<Seq<char>>, ParseError> {
    match glyf_part(m.glyf) {
        Err(e) => Err(e),
        Ok(gl) => match name_part(m.name_table) {
            Err(e) => Err(e),
            Ok(nl) => Ok(
                woff2_header_lines(m) + Seq::new(
                    m.records@.len(),
                    |i: int| woff2_record_line(m.records@[i]),
                ) + metadata_lines(m.metadata) + gl + (if m.name_table is Some {
                    seq![Seq::<char>::empty()] + nl
                } else {
                    nl
                }),
            ),
        },
    }
}

/// Summarises a WOFF2 container: table and font counts, sizes, one line
/// per directory record, the extended metadata, the chosen font's glyph
/// records resolved through the dependent-table chain, and the name table.
#[verifier::rlimit(100)]
pub fn dump_woff2(m: &Woff2Model) -> (r: Result<Vec<String>, ParseError>)
    ensures
        r is Ok <==> woff2_lines(*m) is Ok,
        r is Ok ==> r->Ok_0.deep_view() == woff2_lines(*m)->Ok_0,
        r is Err ==> r == Err::<Vec<String>, ParseError>(woff2_lines(*m)->Err_0),
{
    let mut lines: Vec<String> = Vec::new();
    lines.push(String::from_str("TTF in WOFF2"));
    let mut count = String::from_str(" - num tables: ");
    count.append(render_dec(m.records.len() as u64).as_str());
    lines.push(count);
    match &m.num_fonts {
        None => {},
        Some(n) => {
            let mut fonts = String::from_str(" - num fonts: ");
            fonts.append(render_dec(*n as u64).as_str());
            lines.push(fonts);
        },
    }
    let mut sizes = String::from_str(" - sizeof font data: ");
    sizes.append(render_dec(m.total_compressed_size as u64).as_str());
    sizes.append(" compressed ");
    sizes.append(render_dec(m.table_data_len as u64).as_str());
    sizes.append(" uncompressed");
    lines.push(sizes);
    lines.push(String::new());
    proof {
        assert(lines.deep_view() =~= woff2_header_lines(*m));
    }
    let ghost header = lines.deep_view();
    let mut i: usize = 0;
    while i < m.records.len()
        invariant
            header == lines.deep_view().take(header.len() as int),
            0 <= i <= m.records@.len(),
            lines.deep_view() =~= header + Seq::new(
                i as nat,
                |k: int| woff2_record_line(m.records@[k]),
            ),
        decreases m.records@.len() - i,
    {
        let rec = m.records[i];
        let mut line = tag_to_string(rec.tag);
        line.append(" (original length: ");
        line.append(render_dec(rec.orig_length as u64).as_str());
        line.append(", transform length: ");
        match rec.transform_length {
            Some(t) => line.append(render_dec(t as u64).as_str()),
            None => line.append("none"),
        }
        line.append(")");
        proof {
            assert(line@ =~= woff2_record_line(m.records@[i as int]));
        }
        let ghost old_dv = lines.deep_view();
        lines.push(line);
        i = i + 1;
        proof {
            let ghost target = header + Seq::new(
                i as nat,
                |k: int| woff2_record_line(m.records@[k]),
            );
            assert(old_dv.len() == header.len() + (i - 1));
            assert forall|j: int| 0 <= j < lines.deep_view().len() implies lines.deep_view()[j]
                == target[j] by {
                if j < old_dv.len() {
                    assert(lines.deep_view()[j] == old_dv[j]);
                } else {
                    assert(lines.deep_view()[j] == line@);
                }
            }
            assert(lines.deep_view() =~= target);
            assert(lines.deep_view().take(header.len() as int) =~= old_dv.take(
                header.len() as int,
            ));
        }
    }
    let ghost after_records = lines.deep_view();
    match &m.metadata {
        None => {},
        Some(text) => {
            lines.push(String::new());
            lines.push(String::from_str("Extended Metadata:"));
            lines.push(text.clone());
        },
    }
    proof {
        assert(lines.deep_view() =~= after_records + metadata_lines(m.metadata));
    }
    let ghost after_meta = lines.deep_view();
    match &m.glyf {
        None => {},
        Some(c) => {
            let records = match resolve_glyf_chain(
                c.head_loc_format,
                c.maxp_num_glyphs,
                c.loca.as_ref(),
                Some(&c.glyf),
            ) {
                Err(e) => {
                    return Err(e);
                },
                Ok(records) => records,
            };
            lines.push(String::new());
            let mut heading = String::from_str("Read glyf table with ");
            heading.append(render_dec(records.len() as u64).as_str());
            heading.append(" glyphs:");
            lines.push(heading);
            proof {
                assert(lines.deep_view() =~= after_meta + seq![
                    Seq::<char>::empty(),
                    "Read glyf table with "@ + dec_chars(records.deep_view().len()) + " glyphs:"@,
                ]);
            }
            let ghost before_glyphs = lines.deep_view();
            let mut g: usize = 0;
            while g < records.len()
                invariant
                    before_glyphs == lines.deep_view().take(before_glyphs.len() as int),
                    0 <= g <= records@.len(),
                    lines.deep_view() =~= before_glyphs + Seq::new(
                        g as nat,
                        |k: int| glyf_record_line(records.deep_view()[k]),
                    ),
                decreases records@.len() - g,
            {
                let mut line = String::from_str("- ");
                line.append(render_dec(records[g].len() as u64).as_str());
                line.append(" bytes");
                proof {
                    assert(records@[g as int].deep_view() =~= records@[g as int]@);
                    assert(line@ =~= glyf_record_line(records.deep_view()[g as int]));
                }
                let ghost old_dv = lines.deep_view();
                lines.push(line);
                g = g + 1;
                proof {
                    let ghost target = before_glyphs + Seq::new(
                        g as nat,
                        |k: int| glyf_record_line(records.deep_view()[k]),
                    );
                    assert(old_dv.len() == before_glyphs.len() + (g - 1));
                    assert forall|j: int| 0 <= j < lines.deep_view().len() implies lines.deep_view()[j]
                        == target[j] by {
                        if j < old_dv.len() {
                            assert(lines.deep_view()[j] == old_dv[j]);
                        } else {
                            assert(lines.deep_view()[j] == line@);
                        }
                    }
                    assert(lines.deep_view() =~= target);
                    assert(lines.deep_view().take(before_glyphs.len() as int) =~= old_dv.take(
                        before_glyphs.len() as int,
                    ));
                }
            }
            proof {
                assert(lines.deep_view() =~= after_meta + glyf_part(m.glyf)->Ok_0);
            }
        },
    }
    proof {
        assert(lines.deep_view() =~= after_meta + glyf_part(m.glyf)->Ok_0);
    }
    let ghost before_name = lines.deep_view();
    match &m.name_table {
        None => {
            proof {
                assert(lines.deep_view() =~= woff2_lines(*m)->Ok_0);
            }
            Ok(lines)
        },
        Some(table) => {
            lines.push(String::new());
            match name_table_lines(table) {
                Err(e) => Err(e),
                Ok(mut nl) => {
                    let ghost nl_dv = nl.deep_view();
                    lines.append(&mut nl);
                    proof {
                        assert(lines.deep_view() =~= before_name + (seq![Seq::<char>::empty()]
                            + nl_dv));
                        assert(lines.deep_view() =~= woff2_lines(*m)->Ok_0);
                    }
                    Ok(lines)
                },
            }
        },
    }
}


/// The lines of a resolved glyph-offset dump: a heading, then one line per
/// glyph with its position and offset.
pub open spec fn loca_dump_line(i: int, offset: u32) -> Seq<char> {
    dec_chars(i as nat) + ": "@ + dec_chars(offset as nat)
}

/// What dumping the glyph-offset table must yield once the chain's inputs
/// are at hand: a table missing from the chain is fatal, a malformed
/// offset sequence is the decoder's fault, and otherwise the offsets are
/// listed in order, one per glyph position.
pub open spec fn loca_dump_lines(
    head_loc_format: Option<i16>,
    maxp_num_glyphs: Option<u16>,
    loca: Option<LocaSource>,
) -> Result<Seq<Seq<char>>, ParseError> {
    if head_loc_format is None || maxp_num_glyphs is None || loca is None {
        Err(ParseError::MissingTable)
    } else {
        match loca_from_source(
            loca->Some_0,
            maxp_num_glyphs->Some_0 as int,
            head_loc_format->Some_0 as int,
        ) {
            Err(e) => Err(e),
            Ok(offsets) => Ok(
                seq!["loca:"@] + Seq::new(offsets.len(), |i: int| loca_dump_line(i, offsets[i])),
            ),
        }
    }
}

/// Renders the heading and one line per offset.
fn loca_lines(offsets: &Vec<u32>) -> (r: Vec<String>)
    ensures
        r.deep_view() == seq!["loca:"@] + Seq::new(
            offsets@.len(),
            |i: int| loca_dump_line(i, offsets@[i]),
        ),
{
    let mut lines: Vec<String> = Vec::new();
    lines.push(String::from_str("loca:"));
    let mut i: usize = 0;
    while i < offsets.len()
        invariant
            0 <= i <= offsets@.len(),
            lines.deep_view() =~= seq!["loca:"@] + Seq::new(
                i as nat,
                |k: int| loca_dump_line(k, offsets@[k]),
            ),
        decreases offsets@.len() - i,
    {
        let mut line = render_dec(i as u64);
        line.append(": ");
        line.append(render_dec(offsets[i] as u64).as_str());
        proof {
            assert(line@ =~= loca_dump_line(i as int, offsets@[i as int]));
        }
        let ghost old_dv = lines.deep_view();
        lines.push(line);
        i = i + 1;
        proof {
            let ghost target = seq!["loca:"@] + Seq::new(
                i as nat,
                |k: int| loca_dump_line(k, offsets@[k]),
            );
            assert(old_dv.len() == 1 + (i - 1));
            assert forall|j: int| 0 <= j < lines.deep_view().len() implies lines.deep_view()[j]
                == target[j] by {
                if j < old_dv.len() {
                    assert(lines.deep_view()[j] == old_dv[j]);
                } else {
                    assert(lines.deep_view()[j] == line@);
                }
            }
            assert(lines.deep_view() =~= target);
        }
    }
    lines
}

/// Dumps the resolved glyph-offset table: fetches nothing itself, but
/// decodes or validates the `loca` offsets under the index format from
/// `head` and the glyph count from `maxp`, and lists each offset; a
/// missing table in the chain is an explicit fatal outcome.
pub fn dump_loca_table(
    head_loc_format: Option<i16>,
    maxp_num_glyphs: Option<u16>,
    loca: Option<&LocaSource>,
) -> (r: Result<Vec<String>, ParseError>)
    ensures
        ({
            let spec_lines = loca_dump_lines(
                head_loc_format,
                maxp_num_glyphs,
                match loca {
                    Some(src) => Some(*src),
                    None => None,
                },
            );
            &&& r is Ok <==> spec_lines is Ok
            &&& r is Ok ==> r->Ok_0.deep_view() == spec_lines->Ok_0
            &&& r is Err ==> r == Err::<Vec<String>, ParseError>(spec_lines->Err_0)
        }),
{
    let fmt = match head_loc_format {
        Some(f) => f,
        None => {
            return Err(ParseError::MissingTable);
        },
    };
    let n = match maxp_num_glyphs {
        Some(n) => n,
        None => {
            return Err(ParseError::MissingTable);
        },
    };
    let src = match loca {
        Some(src) => src,
        None => {
            return Err(ParseError::MissingTable);
        },
    };
    match src {
        LocaSource::Raw(data) => {
            match crate::tables::decode_loca(data.as_slice(), n, fmt) {
                Ok(offsets) => Ok(loca_lines(&offsets)),
                Err(e) => Err(e),
            }
        },
        LocaSource::Decoded(offsets) => {
            if offsets.len() != n as usize + 1 {
                return Err(ParseError::BadValue);
            }
            if !crate::tables::check_monotonic(offsets) {
                return Err(ParseError::BadValue);
            }
            Ok(loca_lines(offsets))
        },
    }
}

/// The dump mode one invocation runs in.
#[derive(Clone, Copy, Debug, PartialEq, Eq, Structural)]
pub enum DumpAction {
    /// Raw table bytes were asked for while standard output is an
    /// interactive terminal: refuse with a message, write nothing.
    RefuseTty,
    /// Print the resolved glyph-offset table.
    Loca,
    /// Write one table's raw bytes, named by its tag.
    Raw(u32),
    /// Print the human-readable summary.
    Summary,
}

/// The mode the options select: asking for raw bytes on an interactive
/// terminal is refused before anything is read; otherwise the offset-table
/// dump wins over a raw dump, and the summary is the default.
pub open spec fn planned_dump(table: Option<u32>, loca: bool, stdout_is_tty: bool) -> DumpAction {
    if table is Some && stdout_is_tty {
        DumpAction::RefuseTty
    } else if loca {
        DumpAction::Loca
    } else if table is Some {
        DumpAction::Raw(table->Some_0)
    } else {
        DumpAction::Summary
    }
}

/// Chooses the dump mode from the options and the terminal state.
pub fn plan_dump(table: Option<u32>, loca: bool, stdout_is_tty: bool) -> (r: DumpAction)
    ensures
        r == planned_dump(table, loca, stdout_is_tty),
{
    match table {
        Some(tag) => {
            if stdout_is_tty {
                DumpAction::RefuseTty
            } else if loca {
                DumpAction::Loca
            } else {
                DumpAction::Raw(tag)
            }
        },
        None => {
            if loca {
                DumpAction::Loca
            } else {
                DumpAction::Summary
            }
        },
    }
}


/// A fault of the raw-dump operation. A tag the user asked for that the
/// directory does not carry is a user-constraint violation, distinct from
/// a parse fault: the file itself may be well-formed.
#[derive(Clone, Copy, Debug, PartialEq, Eq, Structural)]
pub enum DumpFault {
    /// The font data itself is at fault.
    Parse(ParseError),
    /// The directory carries no table with the requested tag.
    MissingTag(u32),
}

/// The position of the first directory record carrying a tag, looking from
/// position `k` on.
pub open spec fn first_tag_index_from(records: Seq<TableRecord>, tag: u32, k: int) -> Option<int>
    decreases records.len() - k,
{
    if k < 0 || k >= records.len() {
        None
    } else if records[k].tag == tag {
        Some(k)
    } else {
        first_tag_index_from(records, tag, k + 1)
    }
}

/// What a raw dump from a plain font's directory must yield: exactly the
/// `length` bytes at `offset` that the first record carrying the tag
/// names, unmodified; a tag absent from the directory is a fatal
/// user-constraint fault naming the tag, and a range past the end of the
/// buffer is truncation.
pub open spec fn raw_table_result(buffer: Seq<u8>, records: Seq<TableRecord>, tag: u32) -> Result<
    Seq<u8>,
    DumpFault,
> {
    match first_tag_index_from(records, tag, 0) {
        None => Err(DumpFault::MissingTag(tag)),
        Some(i) => {
            let rec = records[i];
            if rec.offset + rec.length <= buffer.len() {
                Ok(buffer.subrange(rec.offset as int, rec.offset + rec.length))
            } else {
                Err(DumpFault::Parse(ParseError::BadEof))
            }
        },
    }
}

/// Fetches the raw bytes of the table the user asked for by tag: exactly
/// `length` bytes from `offset`, with nothing else produced; an absent tag
/// is a fatal fault naming the tag.
pub fn raw_table(buffer: &[u8], records: &Vec<TableRecord>, tag: u32) -> (r: Result<
    Vec<u8>,
    DumpFault,
>)
    ensures
        r is Ok <==> raw_table_result(buffer@, records@, tag) is Ok,
        r is Ok ==> r->Ok_0@ == raw_table_result(buffer@, records@, tag)->Ok_0,
        r is Err ==> r == Err::<Vec<u8>, DumpFault>(raw_table_result(buffer@, records@, tag)->Err_0),
{
    let mut i: usize = 0;
    while i < records.len()
        invariant
            0 <= i <= records@.len(),
            first_tag_index_from(records@, tag, 0) == first_tag_index_from(records@, tag, i as int),
        decreases records@.len() - i,
    {
        if records[i].tag == tag {
            let rec = records[i];
            return match crate::tables::table_bytes(buffer, rec.offset, rec.length) {
                Ok(bytes) => Ok(bytes),
                Err(_) => Err(DumpFault::Parse(ParseError::BadEof)),
            };
        }
        i = i + 1;
    }
    Err(DumpFault::MissingTag(tag))
}

/// The outcome of a raw dump whose bytes the codec fetched by tag: the
/// bytes where the table exists, and the fatal fault naming the tag where
/// it does not.
pub fn raw_table_outcome(table: Option<Vec<u8>>, tag: u32) -> (r: Result<Vec<u8>, DumpFault>)
    ensures
        table is Some ==> r == Ok::<Vec<u8>, DumpFault>(table.unwrap()),
        table is None ==> r == Err::<Vec<u8>, DumpFault>(DumpFault::MissingTag(tag)),
{
    match table {
        Some(bytes) => Ok(bytes),
        None => Err(DumpFault::MissingTag(tag)),
    }
}

/// The text of a raw-dump fault.
pub open spec fn dump_fault_text(f: DumpFault) -> Seq<char> {
    match f {
        DumpFault::MissingTag(tag) => "Table "@ + tag_chars(tag) + " not found"@,
        DumpFault::Parse(ParseError::BadEof) => "parse error: unexpected end of data"@,
        DumpFault::Parse(ParseError::BadValue) => "parse error: bad value"@,
        DumpFault::Parse(ParseError::BadVersion) => "parse error: bad version"@,
        DumpFault::Parse(ParseError::MissingTable) => "parse error: missing table"@,
    }
}

impl DumpFault {
    /// The message reported to the user: a missing tag is named; a parse
    /// fault names its kind.
    pub fn message(&self) -> (r: String)
        ensures
            r@ == dump_fault_text(*self),
    {
        match self {
            DumpFault::MissingTag(tag) => {
                let mut m = String::from_str("Table ");
                m.append(tag_to_string(*tag).as_str());
                m.append(" not found");
                proof {
                    assert(m@ =~= dump_fault_text(*self));
                }
                m
            },
            DumpFault::Parse(ParseError::BadEof) => String::from_str(
                "parse error: unexpected end of data",
            ),
            DumpFault::Parse(ParseError::BadValue) => String::from_str("parse error: bad value"),
            DumpFault::Parse(ParseError::BadVersion) => String::from_str(
                "parse error: bad version",
            ),
            DumpFault::Parse(ParseError::MissingTable) => String::from_str(
                "parse error: missing table",
            ),
        }
    }
}

} // verus!
