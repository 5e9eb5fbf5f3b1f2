//! Decoding name records: a text codec is selected by the record's
//! platform and encoding identifiers, the record's bytes are decoded with
//! it, and the record's kind is given its human-readable label.
use vstd::prelude::*;
use crate::ParseError;
use crate::render::{dec_chars, push_char, render_dec};

verus! {

/// The text codec a name record's platform and encoding identifiers select.
#[derive(Clone, Copy, Debug, PartialEq, Eq, Structural)]
pub enum NameCodec {
    /// UTF-16, big-endian.
    Utf16Be,
    /// The Macintosh Roman character set.
    MacRoman,
    /// No codec is known for the pair: a placeholder is emitted instead.
    Unknown,
}

/// The codec for a `(platform, encoding)` pair: the Unicode platform and
/// the Windows platform's Unicode encodings decode as UTF-16 big-endian,
/// the Macintosh platform's Roman encoding as Macintosh Roman; every other
/// pair is unknown.
pub open spec fn codec_for(platform_id: u16, encoding_id: u16) -> NameCodec {
    if platform_id == 0 {
        NameCodec::Utf16Be
    } else if platform_id == 1 && encoding_id == 0 {
        NameCodec::MacRoman
    } else if platform_id == 3 && (encoding_id == 0 || encoding_id == 1 || encoding_id == 10) {
        NameCodec::Utf16Be
    } else {
        NameCodec::Unknown
    }
}

/// Selects the codec for a `(platform, encoding)` pair.
pub fn select_codec(platform_id: u16, encoding_id: u16) -> (r: NameCodec)
    ensures
        r == codec_for(platform_id, encoding_id),
{
    if platform_id == 0 {
        NameCodec::Utf16Be
    } else if platform_id == 1 && encoding_id == 0 {
        NameCodec::MacRoman
    } else if platform_id == 3 && (encoding_id == 0 || encoding_id == 1 || encoding_id == 10) {
        NameCodec::Utf16Be
    } else {
        NameCodec::Unknown
    }
}

/// The text that UTF-16 big-endian decoding, with replacement of malformed
/// sequences, yields for the given bytes.
pub uninterp spec fn utf16be_decoded(data: Seq<u8>) -> Seq<char>;

/// The text that Macintosh Roman decoding yields for the given bytes.
pub uninterp spec fn mac_roman_decoded(data: Seq<u8>) -> Seq<char>;

/// Name data longer than this is not decoded; the decoded text's backing
/// buffer could not be sized within `usize` otherwise.
pub const NAME_DATA_LIMIT: usize = usize::MAX / 8;

/// Relies on `encoding_rs::Encoding::decode` with the `UTF_16BE` encoding:
/// the decoded text, with BOM sniffing and malformed sequences replaced,
/// depends on the bytes alone; an empty input decodes to an empty string.
/// The length bound keeps the size calculation for the backing buffer,
/// on which the call would panic, within `usize`.
#[verifier::external_body]
fn decode_utf16be(data: &[u8]) -> (r: String)
    requires
        data@.len() <= NAME_DATA_LIMIT,
    ensures
        r@ == utf16be_decoded(data@),
        data@.len() == 0 ==> r@.len() == 0,
{
    let (text, _, _) = encoding_rs::UTF_16BE.decode(data);
    text.into_owned()
}

/// Relies on `encoding_rs::Encoding::decode` with the `MACINTOSH`
/// encoding: the decoded text depends on the bytes alone; an empty input
/// decodes to an empty string. The length bound keeps the size calculation
/// for the backing buffer, on which the call would panic, within `usize`.
#[verifier::external_body]
fn decode_mac_roman(data: &[u8]) -> (r: String)
    requires
        data@.len() <= NAME_DATA_LIMIT,
    ensures
        r@ == mac_roman_decoded(data@),
        data@.len() == 0 ==> r@.len() == 0,
{
    let (text, _, _) = encoding_rs::MACINTOSH.decode(data);
    text.into_owned()
}

/// The placeholder text for a record whose platform and encoding pair no
/// codec is known for; it never fails, naming the triple instead.
pub open spec fn unknown_placeholder(platform_id: u16, encoding_id: u16, language_id: u16) -> Seq<
    char,
> {
    "(unknown platform="@ + dec_chars(platform_id as nat) + " encoding="@ + dec_chars(
        encoding_id as nat,
    ) + " language="@ + dec_chars(language_id as nat) + ")"@
}

/// The text a name record decodes to: the selected codec's decoding of its
/// bytes, the placeholder for an unknown pair, or an empty string where
/// the data is too long to size a decode buffer.
pub open spec fn decoded_name(
    platform_id: u16,
    encoding_id: u16,
    language_id: u16,
    data: Seq<u8>,
) -> Seq<char> {
    match codec_for(platform_id, encoding_id) {
        NameCodec::Utf16Be => if data.len() <= NAME_DATA_LIMIT {
            utf16be_decoded(data)
        } else {
            Seq::empty()
        },
        NameCodec::MacRoman => if data.len() <= NAME_DATA_LIMIT {
            mac_roman_decoded(data)
        } else {
            Seq::empty()
        },
        NameCodec::Unknown => unknown_placeholder(platform_id, encoding_id, language_id),
    }
}

/// Decodes one name record's bytes by its platform, encoding and language
/// identifiers. Never fails: an unknown pair yields the placeholder text.
pub fn decode_name(platform_id: u16, encoding_id: u16, language_id: u16, data: &[u8]) -> (r: String)
    ensures
        r@ == decoded_name(platform_id, encoding_id, language_id, data@),
{
    match select_codec(platform_id, encoding_id) {
        NameCodec::Utf16Be => {
            if data.len() <= NAME_DATA_LIMIT {
                decode_utf16be(data)
            } else {
                String::new()
            }
        },
        NameCodec::MacRoman => {
            if data.len() <= NAME_DATA_LIMIT {
                decode_mac_roman(data)
            } else {
                String::new()
            }
        },
        NameCodec::Unknown => {
            let mut s = String::from_str("(unknown platform=");
            s.append(render_dec(platform_id as u64).as_str());
            s.append(" encoding=");
            s.append(render_dec(encoding_id as u64).as_str());
            s.append(" language=");
            s.append(render_dec(language_id as u64).as_str());
            s.append(")");
            proof {
                assert(s@ =~= unknown_placeholder(platform_id, encoding_id, language_id));
            }
            s
        },
    }
}

/// The human-readable label of a name record kind, for the closed set of
/// kinds that have one; the reserved kind 15 and kinds past 25 have none.
pub open spec fn name_meaning(name_id: u16) -> Option<Seq<char>> {
    if name_id == 0 {
        Some("Copyright"@)
    } else if name_id == 1 {
        Some("Font Family"@)
    } else if name_id == 2 {
        Some("Font Subfamily"@)
    } else if name_id == 3 {
        Some("Unique Identifier"@)
    } else if name_id == 4 {
        Some("Full Font Name"@)
    } else if name_id == 5 {
        Some("Version"@)
    } else if name_id == 6 {
        Some("PostScript Name"@)
    } else if name_id == 7 {
        Some("Trademark"@)
    } else if name_id == 8 {
        Some("Manufacturer"@)
    } else if name_id == 9 {
        Some("Designer"@)
    } else if name_id == 10 {
        Some("Description"@)
    } else if name_id == 11 {
        Some("URL Vendor"@)
    } else if name_id == 12 {
        Some("URL Designer"@)
    } else if name_id == 13 {
        Some("License Description"@)
    } else if name_id == 14 {
        Some("License Info URL"@)
    } else if name_id == 16 {
        Some("Typographic Family"@)
    } else if name_id == 17 {
        Some("Typographic Subfamily"@)
    } else if name_id == 18 {
        Some("Compatible Full"@)
    } else if name_id == 19 {
        Some("Sample Text"@)
    } else if name_id == 20 {
        Some("PostScript CID findfont"@)
    } else if name_id == 21 {
        Some("WWS Family Name"@)
    } else if name_id == 22 {
        Some("WWS Subfamily Name"@)
    } else if name_id == 23 {
        Some("Light Background Palette"@)
    } else if name_id == 24 {
        Some("Dark Background Palette"@)
    } else if name_id == 25 {
        Some("Variations PostScript Name Prefix"@)
    } else {
        None
    }
}

/// The label of a name record kind; the reserved kind 15 stays unlabelled,
/// as does every kind past 25.
pub fn get_name_meaning(name_id: u16) -> (r: Option<&'static str>)
    ensures
        r is Some <==> name_meaning(name_id) is Some,
        r is Some ==> r->Some_0@ == name_meaning(name_id)->Some_0,
{
    match name_id {
        0 => Some("Copyright"),
        1 => Some("Font Family"),
        2 => Some("Font Subfamily"),
        3 => Some("Unique Identifier"),
        4 => Some("Full Font Name"),
        5 => Some("Version"),
        6 => Some("PostScript Name"),
        7 => Some("Trademark"),
        8 => Some("Manufacturer"),
        9 => Some("Designer"),
        10 => Some("Description"),
        11 => Some("URL Vendor"),
        12 => Some("URL Designer"),
        13 => Some("License Description"),
        14 => Some("License Info URL"),
        15 => None,
        16 => Some("Typographic Family"),
        17 => Some("Typographic Subfamily"),
        18 => Some("Compatible Full"),
        19 => Some("Sample Text"),
        20 => Some("PostScript CID findfont"),
        21 => Some("WWS Family Name"),
        22 => Some("WWS Subfamily Name"),
        23 => Some("Light Background Palette"),
        24 => Some("Dark Background Palette"),
        25 => Some("Variations PostScript Name Prefix"),
        _ => None,
    }
}

/// One record of a name table, indexing into the table's shared
/// string-storage region.
#[derive(Clone, Copy, Debug, PartialEq, Eq, Structural)]
pub struct NameRecord {
    /// The platform the record's text is encoded for.
    pub platform_id: u16,
    /// The encoding within that platform.
    pub encoding_id: u16,
    /// The language of the text.
    pub language_id: u16,
    /// What the record names (family, version, ...).
    pub name_id: u16,
    /// Where the text begins in the string storage.
    pub offset: u16,
    /// How many bytes of storage the text takes.
    pub length: u16,
}

/// A decoded name table: its records and the string storage they share.
#[derive(Debug)]
pub struct NameTableModel {
    /// The records, in directory order.
    pub name_records: Vec<NameRecord>,
    /// The byte region all records index into.
    pub string_storage: Vec<u8>,
}

/// Whether a record's byte range lies within the string storage.
pub open spec fn record_in_storage(rec: NameRecord, storage: Seq<u8>) -> bool {
    rec.offset + rec.length <= storage.len()
}

/// The bytes a record points at.
pub open spec fn record_data(rec: NameRecord, storage: Seq<u8>) -> Seq<u8> {
    storage.subrange(rec.offset as int, rec.offset + rec.length)
}

/// The label line of one record: the kind's label, or `name` and the
/// kind's number where no label exists.
pub open spec fn record_label_line(rec: NameRecord) -> Seq<char> {
    match name_meaning(rec.name_id) {
        Some(label) => label,
        None => "name "@ + dec_chars(rec.name_id as nat),
    }
}

/// The text line of one record: its decoded text between double quotes.
pub open spec fn record_text_line(rec: NameRecord, storage: Seq<u8>) -> Seq<char> {
    seq!['"'] + decoded_name(rec.platform_id, rec.encoding_id, rec.language_id, record_data(
        rec,
        storage,
    )) + seq!['"']
}

/// The lines that dumping a name table must yield from the record at `k`
/// on: three lines per record in directory order (label, quoted text, a
/// blank), or truncation where a record points outside the storage.
pub open spec fn name_lines_from(records: Seq<NameRecord>, storage: Seq<u8>, k: int) -> Result<
    Seq<Seq<char>>,
    ParseError,
>
    decreases records.len() - k,
{
    if k < 0 || k >= records.len() {
        Ok(Seq::empty())
    } else if !record_in_storage(records[k], storage) {
        Err(ParseError::BadEof)
    } else {
        match name_lines_from(records, storage, k + 1) {
            Err(e) => Err(e),
            Ok(rest) => Ok(
                seq![
                    record_label_line(records[k]),
                    record_text_line(records[k], storage),
                    Seq::<char>::empty(),
                ] + rest,
            ),
        }
    }
}

/// Dumps a name table: for each record in directory order its label line,
/// its decoded text in double quotes, and a blank line; a record pointing
/// outside the string storage is truncation.
pub fn name_table_lines(table: &NameTableModel) -> (r: Result<Vec<String>, ParseError>)
    ensures
        r is Ok <==> name_lines_from(table.name_records@, table.string_storage@, 0) is Ok,
        r is Ok ==> r->Ok_0.deep_view() == name_lines_from(
            table.name_records@,
            table.string_storage@,
            0,
        )->Ok_0,
        r is Err ==> r == Err::<Vec<String>, ParseError>(
            name_lines_from(table.name_records@, table.string_storage@, 0)->Err_0,
        ),
{
    let ghost recs = table.name_records@;
    let ghost storage = table.string_storage@;
    let mut lines: Vec<String> = Vec::new();
    let mut i: usize = 0;
    while i < table.name_records.len()
        invariant
            recs == table.name_records@,
            storage == table.string_storage@,
            0 <= i <= recs.len(),
            match name_lines_from(recs, storage, i as int) {
                Ok(rest) => name_lines_from(recs, storage, 0) == Ok::<Seq<Seq<char>>, ParseError>(
                    lines.deep_view() + rest,
                ),
                Err(e) => name_lines_from(recs, storage, 0) == Err::<Seq<Seq<char>>, ParseError>(e),
            },
        decreases recs.len() - i,
    {
        let rec = table.name_records[i];
        let off = rec.offset as usize;
        let len = rec.length as usize;
        if len > table.string_storage.len() || off > table.string_storage.len() - len {
            return Err(ParseError::BadEof);
        }
        let data = vstd::slice::slice_subrange(table.string_storage.as_slice(), off, off + len);
        assert(data@ == record_data(rec, storage));
        let label = match get_name_meaning(rec.name_id) {
            Some(meaning) => String::from_str(meaning),
            None => {
                let mut l = String::from_str("name ");
                l.append(render_dec(rec.name_id as u64).as_str());
                proof {
                    assert(l@ =~= record_label_line(rec));
                }
                l
            },
        };
        let text = decode_name(rec.platform_id, rec.encoding_id, rec.language_id, data);
        let mut quoted = String::new();
        push_char(&mut quoted, '"');
        quoted.append(text.as_str());
        push_char(&mut quoted, '"');
        proof {
            assert(quoted@ =~= record_text_line(rec, storage));
        }
        let ghost old_lines = lines.deep_view();
        lines.push(label);
        lines.push(quoted);
        lines.push(String::new());
        i = i + 1;
        proof {
            assert(lines.deep_view() =~= old_lines + seq![
                record_label_line(rec),
                record_text_line(rec, storage),
                Seq::<char>::empty(),
            ]);
            if name_lines_from(recs, storage, i as int) is Ok {
                assert(lines.deep_view() + name_lines_from(recs, storage, i as int)->Ok_0
                    =~= old_lines + name_lines_from(recs, storage, i - 1)->Ok_0);
            }
        }
    }
    Ok(lines)
}

} // verus!
