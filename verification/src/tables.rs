//! Table directories and the dependent-table chain `head` -> `maxp` ->
//! `loca` -> `glyf`: slicing raw table bytes, decoding glyph offsets with
//! the width the `head` table selects, and bounding each glyph outline
//! record by consecutive offsets.
use vstd::prelude::*;
use crate::ParseError;
use crate::dispatch::{be_u16_at, be_u32_at, read_be_u16, read_be_u32};
use vstd::slice::{slice_subrange, slice_to_vec};

verus! {

/// One entry of a table directory.
#[derive(Clone, Copy, Debug, PartialEq, Eq, Structural)]
pub struct TableRecord {
    /// The table's four-byte identifier.
    pub tag: u32,
    /// The checksum the directory records for the table.
    pub checksum: u32,
    /// Where the table's bytes begin in the buffer.
    pub offset: u32,
    /// How many bytes the table holds.
    pub length: u32,
}

/// One entry of a WOFF table directory, which keeps both the compressed
/// and the original size of the table.
#[derive(Clone, Copy, Debug, PartialEq, Eq, Structural)]
pub struct WoffTableRecord {
    /// The table's four-byte identifier.
    pub tag: u32,
    /// Where the table's compressed bytes begin in the container.
    pub offset: u32,
    /// The checksum of the original, uncompressed table.
    pub orig_checksum: u32,
    /// The table's size as stored, compressed.
    pub comp_length: u32,
    /// The table's size once decompressed.
    pub orig_length: u32,
    /// The fault, if any, that fetching (decompressing and reading) the
    /// table hit; a summary stops at the first such fault.
    pub fetch_error: Option<ParseError>,
}

/// The raw bytes of one table: exactly `length` bytes from `offset`, or a
/// fault when the range runs past the end of the buffer.
pub fn table_bytes(buffer: &[u8], offset: u32, length: u32) -> (r: Result<Vec<u8>, ParseError>)
    ensures
        offset + length <= buffer@.len() ==> (r is Ok && r->Ok_0@ == buffer@.subrange(
            offset as int,
            offset as int + length as int,
        )),
        offset + length > buffer@.len() ==> r == Err::<Vec<u8>, ParseError>(ParseError::BadEof),
{
    if length as usize > buffer.len() || offset as usize > buffer.len() - length as usize {
        return Err(ParseError::BadEof);
    }
    let s = slice_subrange(buffer, offset as usize, offset as usize + length as usize);
    Ok(slice_to_vec(s))
}

/// A sequence of offsets that never decreases.
pub open spec fn monotonic(s: Seq<u32>) -> bool {
    forall|i: int, j: int| 0 <= i <= j < s.len() ==> s[i] <= s[j]
}

proof fn lemma_monotonic_step(s: Seq<u32>, i: int, j: int)
    requires
        forall|k: int| 1 <= k < s.len() ==> s[k - 1] <= #[trigger] s[k],
        0 <= i <= j < s.len(),
    ensures
        s[i] <= s[j],
    decreases j - i,
{
    if i < j {
        lemma_monotonic_step(s, i, j - 1);
    }
}

/// A sequence whose every step never decreases is monotonic.
pub proof fn lemma_monotonic_from_steps(s: Seq<u32>)
    requires
        forall|k: int| 1 <= k < s.len() ==> s[k - 1] <= #[trigger] s[k],
    ensures
        monotonic(s),
{
    assert forall|i: int, j: int| 0 <= i <= j < s.len() implies s[i] <= s[j] by {
        lemma_monotonic_step(s, i, j);
    }
}

/// How many bytes a `loca` table of `n + 1` entries takes in the given
/// index format: two bytes an entry in format 0, four in format 1.
pub open spec fn loca_size(n: int, fmt: int) -> int {
    if fmt == 0 {
        (n + 1) * 2
    } else {
        (n + 1) * 4
    }
}

/// The offset the `loca` table stores at position `i`: in format 0 a
/// 16-bit value scaled by two, in format 1 a 32-bit value taken as is.
pub open spec fn loca_entry_at(d: Seq<u8>, i: int, fmt: int) -> int {
    if fmt == 0 {
        2 * be_u16_at(d, 2 * i)
    } else {
        be_u32_at(d, 4 * i)
    }
}

/// The whole decoded offset sequence: `n + 1` entries.
pub open spec fn loca_offsets(d: Seq<u8>, n: int, fmt: int) -> Seq<u32> {
    Seq::new((n + 1) as nat, |i: int| loca_entry_at(d, i, fmt) as u32)
}

/// What decoding a `loca` table must yield. The index format must be 0 or
/// 1; the data must hold all `n + 1` entries; the offsets must never
/// decrease; any breach is malformed.
pub open spec fn decoded_loca(d: Seq<u8>, n: int, fmt: int) -> Result<Seq<u32>, ParseError> {
    if fmt != 0 && fmt != 1 {
        Err(ParseError::BadValue)
    } else if d.len() < loca_size(n, fmt) {
        Err(ParseError::BadEof)
    } else if !monotonic(loca_offsets(d, n, fmt)) {
        Err(ParseError::BadValue)
    } else {
        Ok(loca_offsets(d, n, fmt))
    }
}

/// Decodes a `loca` table under its dependency context: the glyph count
/// from `maxp` and the index format from `head`. On success the offsets
/// number exactly `num_glyphs + 1` and never decrease.
pub fn decode_loca(d: &[u8], num_glyphs: u16, index_to_loc_format: i16) -> (r: Result<
    Vec<u32>,
    ParseError,
>)
    ensures
        r is Ok <==> decoded_loca(d@, num_glyphs as int, index_to_loc_format as int) is Ok,
        r is Ok ==> r->Ok_0@ == decoded_loca(
            d@,
            num_glyphs as int,
            index_to_loc_format as int,
        )->Ok_0,
        r is Err ==> r == Err::<Vec<u32>, ParseError>(
            decoded_loca(d@, num_glyphs as int, index_to_loc_format as int)->Err_0,
        ),
        r is Ok ==> r->Ok_0@.len() == num_glyphs + 1,
        r is Ok ==> monotonic(r->Ok_0@),
{
    let ghost n = num_glyphs as int;
    let ghost fmt = index_to_loc_format as int;
    if index_to_loc_format != 0 && index_to_loc_format != 1 {
        return Err(ParseError::BadValue);
    }
    let count: usize = num_glyphs as usize + 1;
    let needed: usize = if index_to_loc_format == 0 {
        count * 2
    } else {
        count * 4
    };
    if d.len() < needed {
        return Err(ParseError::BadEof);
    }
    let mut v: Vec<u32> = Vec::new();
    let mut i: usize = 0;
    while i < count
        invariant
            count == n + 1,
            fmt == index_to_loc_format as int,
            fmt == 0 || fmt == 1,
            needed == loca_size(n, fmt),
            n == num_glyphs as int,
            needed <= d@.len(),
            0 <= i <= count,
            v@.len() == i,
            forall|j: int| 0 <= j < i ==> v@[j] == loca_offsets(d@, n, fmt)[j],
            forall|k: int| 1 <= k < i ==> v@[k - 1] <= #[trigger] v@[k],
        decreases count - i,
    {
        let entry: u32 = if index_to_loc_format == 0 {
            2 * (read_be_u16(d, i * 2) as u32)
        } else {
            read_be_u32(d, i * 4)
        };
        assert(entry == loca_entry_at(d@, i as int, fmt));
        if i > 0 {
            let prev = v[i - 1];
            if prev > entry {
                proof {
                    let s = loca_offsets(d@, n, fmt);
                    assert(0 <= i - 1 <= i < s.len());
                    assert(s[i - 1] > s[i as int]);
                    assert(!monotonic(s));
                    assert(decoded_loca(d@, n, fmt) == Err::<Seq<u32>, ParseError>(
                        ParseError::BadValue,
                    ));
                }
                return Err(ParseError::BadValue);
            }
        }
        v.push(entry);
        i = i + 1;
    }
    proof {
        assert(v@ =~= loca_offsets(d@, n, fmt));
        lemma_monotonic_from_steps(v@);
    }
    Ok(v)
}

/// What slicing glyph records must yield: one record per glyph, bounded by
/// consecutive offsets; an empty or decreasing offset sequence is
/// malformed, and offsets past the end of the outline data are truncation.
pub open spec fn sliced_records(glyf: Seq<u8>, loca: Seq<u32>) -> Result<
    Seq<Seq<u8>>,
    ParseError,
> {
    if loca.len() == 0 || !monotonic(loca) {
        Err(ParseError::BadValue)
    } else if loca[loca.len() - 1] > glyf.len() {
        Err(ParseError::BadEof)
    } else {
        Ok(
            Seq::new(
                (loca.len() - 1) as nat,
                |i: int| glyf.subrange(loca[i] as int, loca[i + 1] as int),
            ),
        )
    }
}

/// Slices one outline record per glyph from the `glyf` table, each bounded
/// by a consecutive pair of `loca` offsets, empty when the pair is equal.
pub fn glyph_records(glyf: &[u8], loca: &Vec<u32>) -> (r: Result<Vec<Vec<u8>>, ParseError>)
    ensures
        r is Ok <==> sliced_records(glyf@, loca@) is Ok,
        r is Ok ==> r->Ok_0.deep_view() == sliced_records(glyf@, loca@)->Ok_0,
        r is Err ==> r == Err::<Vec<Vec<u8>>, ParseError>(
            sliced_records(glyf@, loca@)->Err_0,
        ),
        r is Ok ==> r->Ok_0@.len() + 1 == loca@.len(),
{
    if loca.len() == 0 {
        return Err(ParseError::BadValue);
    }
    let mut i: usize = 1;
    while i < loca.len()
        invariant
            loca@.len() >= 1,
            1 <= i <= loca@.len(),
            forall|k: int| 1 <= k < i ==> loca@[k - 1] <= #[trigger] loca@[k],
        decreases loca@.len() - i,
    {
        if loca[i - 1] > loca[i] {
            proof {
                assert(!monotonic(loca@));
            }
            return Err(ParseError::BadValue);
        }
        i = i + 1;
    }
    proof {
        lemma_monotonic_from_steps(loca@);
    }
    let last = loca[loca.len() - 1];
    if last as usize > glyf.len() {
        return Err(ParseError::BadEof);
    }
    let mut records: Vec<Vec<u8>> = Vec::new();
    let mut g: usize = 0;
    let count = loca.len() - 1;
    while g < count
        invariant
            count + 1 == loca@.len(),
            monotonic(loca@),
            loca@[count as int] <= glyf@.len(),
            0 <= g <= count,
            records@.len() == g,
            forall|k: int| 0 <= k < g ==> #[trigger] records@[k]@ == glyf@.subrange(
                loca@[k] as int,
                loca@[k + 1] as int,
            ),
        decreases count - g,
    {
        let start = loca[g];
        let end = loca[g + 1];
        proof {
            assert(loca@[g as int] <= loca@[g + 1]);
            assert(loca@[g + 1] <= loca@[count as int]);
        }
        let s = slice_subrange(glyf, start as usize, end as usize);
        records.push(slice_to_vec(s));
        g = g + 1;
    }
    proof {
        assert forall|k: int| 0 <= k < records@.len() implies records.deep_view()[k]
            == sliced_records(glyf@, loca@)->Ok_0[k] by {
            assert(records@[k].deep_view() =~= records@[k]@);
        }
        assert(records.deep_view() =~= sliced_records(glyf@, loca@)->Ok_0);
    }
    Ok(records)
}

/// Where the glyph-offset table's content comes from: the conventional
/// table bytes, decoded here under the dependency context, or offsets that
/// a transform-aware read of the codec already decoded.
#[derive(Debug)]
pub enum LocaSource {
    /// The conventional table bytes.
    Raw(Vec<u8>),
    /// Offsets already decoded from a transformed representation; they are
    /// still held to the count and monotonicity invariants here.
    Decoded(Vec<u32>),
}

/// Where the glyph-outline data comes from: the conventional table bytes,
/// sliced here by the offsets, or records that a transform-aware read of
/// the codec already reconstructed.
#[derive(Debug)]
pub enum GlyfSource {
    /// The conventional table bytes.
    Raw(Vec<u8>),
    /// One reconstructed outline record per glyph; their count is still
    /// held to the offset count here.
    Records(Vec<Vec<u8>>),
}

/// The offsets a source must yield: raw bytes are decoded under the
/// context; offsets decoded elsewhere must still number `n + 1` and never
/// decrease, else they are malformed.
pub open spec fn loca_from_source(src: LocaSource, n: int, fmt: int) -> Result<Seq<u32>, ParseError> {
    match src {
        LocaSource::Raw(d) => decoded_loca(d@, n, fmt),
        LocaSource::Decoded(offsets) => if offsets@.len() != n + 1 {
            Err(ParseError::BadValue)
        } else if !monotonic(offsets@) {
            Err(ParseError::BadValue)
        } else {
            Ok(offsets@)
        },
    }
}

/// The records a source must yield for the given offsets: raw bytes are
/// sliced by consecutive offsets; records reconstructed elsewhere must
/// still number one fewer than the offsets, else they are malformed.
pub open spec fn records_from_source(src: GlyfSource, offsets: Seq<u32>) -> Result<
    Seq<Seq<u8>>,
    ParseError,
> {
    match src {
        GlyfSource::Raw(d) => sliced_records(d@, offsets),
        GlyfSource::Records(rs) => if rs.deep_view().len() + 1 == offsets.len() {
            Ok(rs.deep_view())
        } else {
            Err(ParseError::BadValue)
        },
    }
}

/// What the dependent-table chain must yield for a font whose tables are
/// all present: the glyph records, or the first fault the chain hits.
pub open spec fn resolved_chain(fmt: int, n: int, loca: LocaSource, glyf: GlyfSource) -> Result<
    Seq<Seq<u8>>,
    ParseError,
> {
    match loca_from_source(loca, n, fmt) {
        Err(e) => Err(e),
        Ok(offsets) => records_from_source(glyf, offsets),
    }
}

/// Whether a sequence of offsets never decreases.
pub fn check_monotonic(offsets: &Vec<u32>) -> (r: bool)
    ensures
        r == monotonic(offsets@),
{
    let mut i: usize = 1;
    while i < offsets.len()
        invariant
            1 <= i <= offsets@.len() || offsets@.len() == 0,
            forall|k: int| 1 <= k < i ==> offsets@[k - 1] <= #[trigger] offsets@[k],
        decreases offsets@.len() - i,
    {
        if offsets[i - 1] > offsets[i] {
            proof {
                assert(!monotonic(offsets@));
            }
            return false;
        }
        i = i + 1;
    }
    proof {
        lemma_monotonic_from_steps(offsets@);
    }
    true
}

/// Resolves the chain `head` -> `maxp` -> `loca` -> `glyf`: the index
/// format from `head` and the glyph count from `maxp` gate the offsets,
/// which bound the records. Any table missing from the chain is fatal;
/// there is no partial extraction. Offsets and records that the codec
/// decoded from a transformed representation are re-validated against the
/// same invariants.
pub fn resolve_glyf_chain(
    head_loc_format: Option<i16>,
    maxp_num_glyphs: Option<u16>,
    loca: Option<&LocaSource>,
    glyf: Option<&GlyfSource>,
) -> (r: Result<Vec<Vec<u8>>, ParseError>)
    ensures
        head_loc_format is None || maxp_num_glyphs is None || loca is None || glyf is None ==> r
            == Err::<Vec<Vec<u8>>, ParseError>(ParseError::MissingTable),
        head_loc_format is Some && maxp_num_glyphs is Some && loca is Some && glyf is Some ==> {
            let chain = resolved_chain(
                head_loc_format.unwrap() as int,
                maxp_num_glyphs.unwrap() as int,
                *loca.unwrap(),
                *glyf.unwrap(),
            );
            &&& r is Ok <==> chain is Ok
            &&& r is Ok ==> r->Ok_0.deep_view() == chain->Ok_0
            &&& r is Err ==> r == Err::<Vec<Vec<u8>>, ParseError>(chain->Err_0)
        },
{
    broadcast use vstd::std_specs::vec::vec_clone_deep_view_proof;

    let fmt = match head_loc_format {
        Some(f) => f,
        None => {
            return Err(ParseError::MissingTable);
        },
    };
    let n = match maxp_num_glyphs {
        Some(n) => n,
        None => {
            return Err(ParseError::MissingTable);
        },
    };
    let loca_src = match loca {
        Some(src) => src,
        None => {
            return Err(ParseError::MissingTable);
        },
    };
    let glyf_src = match glyf {
        Some(src) => src,
        None => {
            return Err(ParseError::MissingTable);
        },
    };
    let offsets: Vec<u32> = match loca_src {
        LocaSource::Raw(d) => match decode_loca(d.as_slice(), n, fmt) {
            Ok(v) => v,
            Err(e) => {
                return Err(e);
            },
        },
        LocaSource::Decoded(offs) => {
            if offs.len() != n as usize + 1 {
                return Err(ParseError::BadValue);
            }
            if !check_monotonic(offs) {
                return Err(ParseError::BadValue);
            }
            offs.clone()
        },
    };
    match glyf_src {
        GlyfSource::Raw(d) => glyph_records(d.as_slice(), &offsets),
        GlyfSource::Records(rs) => {
            proof {
                assert(offsets@.len() >= 1);
            }
            if rs.len() != offsets.len() - 1 {
                return Err(ParseError::BadValue);
            }
            Ok(rs.clone())
        },
    }
}

/// One entry of a WOFF2 table directory: all tables share one decompressed
/// block, and a transformed table records the length of its transformed
/// representation besides its original length.
#[derive(Clone, Copy, Debug, PartialEq, Eq, Structural)]
pub struct Woff2TableRecord {
    /// The table's four-byte identifier.
    pub tag: u32,
    /// The table's size once reconstructed.
    pub orig_length: u32,
    /// The size of the transformed representation, where the table is
    /// stored transformed.
    pub transform_length: Option<u32>,
}

/// The dependency context a WOFF2 glyph dump needs: the fields other
/// tables contribute, each absent where its table is.
#[derive(Debug)]
pub struct GlyfChain {
    /// The index format from the `head` table.
    pub head_loc_format: Option<i16>,
    /// The glyph count from the `maxp` table.
    pub maxp_num_glyphs: Option<u16>,
    /// The glyph-offset table's content, absent where the table is.
    pub loca: Option<LocaSource>,
    /// The glyph-outline data.
    pub glyf: GlyfSource,
}

/// Finds the first directory record carrying a tag, if any.
pub fn find_table_record(records: &Vec<TableRecord>, tag: u32) -> (r: Option<usize>)
    ensures
        r is Some ==> r->Some_0 < records@.len() && records@[r->Some_0 as int].tag == tag
            && (forall|j: int| 0 <= j < r->Some_0 ==> (#[trigger] records@[j]).tag != tag),
        r is None ==> forall|j: int| 0 <= j < records@.len() ==> (#[trigger] records@[j]).tag
            != tag,
{
    let mut i: usize = 0;
    while i < records.len()
        invariant
            0 <= i <= records@.len(),
            forall|j: int| 0 <= j < i ==> (#[trigger] records@[j]).tag != tag,
        decreases records@.len() - i,
    {
        if records[i].tag == tag {
            return Some(i);
        }
        i = i + 1;
    }
    None
}

} // verus!
