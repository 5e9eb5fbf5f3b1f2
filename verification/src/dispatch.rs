//! Classifying a byte buffer into one of the four font container formats,
//! going by the outer signature alone.
use vstd::prelude::*;
use crate::ParseError;

verus! {

/// The big-endian value of two consecutive bytes.
pub open spec fn be_u16_at(d: Seq<u8>, i: int) -> int
    recommends
        0 <= i,
        i + 2 <= d.len(),
{
    d[i] * 0x100 + d[i + 1]
}

/// The big-endian value of four consecutive bytes.
pub open spec fn be_u32_at(d: Seq<u8>, i: int) -> int
    recommends
        0 <= i,
        i + 4 <= d.len(),
{
    ((d[i] * 0x100 + d[i + 1]) * 0x100 + d[i + 2]) * 0x100 + d[i + 3]
}

/// Reads two bytes big-endian.
pub fn read_be_u16(d: &[u8], i: usize) -> (r: u16)
    requires
        i + 2 <= d@.len(),
    ensures
        r == be_u16_at(d@, i as int),
{
    (d[i] as u16) * 0x100 + (d[i + 1] as u16)
}

/// Reads four bytes big-endian.
pub fn read_be_u32(d: &[u8], i: usize) -> (r: u32)
    requires
        i + 4 <= d@.len(),
    ensures
        r == be_u32_at(d@, i as int),
{
    (((d[i] as u32) * 0x100 + (d[i + 1] as u32)) * 0x100 + (d[i + 2] as u32)) * 0x100 + (d[i
        + 3] as u32)
}

/// The four container formats a buffer can hold.
#[derive(Clone, Copy, Debug, PartialEq, Eq, Structural)]
pub enum FontKind {
    /// One font with a single table directory.
    SingleFont,
    /// A collection of fonts sharing one file.
    Collection,
    /// A WOFF container: per-table compression around one font.
    Woff,
    /// A WOFF2 container: one compressed block holding all tables.
    Woff2,
}

/// The signature of a single font, version 1.0.
pub const MAGIC_TRUETYPE: u32 = 0x00010000;

/// The signature `OTTO` of a single font with CFF outlines.
pub const MAGIC_OTTO: u32 = 0x4F54544F;

/// The signature `ttcf` of a font collection.
pub const MAGIC_TTCF: u32 = 0x74746366;

/// The signature `wOFF` of a WOFF container.
pub const MAGIC_WOFF: u32 = 0x774F4646;

/// The signature `wOF2` of a WOFF2 container.
pub const MAGIC_WOFF2: u32 = 0x774F4632;

/// What classifying a buffer must yield: the container kind its signature
/// names; a truncated header or an unknown signature is a fault.
pub open spec fn classified(d: Seq<u8>) -> Result<FontKind, ParseError> {
    if d.len() < 4 {
        Err(ParseError::BadEof)
    } else {
        let m = be_u32_at(d, 0);
        if m == MAGIC_TRUETYPE || m == MAGIC_OTTO {
            Ok(FontKind::SingleFont)
        } else if m == MAGIC_TTCF {
            Ok(FontKind::Collection)
        } else if m == MAGIC_WOFF {
            Ok(FontKind::Woff)
        } else if m == MAGIC_WOFF2 {
            Ok(FontKind::Woff2)
        } else {
            Err(ParseError::BadVersion)
        }
    }
}

/// Classifies a buffer by its outer signature alone: exactly one of the
/// four container kinds, or a fault for a truncated or unrecognised header.
pub fn classify(d: &[u8]) -> (r: Result<FontKind, ParseError>)
    ensures
        r == classified(d@),
{
    if d.len() < 4 {
        return Err(ParseError::BadEof);
    }
    let m = read_be_u32(d, 0);
    if m == MAGIC_TRUETYPE || m == MAGIC_OTTO {
        Ok(FontKind::SingleFont)
    } else if m == MAGIC_TTCF {
        Ok(FontKind::Collection)
    } else if m == MAGIC_WOFF {
        Ok(FontKind::Woff)
    } else if m == MAGIC_WOFF2 {
        Ok(FontKind::Woff2)
    } else {
        Err(ParseError::BadVersion)
    }
}

} // verus!
