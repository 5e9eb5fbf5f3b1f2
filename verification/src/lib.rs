//! Inspection of font container files: classifying a byte buffer into one of
//! four container formats, resolving table directories and the dependent
//! `head` -> `maxp` -> `loca` -> `glyf` chain, decoding name records, and
//! driving a minimal text-shaping pipeline.
use vstd::prelude::*;

pub mod dispatch;
pub mod dump;
pub mod name;
pub mod render;
pub mod shape;
pub mod tables;
pub mod tag;

verus! {

/// A fault found while interpreting font data.
#[derive(Clone, Copy, Debug, PartialEq, Eq, Structural)]
pub enum ParseError {
    /// The data ended before a complete value could be read.
    BadEof,
    /// A value was out of range or otherwise malformed.
    BadValue,
    /// A container signature or version was not recognised.
    BadVersion,
    /// A table that the operation cannot do without is absent.
    MissingTable,
}

} // verus!
