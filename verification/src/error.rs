//! Errors.

use vstd::prelude::*;

verus! {

/// Errors that can occur when parsing OpenType fonts.
#[derive(Clone, Copy, PartialEq, Eq, Debug, Structural)]
pub enum FontError {
    /// A miscellaneous error occurred.
    Failed,
    /// The file ended unexpectedly.
    UnexpectedEof,
    /// There is no font with this index in this font collection.
    FontIndexOutOfBounds,
    /// The file declared that it was in a version of the format we don't support.
    UnsupportedVersion,
    /// The file was of a format we don't support.
    UnknownFormat,
    /// The font had a glyph format we don't support.
    UnsupportedGlyphFormat,
    /// We don't support the declared version of the font's CFF outlines.
    UnsupportedCffVersion,
    /// We don't support the declared version of the font's character map.
    UnsupportedCmapVersion,
    /// The font character map has an unsupported platform/encoding ID.
    UnsupportedCmapEncoding,
    /// The font character map has an unsupported format.
    UnsupportedCmapFormat,
    /// We don't support the declared version of the font header.
    UnsupportedHeadVersion,
    /// We don't support the declared version of the font's horizontal metrics.
    UnsupportedHheaVersion,
    /// We don't support the declared version of the font's OS/2 and Windows table.
    UnsupportedOs2Version,
    /// A required table is missing.
    RequiredTableMissing,
    /// An integer in a CFF DICT was not found.
    CffIntegerNotFound,
    /// The CFF Top DICT was not found.
    CffTopDictNotFound,
    /// A CFF `Offset` value was formatted incorrectly.
    CffBadOffset,
    /// The CFF evaluation stack overflowed.
    CffStackOverflow,
    /// An unimplemented CFF CharString operator was encountered.
    CffUnimplementedOperator,
}

impl FontError {
    /// Maps any error to `UnexpectedEof`; used where a failed read means the data ran out.
    pub fn eof<T>(_e: T) -> (r: FontError)
        ensures
            r == FontError::UnexpectedEof,
    {
        FontError::UnexpectedEof
    }
}

} // verus!
