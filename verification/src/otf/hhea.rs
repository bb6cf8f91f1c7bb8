//! The horizontal header table (`hhea`).

use vstd::prelude::*;

use crate::error::FontError;
use crate::otf::FontTable;
use crate::util::{be_i16, be_u16, i16_at, u16_at};

verus! {

#[derive(Clone, Copy, Debug, PartialEq, Eq, Structural)]
pub struct HheaTable {
    pub line_gap: i16,
    pub number_of_h_metrics: u16,
}

/// What parsing an `hhea` table gives: version 1.0, the line gap at byte 8 and the number of
/// horizontal metrics at byte 34.
pub open spec fn hhea_spec(s: Seq<u8>) -> Result<HheaTable, FontError> {
    if s.len() < 4 {
        Err(FontError::UnexpectedEof)
    } else if be_u16(s, 0) != 1 || be_u16(s, 2) != 0 {
        Err(FontError::UnsupportedHheaVersion)
    } else if s.len() < 36 {
        Err(FontError::UnexpectedEof)
    } else {
        Ok(HheaTable { line_gap: be_i16(s, 8), number_of_h_metrics: be_u16(s, 34) })
    }
}

/// An `hhea` table of at least 36 bytes, version 1.0 (bytes 0 to 3 being 0, 1, 0, 0), gives the
/// line gap stored big-endian at bytes 8 and 9 and the number of horizontal metrics at bytes 34
/// and 35. Any other version is refused.
pub proof fn lemma_hhea_fields(s: Seq<u8>)
    ensures
        (s.len() >= 36 && s[0] == 0 && s[1] == 1 && s[2] == 0 && s[3] == 0) ==> (hhea_spec(s) matches Ok(h)
            && h.number_of_h_metrics as int == s[34] as int * 0x100 + s[35] as int && (h.line_gap as int
            == s[8] as int * 0x100 + s[9] as int || h.line_gap as int == s[8] as int * 0x100 + s[9] as int
            - 0x1_0000)),
        (s.len() >= 4 && !(s[0] == 0 && s[1] == 1 && s[2] == 0 && s[3] == 0)) ==> hhea_spec(s)
            == Err::<HheaTable, FontError>(FontError::UnsupportedHheaVersion),
{
}

impl HheaTable {
    pub fn new(table: FontTable) -> (r: Result<HheaTable, FontError>)
        ensures
            r == hhea_spec(table.bytes@),
    {
        let bytes = table.bytes;

        // Check the version.
        let major_version = u16_at(bytes, 0)?;
        let minor_version = u16_at(bytes, 2)?;
        if major_version != 1 || minor_version != 0 {
            return Err(FontError::UnsupportedHheaVersion);
        }

        // Read the height-related metrics (ascender and descender at 4 and 6 are not kept).
        let _ascender = i16_at(bytes, 4)?;
        let _descender = i16_at(bytes, 6)?;
        let line_gap = i16_at(bytes, 8)?;

        // Read the number of `hmtx` entries.
        let number_of_h_metrics = u16_at(bytes, 34)?;

        Ok(HheaTable { line_gap: line_gap, number_of_h_metrics: number_of_h_metrics })
    }
}

} // verus!
