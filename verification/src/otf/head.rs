//! The font header table (`head`).

use vstd::prelude::*;

use crate::error::FontError;
use crate::otf::FontTable;
use crate::util::{be_i16, be_u16, be_u32, i16_at, u16_at, u32_at};

verus! {

pub const MAGIC_NUMBER: u32 = 0x5f0f3cf5;

#[derive(Clone, Copy, Debug, PartialEq, Eq, Structural)]
pub struct HeadTable {
    pub units_per_em: u16,
    pub index_to_loc_format: i16,
}

/// What parsing a `head` table gives: version 1.0, the magic number at byte 12, units per em
/// at byte 18, the `loca` format at byte 50 and a glyph data format of 0 at byte 52.
pub open spec fn head_spec(s: Seq<u8>) -> Result<HeadTable, FontError> {
    if s.len() < 4 {
        Err(FontError::UnexpectedEof)
    } else if be_u16(s, 0) != 1 || be_u16(s, 2) != 0 {
        Err(FontError::UnsupportedHeadVersion)
    } else if s.len() < 16 {
        Err(FontError::UnexpectedEof)
    } else if be_u32(s, 12) != MAGIC_NUMBER {
        Err(FontError::UnknownFormat)
    } else if s.len() < 54 {
        Err(FontError::UnexpectedEof)
    } else if be_i16(s, 52) != 0 {
        Err(FontError::UnsupportedGlyphFormat)
    } else {
        Ok(HeadTable { units_per_em: be_u16(s, 18), index_to_loc_format: be_i16(s, 50) })
    }
}

/// A `head` table of at least 54 bytes, version 1.0 (bytes 0 to 3 being 0, 1, 0, 0), with the
/// magic number 0x5F0F3CF5 at byte 12 and glyph data format 0 (bytes 52 and 53 zero), gives the
/// units per em stored big-endian at bytes 18 and 19 and the `loca` format stored at bytes 50
/// and 51. Any other version is refused.
pub proof fn lemma_head_fields(s: Seq<u8>)
    ensures
        (s.len() >= 54 && s[0] == 0 && s[1] == 1 && s[2] == 0 && s[3] == 0 && s[12] == 0x5f && s[13]
            == 0x0f && s[14] == 0x3c && s[15] == 0xf5 && s[52] == 0 && s[53] == 0) ==> (head_spec(s) matches Ok(h)
            && h.units_per_em as int == s[18] as int * 0x100 + s[19] as int && (h.index_to_loc_format as int
            == s[50] as int * 0x100 + s[51] as int || h.index_to_loc_format as int == s[50] as int * 0x100
            + s[51] as int - 0x1_0000)),
        (s.len() >= 4 && !(s[0] == 0 && s[1] == 1 && s[2] == 0 && s[3] == 0)) ==> head_spec(s)
            == Err::<HeadTable, FontError>(FontError::UnsupportedHeadVersion),
{
}

impl HeadTable {
    pub fn new(table: FontTable) -> (r: Result<HeadTable, FontError>)
        ensures
            r == head_spec(table.bytes@),
    {
        let bytes = table.bytes;

        // Check the version.
        let major_version = u16_at(bytes, 0)?;
        let minor_version = u16_at(bytes, 2)?;
        if major_version != 1 || minor_version != 0 {
            return Err(FontError::UnsupportedHeadVersion);
        }

        // Check the magic number.
        let magic_number = u32_at(bytes, 12)?;
        if magic_number != MAGIC_NUMBER {
            return Err(FontError::UnknownFormat);
        }

        // Read the units per em.
        let units_per_em = u16_at(bytes, 18)?;

        // Read the index-to-location format.
        let index_to_loc_format = i16_at(bytes, 50)?;

        // Check the glyph data format.
        let glyph_data_format = i16_at(bytes, 52)?;
        if glyph_data_format != 0 {
            return Err(FontError::UnsupportedGlyphFormat);
        }

        Ok(HeadTable { units_per_em: units_per_em, index_to_loc_format: index_to_loc_format })
    }
}

} // verus!
