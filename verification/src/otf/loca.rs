//! The index-to-location table (`loca`).

use vstd::prelude::*;

use crate::error::FontError;
use crate::otf::head::HeadTable;
use crate::otf::FontTable;
use crate::util::{be_u16, be_u32, fits, u16_at, u32_at};

verus! {

#[derive(Clone, Copy, Debug)]
pub struct LocaTable<'a> {
    pub table: FontTable<'a>,
}

/// The offset of glyph `k` in the `glyf` table as the `loca` table gives it: short offsets
/// (format 0) are stored halved.
pub open spec fn loca_entry(s: Seq<u8>, format: i16, k: int) -> int {
    if format == 0 {
        be_u16(s, 2 * k) as int * 2
    } else {
        be_u32(s, 4 * k) as int
    }
}

/// The size in bytes of one `loca` entry.
pub open spec fn loca_entry_size(format: i16) -> int {
    if format == 0 {
        2
    } else {
        4
    }
}

/// What `location_of` gives for a glyph: its offset, or `None` when the next entry holds the
/// same offset (the glyph has no outline).
pub open spec fn location_spec(s: Seq<u8>, format: i16, glyph_id: u16) -> Result<
    Option<u32>,
    FontError,
> {
    let size = loca_entry_size(format);
    if format != 0 && format != 1 {
        Err(FontError::UnknownFormat)
    } else if !fits(s, size * glyph_id, size) {
        Err(FontError::UnexpectedEof)
    } else if fits(s, size * (glyph_id + 1), size) && loca_entry(s, format, glyph_id + 1)
        == loca_entry(s, format, glyph_id as int) {
        Ok(None)
    } else {
        Ok(Some(loca_entry(s, format, glyph_id as int) as u32))
    }
}

/// Where glyph `g`'s outline starts in the `glyf` table: with short offsets (format 0), twice the
/// big-endian word at byte `2 * g` of the `loca` table; with long offsets (format 1), the
/// big-endian `u32` at byte `4 * g`. A glyph whose next entry holds the same offset has no
/// outline. Other formats are refused.
pub proof fn lemma_location_layout(s: Seq<u8>, format: i16, g: u16)
    ensures
        (format == 0 && 2 * g + 4 <= s.len()) ==> {
            let here = 2 * (s[2 * g] as int * 0x100 + s[2 * g + 1] as int);
            let next = 2 * (s[2 * g + 2] as int * 0x100 + s[2 * g + 3] as int);
            location_spec(s, format, g) == if here == next {
                Ok::<Option<u32>, FontError>(None)
            } else {
                Ok::<Option<u32>, FontError>(Some(here as u32))
            }
        },
        (format == 1 && 4 * g + 8 <= s.len()) ==> {
            let at = 4 * g;
            let here = s[at] as int * 0x100_0000 + s[at + 1] as int * 0x1_0000 + s[at + 2] as int * 0x100
                + s[at + 3] as int;
            let next = s[at + 4] as int * 0x100_0000 + s[at + 5] as int * 0x1_0000 + s[at + 6] as int
                * 0x100 + s[at + 7] as int;
            location_spec(s, format, g) == if here == next {
                Ok::<Option<u32>, FontError>(None)
            } else {
                Ok::<Option<u32>, FontError>(Some(here as u32))
            }
        },
        (format != 0 && format != 1) ==> location_spec(s, format, g) == Err::<Option<u32>, FontError>(
            FontError::UnknownFormat,
        ),
{
}

impl<'a> LocaTable<'a> {
    pub fn new(loca_table: FontTable<'a>) -> (r: Result<LocaTable<'a>, FontError>)
        ensures
            r matches Ok(t) && t.table == loca_table,
    {
        Ok(LocaTable { table: loca_table })
    }

    /// Returns the offset of a glyph's data in the `glyf` table, or `None` when the glyph has
    /// no outline.
    pub fn location_of(&self, head_table: &HeadTable, glyph_id: u16)
        -> (r: Result<Option<u32>, FontError>)
        ensures
            r == location_spec(self.table.bytes@, head_table.index_to_loc_format, glyph_id),
    {
        let bytes = self.table.bytes;
        match head_table.index_to_loc_format {
            0 => {
                let this_location: u32 = u16_at(bytes, glyph_id as usize * 2)? as u32 * 2;
                match u16_at(bytes, glyph_id as usize * 2 + 2) {
                    Ok(next) if next as u32 * 2 == this_location => Ok(None),
                    _ => Ok(Some(this_location)),
                }
            },
            1 => {
                let this_location: u32 = u32_at(bytes, glyph_id as usize * 4)?;
                match u32_at(bytes, glyph_id as usize * 4 + 4) {
                    Ok(next) if next == this_location => Ok(None),
                    _ => Ok(Some(this_location)),
                }
            },
            _ => Err(FontError::UnknownFormat),
        }
    }
}

} // verus!
