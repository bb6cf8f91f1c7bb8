//! The OS/2 and Windows metrics table (`OS/2`).

use vstd::prelude::*;

use crate::error::FontError;
use crate::otf::FontTable;
use crate::util::{be_i16, be_u16, i16_at, u16_at};

verus! {

#[derive(Clone, Copy, Debug, PartialEq, Eq, Structural)]
pub struct Os2Table {
    pub typo_ascender: i16,
    pub typo_descender: i16,
    pub typo_line_gap: i16,
}

/// Where the typographic line metrics start: version 0 tables lack three of the later
/// fields before them.
pub open spec fn os_2_metrics_offset(version: u16) -> int {
    if version == 0 {
        56
    } else {
        68
    }
}

/// What parsing an `OS/2` table gives: the three typographic line metrics, whose position
/// depends on the version.
pub open spec fn os_2_spec(s: Seq<u8>) -> Result<Os2Table, FontError> {
    if s.len() < 2 {
        Err(FontError::UnexpectedEof)
    } else {
        let at = os_2_metrics_offset(be_u16(s, 0));
        if s.len() < at + 6 {
            Err(FontError::UnexpectedEof)
        } else {
            Ok(
                Os2Table {
                    typo_ascender: be_i16(s, at),
                    typo_descender: be_i16(s, at + 2),
                    typo_line_gap: be_i16(s, at + 4),
                },
            )
        }
    }
}

/// The typographic ascender, descender and line gap of an `OS/2` table are the big-endian words
/// at bytes 68, 70 and 72, or at 56, 58 and 60 in a version 0 table (bytes 0 and 1 zero).
pub proof fn lemma_os_2_fields(s: Seq<u8>)
    ensures
        os_2_spec(s) matches Ok(t) ==> {
            let at: int = if s[0] == 0 && s[1] == 0 { 56 } else { 68 };
            &&& s.len() >= at + 6
            &&& (t.typo_ascender as int - (s[at] as int * 0x100 + s[at + 1] as int)) % 0x1_0000 == 0
            &&& (t.typo_descender as int - (s[at + 2] as int * 0x100 + s[at + 3] as int)) % 0x1_0000 == 0
            &&& (t.typo_line_gap as int - (s[at + 4] as int * 0x100 + s[at + 5] as int)) % 0x1_0000 == 0
        },
        (s.len() >= 74) ==> (os_2_spec(s) is Ok),
{
}

impl Os2Table {
    pub fn new(table: FontTable) -> (r: Result<Os2Table, FontError>)
        ensures
            r == os_2_spec(table.bytes@),
    {
        let bytes = table.bytes;

        // We should be compatible with all versions. If this is greater than version 5, follow
        // Postel's law and hope for the best.
        let version = u16_at(bytes, 0)?;

        // Skip to the line spacing information.
        let at: usize = if version == 0 {
            56
        } else {
            68
        };

        // Read the line spacing information.
        let typo_ascender = i16_at(bytes, at)?;
        let typo_descender = i16_at(bytes, at + 2)?;
        let typo_line_gap = i16_at(bytes, at + 4)?;

        Ok(
            Os2Table {
                typo_ascender: typo_ascender,
                typo_descender: typo_descender,
                typo_line_gap: typo_line_gap,
            },
        )
    }
}

} // verus!
