//! The horizontal metrics table (`hmtx`).
//!
//! The table starts with `number_of_h_metrics` long records (an advance width and a left-side
//! bearing, two bytes each). Glyphs past the last long record share its advance width, and
//! their left-side bearings follow the long records, two bytes each.

use vstd::prelude::*;

use crate::error::FontError;
use crate::otf::hhea::HheaTable;
use crate::otf::FontTable;
use crate::util::{be_i16, be_u16, i16_at, u16_at};

verus! {

/// The horizontal metrics of one glyph.
#[derive(Clone, Copy, Default, Debug, PartialEq, Eq, Structural)]
pub struct HorizontalMetrics {
    /// How far to move the pen after drawing the glyph, in font units.
    pub advance_width: u16,
    /// The left-side bearing, in font units.
    pub lsb: i16,
}

/// The `hmtx` table of a font.
#[derive(Clone, Copy, Debug)]
pub struct HmtxTable<'a> {
    pub table: FontTable<'a>,
}

/// Where the advance width of `glyph_id` is stored, given the number of long records.
pub open spec fn advance_offset(number_of_h_metrics: u16, glyph_id: u16) -> int {
    if glyph_id < number_of_h_metrics {
        4 * glyph_id
    } else {
        4 * (number_of_h_metrics - 1)
    }
}

/// Where the left-side bearing of `glyph_id` is stored, given the number of long records.
pub open spec fn lsb_offset(number_of_h_metrics: u16, glyph_id: u16) -> int {
    if glyph_id < number_of_h_metrics {
        4 * glyph_id + 2
    } else {
        4 * number_of_h_metrics + 2 * (glyph_id - number_of_h_metrics)
    }
}

/// What looking up the metrics of `glyph_id` in the table bytes `s` gives. A table with no
/// long record has no advance width to give: that is `UnexpectedEof`, as is a record past the
/// end of the table.
pub open spec fn metrics_spec(s: Seq<u8>, number_of_h_metrics: u16, glyph_id: u16)
    -> Result<HorizontalMetrics, FontError> {
    if number_of_h_metrics == 0 {
        Err(FontError::UnexpectedEof)
    } else if advance_offset(number_of_h_metrics, glyph_id) + 2 > s.len() || lsb_offset(
        number_of_h_metrics,
        glyph_id,
    ) + 2 > s.len() {
        Err(FontError::UnexpectedEof)
    } else {
        Ok(
            HorizontalMetrics {
                advance_width: be_u16(s, advance_offset(number_of_h_metrics, glyph_id)),
                lsb: be_i16(s, lsb_offset(number_of_h_metrics, glyph_id)),
            },
        )
    }
}

/// The metrics of glyph `g` among `n` long records: for `g < n`, the advance width and the
/// left-side bearing are the big-endian words at bytes `4 * g` and `4 * g + 2`; every later
/// glyph takes the advance width of the last long record and its bearing from the array that
/// follows the records, at byte `4 * n + 2 * (g - n)`. So all glyphs from the last long record on
/// share one advance width.
pub proof fn lemma_metrics_layout(s: Seq<u8>, n: u16, g: u16, h: u16)
    ensures
        metrics_spec(s, n, g) matches Ok(m) ==> {
            let a: int = if g < n { 4 * g } else { 4 * n - 4 };
            let b: int = if g < n { 4 * g + 2 } else { 4 * n + 2 * (g - n) };
            &&& n > 0
            &&& b + 2 <= s.len()
            &&& m.advance_width as int == s[a] as int * 0x100 + s[a + 1] as int
            &&& (m.lsb as int - (s[b] as int * 0x100 + s[b + 1] as int)) % 0x1_0000 == 0
        },
        (n > 0 && g >= n - 1 && h >= n - 1 && metrics_spec(s, n, g) is Ok && metrics_spec(s, n, h) is Ok)
            ==> metrics_spec(s, n, g)->Ok_0.advance_width == metrics_spec(s, n, h)->Ok_0.advance_width,
{
}

impl<'a> HmtxTable<'a> {
    pub fn new(table: FontTable<'a>) -> (r: HmtxTable<'a>)
        ensures
            r.table == table,
    {
        HmtxTable { table: table }
    }

    /// Returns the horizontal metrics for the glyph with the given ID.
    pub fn metrics_for_glyph(&self, hhea_table: &HheaTable, glyph_id: u16)
        -> (r: Result<HorizontalMetrics, FontError>)
        ensures
            r == metrics_spec(self.table.bytes@, hhea_table.number_of_h_metrics, glyph_id),
    {
        let bytes = self.table.bytes;
        let n = hhea_table.number_of_h_metrics;
        if n == 0 {
            return Err(FontError::UnexpectedEof);
        }
        // Read the advance width.
        let advance_width = if glyph_id < n {
            u16_at(bytes, glyph_id as usize * 4)?
        } else {
            u16_at(bytes, (n - 1) as usize * 4)?
        };

        // Read the left-side bearing.
        let lsb = if glyph_id < n {
            i16_at(bytes, glyph_id as usize * 4 + 2)?
        } else {
            i16_at(bytes, n as usize * 4 + (glyph_id - n) as usize * 2)?
        };

        Ok(HorizontalMetrics { advance_width: advance_width, lsb: lsb })
    }
}

} // verus!
