//! A very basic text shaper for simple needs.
//!
//! Do not use this for international or high-quality text. This shaper does not do kerning,
//! ligation, or advanced typography features (`GSUB`, `GPOS`, text morphing). Consider HarfBuzz or
//! the system shaper instead.

use vstd::prelude::*;

use crate::charmap::{glyph_search, mapped_glyph, mapped_range_contains, mapped_range_wf, mapped_ranges_sorted, GlyphMapping, MappedGlyphRange};
use crate::font::Font;
use crate::otf::hmtx::metrics_spec;

verus! {

/// The position of a glyph after shaping.
#[derive(Clone, Copy, Debug, PartialEq, Eq, Structural)]
pub struct GlyphPos {
    /// The glyph ID to emit.
    pub glyph_id: u16,
    /// The amount to move the cursor forward *after* emitting this glyph.
    pub advance: u16,
}

/// True when `g` is a glyph that looking up codepoint `c` in the mapped ranges `rs` can give,
/// with a missing codepoint giving glyph 0: either the glyph of a range that covers `c`, or 0
/// when (for sorted ranges) no range covers it. For sorted ranges exactly one glyph qualifies.
pub open spec fn shaped_glyph_ok(rs: Seq<MappedGlyphRange>, c: u32, g: u16) -> bool {
    ||| exists|i: int|
        0 <= i < rs.len() && mapped_range_contains(#[trigger] rs[i], c) && g == mapped_glyph(
            rs[i],
            c,
        )
    ||| g == 0 && (mapped_ranges_sorted(rs) ==> forall|i: int|
        0 <= i < rs.len() ==> !mapped_range_contains(#[trigger] rs[i], c))
}

/// The advance of glyph `g` in `font`: the advance width of its horizontal metrics, or 0 when
/// they cannot be read.
pub open spec fn shaped_advance(font: Font, g: u16) -> u16 {
    match metrics_spec(font.hmtx.table.bytes@, font.hhea.number_of_h_metrics, g) {
        Ok(m) => m.advance_width,
        Err(_) => 0,
    }
}

/// Shapes the given Unicode text in the given font, returning the proper position for each glyph:
/// one position per character, in order.
///
/// See the description of this module for caveats.
///
/// For proper operation, the given `glyph_mapping` must include all the glyphs necessary to render
/// the string.
pub fn shape_text(font: &Font, glyph_mapping: &GlyphMapping, string: &str) -> (r: Vec<GlyphPos>)
    requires
        forall|i: int| 0 <= i < glyph_mapping.ranges().len() ==> mapped_range_wf(
            #[trigger] glyph_mapping.ranges()[i],
        ),
    ensures
        r@.len() == string@.len(),
        forall|k: int|
            0 <= k < r@.len() ==> (#[trigger] r@[k]).glyph_id == match glyph_search(
                glyph_mapping.ranges(),
                string@[k] as u32,
                0,
                glyph_mapping.ranges().len() as int,
            ) {
                Some(g) => g,
                None => 0,
            },
        forall|k: int|
            0 <= k < r@.len() ==> shaped_glyph_ok(
                glyph_mapping.ranges(),
                string@[k] as u32,
                (#[trigger] r@[k]).glyph_id,
            ) && r@[k].advance == shaped_advance(*font, r@[k].glyph_id),
{
    let mut positions: Vec<GlyphPos> = Vec::new();
    for ch in it: string.chars()
        invariant
            forall|i: int| 0 <= i < glyph_mapping.ranges().len() ==> mapped_range_wf(
                #[trigger] glyph_mapping.ranges()[i],
            ),
            it.seq() == string@,
            positions@.len() == it.index(),
            forall|k: int|
                0 <= k < positions@.len() ==> (#[trigger] positions@[k]).glyph_id == match glyph_search(
                    glyph_mapping.ranges(),
                    string@[k] as u32,
                    0,
                    glyph_mapping.ranges().len() as int,
                ) {
                    Some(g) => g,
                    None => 0,
                },
            forall|k: int|
                0 <= k < positions@.len() ==> shaped_glyph_ok(
                    glyph_mapping.ranges(),
                    string@[k] as u32,
                    (#[trigger] positions@[k]).glyph_id,
                ) && positions@[k].advance == shaped_advance(*font, positions@[k].glyph_id),
    {
        let glyph_id = match glyph_mapping.glyph_for(ch as u32) {
            Some(g) => g,
            None => 0,
        };
        let advance = match font.metrics_for_glyph(glyph_id) {
            Err(_) => 0,
            Ok(metrics) => metrics.advance_width,
        };
        positions.push(GlyphPos { glyph_id: glyph_id, advance: advance });
    }
    positions
}

} // verus!
