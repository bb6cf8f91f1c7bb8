//! Lists of codepoint-to-glyph runs, as produced by a character map lookup.

use vstd::prelude::*;

pub use crate::charmap::{GlyphRange, GlyphRangeIter, MappedGlyphRange};

use crate::charmap::{
    glyph_ids, glyph_search, lookup_glyph, mapped_glyph, mapped_range_contains, mapped_range_wf, mapped_ranges_sorted,
    mapping_pairs,
};

verus! {

/// A list of mapped glyph ranges.
#[derive(Clone, Debug)]
pub struct GlyphRanges {
    pub ranges: Vec<MappedGlyphRange>,
}

/// The glyph IDs of a list of mapped ranges, range by range.
pub open spec fn glyphs_of(rs: Seq<MappedGlyphRange>) -> Seq<u16>
    decreases rs.len(),
{
    if rs.len() == 0 {
        Seq::empty()
    } else {
        glyphs_of(rs.drop_last()) + glyph_ids(rs.last().glyphs.start, rs.last().glyphs.end)
    }
}

impl GlyphRanges {
    /// Creates an empty list.
    pub fn new() -> (r: GlyphRanges)
        ensures
            r.ranges@ == Seq::<MappedGlyphRange>::empty(),
    {
        GlyphRanges { ranges: Vec::new() }
    }

    /// Returns an iterator over the glyph IDs of every range, range by range.
    pub fn iter(&self) -> (r: GlyphRangesIter)
        ensures
            r.remaining() == glyphs_of(self.ranges@),
    {
        let mut glyphs: Vec<u16> = Vec::new();
        let mut i: usize = 0;
        while i < self.ranges.len()
            invariant
                i <= self.ranges@.len(),
                glyphs@ == glyphs_of(self.ranges@.take(i as int)),
            decreases self.ranges@.len() - i,
        {
            let range = self.ranges[i].glyphs;
            let ghost base = glyphs@;
            if range.start <= range.end {
                let mut g: u32 = range.start as u32;
                while g <= range.end as u32
                    invariant
                        range.start <= g <= range.end as u32 + 1,
                        range.start <= range.end,
                        glyphs@ =~= base + glyph_ids(range.start, range.end).take(g - range.start),
                    decreases range.end as u32 + 1 - g,
                {
                    glyphs.push(g as u16);
                    assert(glyph_ids(range.start, range.end).take(g - range.start + 1) =~= glyph_ids(
                        range.start,
                        range.end,
                    ).take(g - range.start).push(g as u16));
                    g = g + 1;
                }
                assert(glyph_ids(range.start, range.end).take(range.end - range.start + 1) =~= glyph_ids(
                    range.start,
                    range.end,
                ));
            }
            assert(self.ranges@.take(i as int + 1).drop_last() =~= self.ranges@.take(i as int));
            assert(glyphs@ =~= glyphs_of(self.ranges@.take(i as int + 1)));
            i = i + 1;
        }
        assert(self.ranges@.take(self.ranges@.len() as int) =~= self.ranges@);
        GlyphRangesIter { glyphs: glyphs, index: 0 }
    }

    /// Looks up the glyph for a codepoint by binary search over the ranges.
    ///
    /// A `Some` answer always comes from a range that covers the codepoint. When the ranges are
    /// sorted, `None` means that no range covers it.
    pub fn glyph_for(&self, codepoint: u32) -> (r: Option<u16>)
        requires
            forall|i: int| 0 <= i < self.ranges@.len() ==> mapped_range_wf(
                #[trigger] self.ranges@[i],
            ),
        ensures
            r == glyph_search(self.ranges@, codepoint, 0, self.ranges@.len() as int),
            r matches Some(g) ==> exists|i: int|
                0 <= i < self.ranges@.len() && mapped_range_contains(
                    #[trigger] self.ranges@[i],
                    codepoint,
                ) && g == mapped_glyph(self.ranges@[i], codepoint),
            mapped_ranges_sorted(self.ranges@) ==> (r is None <==> forall|i: int|
                0 <= i < self.ranges@.len() ==> !mapped_range_contains(
                    #[trigger] self.ranges@[i],
                    codepoint,
                )),
    {
        lookup_glyph(&self.ranges, codepoint)
    }
}

/// An iterator over the glyph IDs of a list of mapped ranges.
#[derive(Clone)]
pub struct GlyphRangesIter {
    glyphs: Vec<u16>,
    index: usize,
}

impl GlyphRangesIter {
    /// The glyph IDs that this iterator has left to yield, in order.
    pub closed spec fn remaining(&self) -> Seq<u16> {
        if self.index <= self.glyphs@.len() {
            self.glyphs@.skip(self.index as int)
        } else {
            Seq::empty()
        }
    }

    /// Returns the next glyph ID, or `None` once every range is exhausted.
    pub fn next(&mut self) -> (r: Option<u16>)
        ensures
            old(self).remaining().len() == 0 ==> r is None && final(self).remaining().len() == 0,
            old(self).remaining().len() > 0 ==> r == Some(old(self).remaining()[0])
                && final(self).remaining() == old(self).remaining().drop_first(),
    {
        if self.index >= self.glyphs.len() {
            None
        } else {
            let item = self.glyphs[self.index];
            self.index = self.index + 1;
            assert(self.remaining() =~= old(self).remaining().drop_first());
            Some(item)
        }
    }
}

} // verus!
