//! A font's mapping from Unicode codepoints (characters) to glyphs.
//!
//! Consulting this table is typically the first step when rendering some text.

use vstd::prelude::*;

verus! {

/// A consecutive series of Unicode codepoints.
#[derive(Clone, Copy, Debug, PartialEq, Eq, Structural)]
pub struct CodepointRange {
    /// The starting code point, inclusive.
    pub start: u32,
    /// The ending code point, *inclusive*.
    pub end: u32,
}

/// A collection of Unicode codepoints, organized into consecutive series.
#[derive(Clone, Debug)]
pub struct CodepointRanges {
    /// Consecutive series of codepoints.
    pub ranges: Vec<CodepointRange>,
}

impl CodepointRange {
    /// Creates a new codepoint range from the given start and end codepoints, *inclusive*.
    pub fn new(start: u32, end: u32) -> (r: CodepointRange)
        ensures
            r.start == start,
            r.end == end,
    {
        CodepointRange { start: start, end: end }
    }

    /// Returns an iterator that iterates over all codepoints in this range.
    pub fn iter(&self) -> (r: CodepointRangeIter)
        ensures
            r.remaining() == range_codepoints(self.start, self.end),
    {
        CodepointRangeIter { start: self.start, end: self.end }
    }
}

/// The codepoints of a range, in order.
pub open spec fn range_codepoints(start: u32, end: u32) -> Seq<u32> {
    if start <= end {
        Seq::new((end - start + 1) as nat, |k: int| (start + k) as u32)
    } else {
        Seq::empty()
    }
}

/// One step of folding a character into a list of codepoint ranges: a repeat of the last
/// codepoint is dropped, a codepoint one past the end of the last range extends it, and any
/// other codepoint starts a new range.
pub open spec fn push_char(ranges: Seq<CodepointRange>, c: u32) -> Seq<CodepointRange> {
    if ranges.len() > 0 && ranges.last().end == c {
        ranges
    } else if ranges.len() > 0 && ranges.last().end as int + 1 == c as int {
        ranges.update(ranges.len() - 1, CodepointRange { start: ranges.last().start, end: c })
    } else {
        ranges.push(CodepointRange { start: c, end: c })
    }
}

/// The ranges that `from_sorted_chars` builds from a sequence of codepoints.
pub open spec fn ranges_of_chars(chars: Seq<u32>) -> Seq<CodepointRange>
    decreases chars.len(),
{
    if chars.len() == 0 {
        Seq::empty()
    } else {
        push_char(ranges_of_chars(chars.drop_last()), chars.last())
    }
}

/// The codepoints of a character sequence.
pub open spec fn codepoints_of(chars: Seq<char>) -> Seq<u32> {
    chars.map_values(|c: char| c as u32)
}

/// True when a sequence of codepoints is in non-decreasing order.
pub open spec fn is_sorted(s: Seq<u32>) -> bool {
    forall|i: int, j: int| 0 <= i <= j < s.len() ==> s[i] <= s[j]
}

/// True when a range list is made of non-empty ranges, each starting at least two past the
/// end of the one before: no codepoint is covered twice and no two ranges could be merged.
pub open spec fn ranges_well_separated(rs: Seq<CodepointRange>) -> bool {
    &&& forall|i: int| 0 <= i < rs.len() ==> #[trigger] rs[i].start <= rs[i].end
    &&& forall|i: int, j: int|
        0 <= i < j < rs.len() ==> #[trigger] rs[i].end as int + 1 < #[trigger] rs[j].start as int
}

/// True when some range of the list covers codepoint `c`.
pub open spec fn ranges_cover(rs: Seq<CodepointRange>, c: u32) -> bool {
    exists|i: int| 0 <= i < rs.len() && #[trigger] rs[i].start <= c && c <= rs[i].end
}

impl CodepointRanges {
    /// Creates codepoint ranges from a sorted array of characters, collapsing duplicates.
    ///
    /// This is useful when creating an atlas from a string. The array can be readily produced with
    /// an expression like `"Hello world".chars().collect()`.
    pub fn from_sorted_chars(chars: &[char]) -> (r: CodepointRanges)
        ensures
            r.ranges@ == ranges_of_chars(codepoints_of(chars@)),
    {
        let mut ranges: Vec<CodepointRange> = Vec::new();
        let mut i: usize = 0;
        while i < chars.len()
            invariant
                i <= chars.len(),
                ranges@ == ranges_of_chars(codepoints_of(chars@).take(i as int)),
            decreases chars.len() - i,
        {
            let c: u32 = chars[i] as u32;
            let ghost cps = codepoints_of(chars@);
            assert(cps.take(i as int + 1).drop_last() =~= cps.take(i as int));
            assert(cps.take(i as int + 1).last() == c);
            let n = ranges.len();
            if n > 0 && ranges[n - 1].end == c {
            } else if n > 0 && ranges[n - 1].end < c && c - ranges[n - 1].end == 1 {
                let last = ranges[n - 1];
                ranges.set(n - 1, CodepointRange { start: last.start, end: c });
            } else {
                ranges.push(CodepointRange::new(c, c));
            }
            i = i + 1;
        }
        assert(codepoints_of(chars@).take(chars@.len() as int) =~= codepoints_of(chars@));
        CodepointRanges { ranges: ranges }
    }
}

/// For sorted input, `from_sorted_chars` covers exactly the given codepoints, with ranges
/// that are non-empty, in increasing order, and separated by at least one missing codepoint.
pub proof fn lemma_from_sorted_chars_exact(chars: Seq<u32>)
    requires
        is_sorted(chars),
    ensures
        ranges_well_separated(ranges_of_chars(chars)),
        forall|c: u32| ranges_cover(ranges_of_chars(chars), c) <==> chars.contains(c),
        chars.len() > 0 ==> ranges_of_chars(chars).last().end == chars.last(),
    decreases chars.len(),
{
    if chars.len() > 0 {
        let prev = chars.drop_last();
        let c = chars.last();
        assert(is_sorted(prev));
        lemma_from_sorted_chars_exact(prev);
        let rs = ranges_of_chars(prev);
        let out = ranges_of_chars(chars);
        assert(out == push_char(rs, c));
        if prev.len() > 0 {
            assert(prev.last() == chars[chars.len() - 2]);
            assert(rs.last().end <= c);
        }
        assert forall|x: u32| ranges_cover(out, x) <==> chars.contains(x) by {
            if ranges_cover(out, x) {
                let i = choose|i: int| 0 <= i < out.len() && #[trigger] out[i].start <= x && x
                    <= out[i].end;
                if x == c {
                    assert(chars[chars.len() - 1] == x);
                } else if rs.len() > 0 && rs.last().end as int + 1 == c as int && i == rs.len()
                    - 1 {
                    if x <= rs[i].end {
                        assert(ranges_cover(rs, x));
                        assert(prev.contains(x));
                        let k = choose|k: int| 0 <= k < prev.len() && prev[k] == x;
                        assert(chars[k] == x);
                    }
                } else {
                    assert(i < rs.len());
                    assert(out[i] == rs[i]);
                    assert(ranges_cover(rs, x));
                    assert(prev.contains(x));
                    let k = choose|k: int| 0 <= k < prev.len() && prev[k] == x;
                    assert(chars[k] == x);
                }
            }
            if chars.contains(x) {
                let k = choose|k: int| 0 <= k < chars.len() && chars[k] == x;
                if k == chars.len() - 1 {
                    assert(x == c);
                    if rs.len() > 0 && rs.last().end == c {
                        assert(out[out.len() - 1].start <= x && x <= out[out.len() - 1].end);
                    } else {
                        assert(out[out.len() - 1].start <= x && x <= out[out.len() - 1].end);
                    }
                } else {
                    assert(prev[k] == x);
                    assert(prev.contains(x));
                    assert(ranges_cover(rs, x));
                    let i = choose|i: int| 0 <= i < rs.len() && #[trigger] rs[i].start <= x && x
                        <= rs[i].end;
                    if rs.len() > 0 && rs.last().end != c && rs.last().end as int + 1 == c as int
                        && i == rs.len() - 1 {
                        assert(out[i].start <= x && x <= out[i].end);
                    } else {
                        assert(out[i] == rs[i]);
                        assert(out[i].start <= x && x <= out[i].end);
                    }
                }
            }
        }
    }
}

/// An iterator over all codepoints in a range.
pub struct CodepointRangeIter {
    start: u32,
    end: u32,
}

impl CodepointRangeIter {
    /// The codepoints that this iterator has left to yield, in order.
    pub closed spec fn remaining(&self) -> Seq<u32> {
        range_codepoints(self.start, self.end)
    }

    /// Returns the next codepoint, or `None` once the range is exhausted.
    pub fn next(&mut self) -> (r: Option<u32>)
        requires
            old(self).remaining().len() == 0 || old(self).remaining()[0] < u32::MAX,
        ensures
            old(self).remaining().len() == 0 ==> r is None && final(self).remaining().len() == 0,
            old(self).remaining().len() > 0 ==> r == Some(old(self).remaining()[0])
                && final(self).remaining() == old(self).remaining().drop_first(),
    {
        if self.start > self.end {
            None
        } else {
            let item = self.start;
            self.start = self.start + 1;
            assert(self.remaining() =~= old(self).remaining().drop_first());
            Some(item)
        }
    }
}

/// A consecutive series of glyph IDs.
#[derive(Clone, Copy, Debug, PartialEq, Eq, Structural)]
pub struct GlyphRange {
    /// The starting glyph ID in the range, inclusive.
    pub start: u16,
    /// The ending glyph ID in the range, *inclusive*.
    pub end: u16,
}

/// A run of consecutive codepoints mapped to a run of consecutive glyphs.
#[derive(Clone, Copy, Debug, PartialEq, Eq, Structural)]
pub struct MappedGlyphRange {
    pub codepoint_start: u32,
    pub glyphs: GlyphRange,
}

/// A map from Unicode codepoints to glyph IDs.
#[derive(Clone, Debug)]
pub struct GlyphMapping {
    ranges: Vec<MappedGlyphRange>,
}

impl GlyphRange {
    /// Returns an iterator over every glyph in this range.
    pub fn iter(&self) -> (r: GlyphRangeIter)
        ensures
            r.remaining() == glyph_ids(self.start, self.end),
    {
        GlyphRangeIter { start: self.start, end: self.end }
    }
}

/// The glyph IDs of an inclusive range, in order.
pub open spec fn glyph_ids(start: u16, end: u16) -> Seq<u16> {
    if start <= end {
        Seq::new((end - start + 1) as nat, |k: int| (start + k) as u16)
    } else {
        Seq::empty()
    }
}

/// The last codepoint (inclusive) of a mapped range.
pub open spec fn codepoint_end_of(r: MappedGlyphRange) -> int {
    r.codepoint_start + r.glyphs.end - r.glyphs.start
}

/// A mapped range whose glyph run is non-empty and whose codepoint run ends within `u32`.
pub open spec fn mapped_range_wf(r: MappedGlyphRange) -> bool {
    r.glyphs.start <= r.glyphs.end && codepoint_end_of(r) <= u32::MAX
}

/// True when the mapped range covers codepoint `c`.
pub open spec fn mapped_range_contains(r: MappedGlyphRange, c: u32) -> bool {
    r.codepoint_start <= c && c <= codepoint_end_of(r)
}

/// The glyph that a mapped range gives codepoint `c`.
pub open spec fn mapped_glyph(r: MappedGlyphRange, c: u32) -> u16 {
    (r.glyphs.start + (c - r.codepoint_start)) as u16
}

/// True when every range of the list ends before the next one starts.
pub open spec fn mapped_ranges_sorted(rs: Seq<MappedGlyphRange>) -> bool {
    forall|i: int, j: int| 0 <= i < j < rs.len() ==> codepoint_end_of(rs[i]) < rs[j].codepoint_start
}

/// The (codepoint, glyph) pairs of one mapped range, in order.
pub open spec fn mapped_range_pairs(r: MappedGlyphRange) -> Seq<(u32, u16)> {
    Seq::new(
        (r.glyphs.end - r.glyphs.start + 1) as nat,
        |k: int| ((r.codepoint_start + k) as u32, (r.glyphs.start + k) as u16),
    )
}

/// The (codepoint, glyph) pairs of a list of mapped ranges, range by range.
pub open spec fn mapping_pairs(rs: Seq<MappedGlyphRange>) -> Seq<(u32, u16)>
    decreases rs.len(),
{
    if rs.len() == 0 {
        Seq::empty()
    } else {
        mapping_pairs(rs.drop_last()) + mapped_range_pairs(rs.last())
    }
}

impl GlyphMapping {
    /// The mapped ranges, in the order they were pushed.
    pub closed spec fn ranges(&self) -> Seq<MappedGlyphRange> {
        self.ranges@
    }

    /// Creates an empty mapping.
    pub fn new() -> (r: GlyphMapping)
        ensures
            r.ranges() == Seq::<MappedGlyphRange>::empty(),
    {
        GlyphMapping { ranges: Vec::new() }
    }

    /// Appends a mapped range.
    pub fn push(&mut self, range: MappedGlyphRange)
        ensures
            final(self).ranges() == old(self).ranges().push(range),
    {
        self.ranges.push(range)
    }

    /// Returns an iterator over the (codepoint, glyph ID) pairs of this mapping, range by
    /// range.
    pub fn iter(&self) -> (r: GlyphMappingIter)
        requires
            forall|i: int| 0 <= i < self.ranges().len() ==> mapped_range_wf(
                #[trigger] self.ranges()[i],
            ),
        ensures
            r.remaining() == mapping_pairs(self.ranges()),
    {
        assert(self.ranges@ == self.ranges());
        GlyphMappingIter { pairs: pairs_of_ranges(&self.ranges), index: 0 }
    }

    /// Whether every range has a non-empty glyph run whose codepoints fit in a `u32`, as
    /// lookups need.
    pub fn ranges_well_formed(&self) -> (r: bool)
        ensures
            r == forall|i: int| 0 <= i < self.ranges().len() ==> mapped_range_wf(
                #[trigger] self.ranges()[i],
            ),
    {
        let mut i: usize = 0;
        while i < self.ranges.len()
            invariant
                i <= self.ranges@.len(),
                forall|j: int| 0 <= j < i ==> mapped_range_wf(#[trigger] self.ranges@[j]),
            decreases self.ranges@.len() - i,
        {
            assert(self.ranges() == self.ranges@);
            let r = self.ranges[i];
            if r.glyphs.start > r.glyphs.end || r.codepoint_start as u64 + (r.glyphs.end
                - r.glyphs.start) as u64 > 0xffff_ffff {
                assert(!mapped_range_wf(self.ranges()[i as int]));
                return false;
            }
            i = i + 1;
        }
        true
    }

    /// Looks up the glyph for a codepoint by binary search over the ranges.
    ///
    /// A `Some` answer always comes from a range that covers the codepoint. When the ranges are
    /// sorted (as those built from a character map are), `None` means that no range covers it.
    pub fn glyph_for(&self, codepoint: u32) -> (r: Option<u16>)
        requires
            forall|i: int| 0 <= i < self.ranges().len() ==> mapped_range_wf(
                #[trigger] self.ranges()[i],
            ),
        ensures
            r == glyph_search(self.ranges(), codepoint, 0, self.ranges().len() as int),
            r matches Some(g) ==> exists|i: int|
                0 <= i < self.ranges().len() && mapped_range_contains(#[trigger] self.ranges()[i], codepoint)
                    && g == mapped_glyph(self.ranges()[i], codepoint),
            mapped_ranges_sorted(self.ranges()) ==> (r is None <==> forall|i: int|
                0 <= i < self.ranges().len() ==> !mapped_range_contains(
                    #[trigger] self.ranges()[i],
                    codepoint,
                )),
    {
        assert(self.ranges@ == self.ranges());
        lookup_glyph(&self.ranges, codepoint)
    }
}

/// Returns an iterator over the (codepoint, glyph ID) pairs of this mapping, range by
/// range.
pub(crate) fn pairs_of_ranges(ranges: &Vec<MappedGlyphRange>) -> (r: Vec<(u32, u16)>)
    requires
        forall|i: int| 0 <= i < ranges@.len() ==> mapped_range_wf(#[trigger] ranges@[i]),
    ensures
        r@ == mapping_pairs(ranges@),
{
    let mut pairs: Vec<(u32, u16)> = Vec::new();
    let mut i: usize = 0;
    while i < ranges.len()
        invariant
            i <= ranges@.len(),
            forall|j: int| 0 <= j < ranges@.len() ==> mapped_range_wf(
                #[trigger] ranges@[j],
            ),
            pairs@ == mapping_pairs(ranges@.take(i as int)),
        decreases ranges@.len() - i,
    {
        let r = ranges[i];
        assert(mapped_range_wf(ranges@[i as int]));
        let ghost base = pairs@;
        let n: u32 = (r.glyphs.end - r.glyphs.start) as u32 + 1;
        let mut k: u32 = 0;
        while k < n
            invariant
                mapped_range_wf(r),
                n == r.glyphs.end - r.glyphs.start + 1,
                k <= n,
                pairs@ == base + mapped_range_pairs(r).take(k as int),
            decreases n - k,
        {
            pairs.push((r.codepoint_start + k, (r.glyphs.start as u32 + k) as u16));
            assert(pairs@ =~= base + mapped_range_pairs(r).take(k as int + 1));
            k = k + 1;
        }
        assert(mapped_range_pairs(r).take(n as int) =~= mapped_range_pairs(r));
        let ghost t = ranges@.take(i as int + 1);
        assert(t.drop_last() =~= ranges@.take(i as int));
        assert(t.last() == r);
        assert(mapping_pairs(t) == mapping_pairs(t.drop_last()) + mapped_range_pairs(t.last()));
        i = i + 1;
    }
    assert(ranges@.take(ranges@.len() as int) =~= ranges@);
    pairs
}

/// The binary search for codepoint `c` among the ranges `low` to `high - 1`: the glyph that
/// the range it lands on gives `c`, or `None` when the search runs out.
pub open spec fn glyph_search(rs: Seq<MappedGlyphRange>, c: u32, low: int, high: int) -> Option<u16>
    decreases high - low,
{
    if low >= high {
        None
    } else {
        let mid = (low + high) / 2;
        if c < rs[mid].codepoint_start {
            glyph_search(rs, c, low, mid)
        } else if c > codepoint_end_of(rs[mid]) {
            glyph_search(rs, c, mid + 1, high)
        } else {
            Some(mapped_glyph(rs[mid], c))
        }
    }
}

/// Looks up the glyph for a codepoint by binary search over the ranges.
///
/// A `Some` answer always comes from a range that covers the codepoint. When the ranges are
/// sorted (as those built from a character map are), `None` means that no range covers it.
pub(crate) fn lookup_glyph(ranges: &Vec<MappedGlyphRange>, codepoint: u32) -> (r: Option<u16>)
    requires
        forall|i: int| 0 <= i < ranges@.len() ==> mapped_range_wf(#[trigger] ranges@[i]),
    ensures
        r == glyph_search(ranges@, codepoint, 0, ranges@.len() as int),
        r matches Some(g) ==> exists|i: int|
            0 <= i < ranges@.len() && mapped_range_contains(#[trigger] ranges@[i], codepoint)
                && g == mapped_glyph(ranges@[i], codepoint),
        mapped_ranges_sorted(ranges@) ==> (r is None <==> forall|i: int|
            0 <= i < ranges@.len() ==> !mapped_range_contains(#[trigger] ranges@[i], codepoint)),
{
    let mut lo: usize = 0;
    let mut hi: usize = ranges.len();
    while lo < hi
        invariant
            lo <= hi <= ranges@.len(),
            forall|i: int| 0 <= i < ranges@.len() ==> mapped_range_wf(
                #[trigger] ranges@[i],
            ),
            glyph_search(ranges@, codepoint, lo as int, hi as int) == glyph_search(
                ranges@,
                codepoint,
                0,
                ranges@.len() as int,
            ),
            mapped_ranges_sorted(ranges@) ==> forall|i: int|
                0 <= i < ranges@.len() && (i < lo || i >= hi) ==> !mapped_range_contains(
                    #[trigger] ranges@[i],
                    codepoint,
                ),
        decreases hi - lo,
    {
        let mid = lo + (hi - lo) / 2;
        assert(mid as int == (lo as int + hi as int) / 2);
        let r = ranges[mid];
        assert(mapped_range_wf(ranges@[mid as int]));
        if codepoint < r.codepoint_start {
            assert(mapped_ranges_sorted(ranges@) ==> forall|i: int|
                mid <= i < ranges@.len() ==> !mapped_range_contains(
                    #[trigger] ranges@[i],
                    codepoint,
                )) by {
                if mapped_ranges_sorted(ranges@) {
                    assert forall|i: int| mid <= i < ranges@.len() implies !mapped_range_contains(
                        #[trigger] ranges@[i],
                        codepoint,
                    ) by {
                        if i > mid {
                            assert(codepoint_end_of(ranges@[mid as int])
                                < ranges@[i].codepoint_start);
                        }
                    }
                }
            }
            hi = mid;
        } else if codepoint > r.codepoint_end() {
            assert(mapped_ranges_sorted(ranges@) ==> forall|i: int|
                0 <= i <= mid ==> !mapped_range_contains(#[trigger] ranges@[i], codepoint))
                by {
                if mapped_ranges_sorted(ranges@) {
                    assert forall|i: int| 0 <= i <= mid implies !mapped_range_contains(
                        #[trigger] ranges@[i],
                        codepoint,
                    ) by {
                        if i < mid {
                            assert(codepoint_end_of(ranges@[i])
                                < ranges@[mid as int].codepoint_start);
                            assert(mapped_range_wf(ranges@[i]));
                        }
                    }
                }
            }
            lo = mid + 1;
        } else {
            let g: u16 = (codepoint - r.codepoint_start) as u16 + r.glyphs.start;
            assert(mapped_range_contains(ranges@[mid as int], codepoint));
            assert(g == mapped_glyph(ranges@[mid as int], codepoint));
            return Some(g);
        }
    }
    None
}

/// An iterator over the glyph IDs of a range.
#[derive(Clone)]
pub struct GlyphRangeIter {
    start: u16,
    end: u16,
}

impl GlyphRangeIter {
    /// The glyph IDs that this iterator has left to yield, in order.
    pub closed spec fn remaining(&self) -> Seq<u16> {
        glyph_ids(self.start, self.end)
    }

    /// Returns the next glyph ID, or `None` once the range is exhausted.
    pub fn next(&mut self) -> (r: Option<u16>)
        requires
            old(self).remaining().len() == 0 || old(self).remaining()[0] < u16::MAX,
        ensures
            old(self).remaining().len() == 0 ==> r is None && final(self).remaining().len() == 0,
            old(self).remaining().len() > 0 ==> r == Some(old(self).remaining()[0])
                && final(self).remaining() == old(self).remaining().drop_first(),
    {
        if self.start > self.end {
            None
        } else {
            let item = self.start;
            self.start = self.start + 1;
            assert(self.remaining() =~= old(self).remaining().drop_first());
            Some(item)
        }
    }
}

/// An iterator over the codepoint-to-glyph mapping.
///
/// Every call to `next()` returns a tuple consisting of the codepoint and glyph ID, in that order.
#[derive(Clone)]
pub struct GlyphMappingIter {
    pairs: Vec<(u32, u16)>,
    index: usize,
}

impl GlyphMappingIter {
    /// The pairs that this iterator has left to yield, in order.
    pub closed spec fn remaining(&self) -> Seq<(u32, u16)> {
        if self.index <= self.pairs@.len() {
            self.pairs@.skip(self.index as int)
        } else {
            Seq::empty()
        }
    }

    /// Returns the next (codepoint, glyph ID) pair, or `None` once the mapping is exhausted.
    pub fn next(&mut self) -> (r: Option<(u32, u16)>)
        ensures
            old(self).remaining().len() == 0 ==> r is None && final(self).remaining().len() == 0,
            old(self).remaining().len() > 0 ==> r == Some(old(self).remaining()[0])
                && final(self).remaining() == old(self).remaining().drop_first(),
    {
        if self.index >= self.pairs.len() {
            None
        } else {
            let item = self.pairs[self.index];
            self.index = self.index + 1;
            assert(self.remaining() =~= old(self).remaining().drop_first());
            Some(item)
        }
    }
}

impl MappedGlyphRange {
    /// The last codepoint of this range, inclusive.
    pub fn codepoint_end(&self) -> (r: u32)
        requires
            self.glyphs.start <= self.glyphs.end,
            codepoint_end_of(*self) <= u32::MAX,
        ensures
            r == codepoint_end_of(*self),
    {
        self.codepoint_start + (self.glyphs.end - self.glyphs.start) as u32
    }
}

} // verus!
