//! The character to glyph index mapping table (`cmap`).
//!
//! Only format 4 subtables (segment mapping to delta values) of a Unicode encoding are read.

use vstd::prelude::*;

use crate::charmap::{CodepointRange, GlyphMapping, GlyphRange, MappedGlyphRange};
use crate::error::FontError;
use crate::glyph_range::GlyphRanges;
use crate::otf::FontTable;
use crate::util::{be_i16, be_u16, be_u32, fits, i16_at_sum, u16_at, u16_at_sum, u32_at};

verus! {

pub const PLATFORM_ID_UNICODE: u16 = 0;
pub const PLATFORM_ID_MICROSOFT: u16 = 3;
pub const MICROSOFT_ENCODING_ID_UNICODE_BMP: u16 = 1;
pub const MICROSOFT_ENCODING_ID_UNICODE_UCS4: u16 = 10;
pub const FORMAT_SEGMENT_MAPPING_TO_DELTA_VALUES: u16 = 4;
pub const MISSING_GLYPH: u16 = 0;

#[derive(Clone, Copy, Debug)]
pub struct CmapTable<'a> {
    pub table: FontTable<'a>,
}

/// Where the parallel arrays of a format 4 subtable start.
#[derive(Clone, Copy, Debug, PartialEq, Eq, Structural)]
pub struct CmapLayout {
    pub seg_count: u16,
    pub end_codes: usize,
    pub start_codes: usize,
    pub id_deltas: usize,
    pub id_range_offsets: usize,
}

/// True for an encoding record of a Unicode encoding.
pub open spec fn is_unicode_encoding(platform: u16, encoding: u16) -> bool {
    platform == PLATFORM_ID_UNICODE || (platform == PLATFORM_ID_MICROSOFT && (encoding
        == MICROSOFT_ENCODING_ID_UNICODE_BMP || encoding == MICROSOFT_ENCODING_ID_UNICODE_UCS4))
}

/// The offset of the first Unicode subtable among the encoding records `k` to `n - 1`.
pub open spec fn find_encoding(s: Seq<u8>, k: int, n: int) -> Result<u32, FontError>
    decreases n - k,
{
    if k >= n {
        Err(FontError::UnsupportedCmapEncoding)
    } else if !fits(s, 4 + 8 * k, 8) {
        Err(FontError::UnexpectedEof)
    } else if is_unicode_encoding(be_u16(s, 4 + 8 * k), be_u16(s, 6 + 8 * k)) {
        Ok(be_u32(s, 8 + 8 * k))
    } else {
        find_encoding(s, k + 1, n)
    }
}

/// The layout of the table's format 4 subtable: version 0, a Unicode encoding record, format
/// 4, and the end codes, start codes, deltas, range offsets and glyph IDs laid out in that
/// order, all within the table.
pub open spec fn cmap_layout_spec(s: Seq<u8>) -> Result<CmapLayout, FontError> {
    if s.len() < 2 {
        Err(FontError::UnexpectedEof)
    } else if be_u16(s, 0) != 0 {
        Err(FontError::UnsupportedCmapVersion)
    } else if s.len() < 4 {
        Err(FontError::UnexpectedEof)
    } else {
        match find_encoding(s, 0, be_u16(s, 2) as int) {
            Err(e) => Err(e),
            Ok(off) => {
                let o = off as int;
                if !fits(s, o, 2) {
                    Err(FontError::UnexpectedEof)
                } else if be_u16(s, o) != FORMAT_SEGMENT_MAPPING_TO_DELTA_VALUES {
                    Err(FontError::UnsupportedCmapFormat)
                } else if !fits(s, o, 14) {
                    Err(FontError::UnexpectedEof)
                } else {
                    let seg = be_u16(s, o + 6) as int / 2;
                    let ends = o + 14;
                    let starts = ends + 2 * (seg + 1);
                    let deltas = starts + 2 * seg;
                    let ranges = deltas + 2 * seg;
                    if ranges + 2 * seg > s.len() {
                        Err(FontError::UnexpectedEof)
                    } else {
                        Ok(
                            CmapLayout {
                                seg_count: seg as u16,
                                end_codes: ends as usize,
                                start_codes: starts as usize,
                                id_deltas: deltas as usize,
                                id_range_offsets: ranges as usize,
                            },
                        )
                    }
                }
            },
        }
    }
}

/// The binary search for the segment holding codepoint `c` among segments `low` to
/// `high - 1`.
#[verifier::opaque]
pub open spec fn segment_search(s: Seq<u8>, l: CmapLayout, c: u16, low: int, high: int) -> Result<
    Option<int>,
    FontError,
>
    decreases high - low,
{
    if low >= high {
        Ok(None)
    } else {
        let mid = (low + high) / 2;
        if !fits(s, l.end_codes + 2 * mid, 2) {
            Err(FontError::UnexpectedEof)
        } else if c > be_u16(s, l.end_codes + 2 * mid) {
            segment_search(s, l, c, mid + 1, high)
        } else if !fits(s, l.start_codes + 2 * mid, 2) {
            Err(FontError::UnexpectedEof)
        } else if c < be_u16(s, l.start_codes + 2 * mid) {
            segment_search(s, l, c, low, mid)
        } else {
            Ok(Some(mid))
        }
    }
}

/// A segment found by the search lies within the searched span.
proof fn lemma_segment_search_range(s: Seq<u8>, l: CmapLayout, c: u16, low: int, high: int)
    ensures
        segment_search(s, l, c, low, high) matches Ok(Some(i)) ==> low <= i < high && be_u16(
            s,
            l.start_codes + 2 * i,
        ) <= c <= be_u16(s, l.end_codes + 2 * i),
    decreases high - low,
{
    reveal(segment_search);
    if low < high {
        let mid = (low + high) / 2;
        lemma_segment_search_range(s, l, c, mid + 1, high);
        lemma_segment_search_range(s, l, c, low, mid);
    }
}

/// A glyph ID plus a delta, modulo 65536.
pub open spec fn add_delta(g: int, delta: i16) -> u16 {
    ((g + delta + 0x1_0000) % 0x1_0000) as u16
}

/// A single codepoint with no glyph.
pub open spec fn missing(c: int) -> MappedGlyphRange {
    MappedGlyphRange {
        codepoint_start: c as u32,
        glyphs: GlyphRange { start: MISSING_GLYPH, end: MISSING_GLYPH },
    }
}

/// Concatenates two results, the first error winning.
pub open spec fn concat_results(
    a: Result<Seq<MappedGlyphRange>, FontError>,
    b: Result<Seq<MappedGlyphRange>, FontError>,
) -> Result<Seq<MappedGlyphRange>, FontError> {
    match a {
        Err(e) => Err(e),
        Ok(x) => match b {
            Err(e) => Err(e),
            Ok(y) => Ok(x + y),
        },
    }
}

/// The glyphs of the codepoints `start_code + from` to `start_code + to` of segment `i`, looked
/// up one by one in the glyph ID array.
#[verifier::opaque]
pub open spec fn indirect_glyphs(
    s: Seq<u8>,
    l: CmapLayout,
    i: int,
    start_code: int,
    id_range_offset: int,
    delta: i16,
    from: int,
    to: int,
) -> Result<Seq<MappedGlyphRange>, FontError>
    decreases to - from + 1,
{
    if from > to {
        Ok(Seq::empty())
    } else {
        let pos = l.id_range_offsets + 2 * i + 2 * from + id_range_offset;
        if !fits(s, pos, 2) {
            Err(FontError::UnexpectedEof)
        } else {
            let g = be_u16(s, pos);
            let entry = if g == 0 {
                missing(start_code + from)
            } else {
                MappedGlyphRange {
                    codepoint_start: (start_code + from) as u32,
                    glyphs: GlyphRange { start: add_delta(g as int, delta), end: add_delta(g as int, delta) },
                }
            };
            concat_results(
                Ok(seq![entry]),
                indirect_glyphs(s, l, i, start_code, id_range_offset, delta, from + 1, to),
            )
        }
    }
}

/// The four fields of segment `i` can be read.
pub open spec fn segment_fits(s: Seq<u8>, l: CmapLayout, i: int) -> bool {
    fits(s, l.start_codes + 2 * i, 2) && fits(s, l.end_codes + 2 * i, 2) && fits(
        s,
        l.id_range_offsets + 2 * i,
        2,
    ) && fits(s, l.id_deltas + 2 * i, 2)
}

/// The mapped ranges for codepoints `start` to `end`: codepoints above the Basic Multilingual
/// Plane and codepoints in no segment map to the missing glyph one by one; a run within a
/// segment maps to a single range when the segment maps by delta alone, and glyph by glyph
/// otherwise.
#[verifier::opaque]
pub open spec fn lookup_range(s: Seq<u8>, l: CmapLayout, start: int, end: int) -> Result<
    Seq<MappedGlyphRange>,
    FontError,
>
    decreases end - start + 1,
{
    if start > end {
        Ok(Seq::empty())
    } else if start > 0xFFFF {
        concat_results(Ok(seq![missing(start)]), lookup_range(s, l, start + 1, end))
    } else {
        match segment_search(s, l, start as u16, 0, l.seg_count as int) {
            Err(e) => Err(e),
            Ok(None) => concat_results(Ok(seq![missing(start)]), lookup_range(s, l, start + 1, end)),
            Ok(Some(i)) => {
                if !segment_fits(s, l, i) {
                    Err(FontError::UnexpectedEof)
                } else {
                    let start_code = be_u16(s, l.start_codes + 2 * i) as int;
                    let end_code = be_u16(s, l.end_codes + 2 * i) as int;
                    let id_range_offset = be_u16(s, l.id_range_offsets + 2 * i) as int;
                    let delta = be_i16(s, l.id_deltas + 2 * i);
                    let last = if end < end_code {
                        end
                    } else {
                        end_code
                    };
                    if last < start {
                        Err(FontError::Failed)
                    } else {
                        let chunk = if id_range_offset == 0 {
                            Ok(
                                seq![
                                    MappedGlyphRange {
                                        codepoint_start: start as u32,
                                        glyphs: GlyphRange {
                                            start: add_delta(start, delta),
                                            end: add_delta(last, delta),
                                        },
                                    },
                                ],
                            )
                        } else {
                            indirect_glyphs(
                                s,
                                l,
                                i,
                                start_code,
                                id_range_offset,
                                delta,
                                start - start_code,
                                last - start_code,
                            )
                        };
                        concat_results(chunk, lookup_range(s, l, last + 1, end))
                    }
                }
            },
        }
    }
}

/// Looking up a single codepoint `c`: above U+FFFF, or in no segment, it maps to glyph 0. In
/// segment `i`, with `idRangeOffset[i]` zero, it maps to `c + idDelta[i]` modulo 65536;
/// otherwise to the `u16` found `idRangeOffset[i]` bytes past the segment's own
/// `idRangeOffset` entry, plus two bytes for each codepoint from the segment's start code to
/// `c`: glyph 0 stays glyph 0, and any other glyph is moved by `idDelta[i]` modulo 65536. An
/// entry past the end of the table is an unexpected end.
#[verifier::rlimit(40)]
pub proof fn lemma_single_codepoint(s: Seq<u8>, l: CmapLayout, c: u32)
    ensures
        c > 0xFFFF ==> lookup_range(s, l, c as int, c as int) == Ok::<Seq<MappedGlyphRange>, FontError>(
            seq![MappedGlyphRange { codepoint_start: c, glyphs: GlyphRange { start: 0, end: 0 } }],
        ),
        c <= 0xFFFF ==> match segment_search(s, l, c as u16, 0, l.seg_count as int) {
            Err(e) => lookup_range(s, l, c as int, c as int) == Err::<Seq<MappedGlyphRange>, FontError>(e),
            Ok(None) => lookup_range(s, l, c as int, c as int) == Ok::<Seq<MappedGlyphRange>, FontError>(
                seq![MappedGlyphRange { codepoint_start: c, glyphs: GlyphRange { start: 0, end: 0 } }],
            ),
            Ok(Some(i)) => segment_fits(s, l, i) ==> {
                let start_code = be_u16(s, l.start_codes + 2 * i) as int;
                let id_range_offset = be_u16(s, l.id_range_offsets + 2 * i) as int;
                let delta = be_i16(s, l.id_deltas + 2 * i) as int;
                let at = (l.id_range_offsets + 2 * i) + id_range_offset + 2 * (c - start_code);
                lookup_range(s, l, c as int, c as int) == if id_range_offset == 0 {
                    let g = ((c + delta + 0x1_0000) % 0x1_0000) as u16;
                    Ok::<Seq<MappedGlyphRange>, FontError>(
                        seq![MappedGlyphRange { codepoint_start: c, glyphs: GlyphRange { start: g, end: g } }],
                    )
                } else if at + 2 > s.len() {
                    Err::<Seq<MappedGlyphRange>, FontError>(FontError::UnexpectedEof)
                } else {
                    let raw = be_u16(s, at) as int;
                    let g = if raw == 0 {
                        0u16
                    } else {
                        ((raw + delta + 0x1_0000) % 0x1_0000) as u16
                    };
                    Ok::<Seq<MappedGlyphRange>, FontError>(
                        seq![MappedGlyphRange { codepoint_start: c, glyphs: GlyphRange { start: g, end: g } }],
                    )
                }
            },
        },
{
    let ci = c as int;
    let empty = Seq::<MappedGlyphRange>::empty();
    assert(lookup_range(s, l, ci + 1, ci) == Ok::<Seq<MappedGlyphRange>, FontError>(empty)) by {
        reveal(lookup_range);
    }
    let m = missing(ci);
    assert(seq![m] + empty =~= seq![m]);
    if c > 0xFFFF {
        assert(lookup_range(s, l, ci, ci) == concat_results(Ok(seq![m]), lookup_range(s, l, ci + 1, ci))) by {
            reveal(lookup_range);
        }
    } else {
        lemma_segment_search_range(s, l, c as u16, 0, l.seg_count as int);
        match segment_search(s, l, c as u16, 0, l.seg_count as int) {
            Err(e) => {
                assert(lookup_range(s, l, ci, ci) == Err::<Seq<MappedGlyphRange>, FontError>(e)) by {
                    reveal(lookup_range);
                }
            },
            Ok(None) => {
                assert(lookup_range(s, l, ci, ci) == concat_results(Ok(seq![m]), lookup_range(s, l, ci + 1, ci))) by {
                    reveal(lookup_range);
                }
            },
            Ok(Some(i)) => {
                if segment_fits(s, l, i) {
                    let start_code = be_u16(s, l.start_codes + 2 * i) as int;
                    let id_range_offset = be_u16(s, l.id_range_offsets + 2 * i) as int;
                    let delta = be_i16(s, l.id_deltas + 2 * i);
                    let chunk = if id_range_offset == 0 {
                        Ok(
                            seq![
                                MappedGlyphRange {
                                    codepoint_start: c,
                                    glyphs: GlyphRange { start: add_delta(ci, delta), end: add_delta(ci, delta) },
                                },
                            ],
                        )
                    } else {
                        indirect_glyphs(s, l, i, start_code, id_range_offset, delta, ci - start_code, ci - start_code)
                    };
                    assert(lookup_range(s, l, ci, ci) == concat_results(chunk, lookup_range(s, l, ci + 1, ci))) by {
                        reveal(lookup_range);
                    }
                    if id_range_offset != 0 {
                        let from = ci - start_code;
                        assert(indirect_glyphs(s, l, i, start_code, id_range_offset, delta, from + 1, from)
                            == Ok::<Seq<MappedGlyphRange>, FontError>(empty)) by {
                            reveal(indirect_glyphs);
                        }
                        assert(chunk == {
                            let pos = (l.id_range_offsets + 2 * i) + 2 * from + id_range_offset;
                            if !fits(s, pos, 2) {
                                Err(FontError::UnexpectedEof)
                            } else {
                                let g = be_u16(s, pos);
                                let entry = if g == 0 {
                                    missing(start_code + from)
                                } else {
                                    MappedGlyphRange {
                                        codepoint_start: (start_code + from) as u32,
                                        glyphs: GlyphRange { start: add_delta(g as int, delta), end: add_delta(g as int, delta) },
                                    }
                                };
                                concat_results(
                                    Ok(seq![entry]),
                                    indirect_glyphs(s, l, i, start_code, id_range_offset, delta, from + 1, from),
                                )
                            }
                        }) by {
                            reveal(indirect_glyphs);
                        }
                        if let Ok(x) = chunk {
                            assert(x + empty =~= x);
                        }
                    } else {
                        let e = chunk->Ok_0;
                        assert(e + empty =~= e);
                    }
                }
            },
        }
    }
}

/// The mapped ranges for the codepoint ranges `k` onward, range after range.
pub open spec fn lookup_all(s: Seq<u8>, l: CmapLayout, rs: Seq<CodepointRange>, k: int) -> Result<
    Seq<MappedGlyphRange>,
    FontError,
>
    decreases rs.len() - k,
{
    if k < 0 || k >= rs.len() {
        Ok(Seq::empty())
    } else {
        concat_results(
            lookup_range(s, l, rs[k].start as int, rs[k].end as int),
            lookup_all(s, l, rs, k + 1),
        )
    }
}

/// What a lookup gives for a list of codepoint ranges: the subtable's layout, then the mapped
/// ranges of each codepoint range in order.
pub open spec fn cmap_lookup_spec(s: Seq<u8>, rs: Seq<CodepointRange>) -> Result<
    Seq<MappedGlyphRange>,
    FontError,
> {
    match cmap_layout_spec(s) {
        Err(e) => Err(e),
        Ok(l) => lookup_all(s, l, rs, 0),
    }
}

/// `concat_results` is associative on its success paths.
proof fn lemma_concat_assoc(
    a: Seq<MappedGlyphRange>,
    b: Result<Seq<MappedGlyphRange>, FontError>,
    c: Result<Seq<MappedGlyphRange>, FontError>,
)
    ensures
        concat_results(Ok(a), concat_results(b, c)) == concat_results(
            concat_results(Ok(a), b),
            c,
        ),
{
    match b {
        Ok(x) => match c {
            Ok(y) => {
                assert(a + (x + y) =~= (a + x) + y);
            },
            Err(_) => {},
        },
        Err(_) => {},
    }
}

/// What a concatenation after a known prefix gives back about the rest.
proof fn lemma_concat_result(
    a: Seq<MappedGlyphRange>,
    b: Result<Seq<MappedGlyphRange>, FontError>,
)
    ensures
        concat_results(Ok(a), b) matches Ok(y) ==> b matches Ok(x) && y == a + x,
        concat_results(Ok(a), b) matches Err(e) ==> b == Err::<Seq<MappedGlyphRange>, FontError>(e),
{
}

/// The bounds that a successfully parsed layout guarantees.
proof fn lemma_layout_bounds(s: Seq<u8>, l: CmapLayout)
    requires
        cmap_layout_spec(s) == Ok::<CmapLayout, FontError>(l),
    ensures
        l.seg_count <= 0x7fff,
        l.end_codes + 2 * l.seg_count <= s.len(),
        l.start_codes + 2 * l.seg_count <= s.len(),
        l.id_deltas + 2 * l.seg_count <= s.len(),
        l.id_range_offsets + 2 * l.seg_count <= s.len(),
{
}

/// Wrapping addition of a signed delta to a glyph ID.
fn add_delta_exec(g: u16, delta: i16) -> (r: u16)
    ensures
        r == add_delta(g as int, delta),
{
    let v: i32 = g as i32 + delta as i32 + 0x1_0000;
    (v % 0x1_0000) as u16
}

impl<'a> CmapTable<'a> {
    pub fn new(table: FontTable<'a>) -> (r: CmapTable<'a>)
        ensures
            r.table == table,
    {
        CmapTable { table: table }
    }

    /// Finds the format 4 subtable and the positions of its arrays.
    fn layout(&self) -> (r: Result<CmapLayout, FontError>)
        ensures
            r == cmap_layout_spec(self.table.bytes@),
    {
        let bytes = self.table.bytes;

        // Check version.
        if u16_at(bytes, 0)? != 0 {
            return Err(FontError::UnsupportedCmapVersion);
        }
        let num_tables = u16_at(bytes, 2)?;

        // Check platform ID and encoding.
        let mut k: u16 = 0;
        let mut offset: u32 = 0;
        let mut found = false;
        while k < num_tables
            invariant_except_break
                !found,
            invariant
                bytes == self.table.bytes,
                k <= num_tables,
                num_tables == be_u16(bytes@, 2),
                bytes@.len() >= 4,
                be_u16(bytes@, 0) == 0,
                find_encoding(bytes@, 0, num_tables as int) == find_encoding(
                    bytes@,
                    k as int,
                    num_tables as int,
                ),
            ensures
                bytes == self.table.bytes,
                bytes@.len() >= 4,
                be_u16(bytes@, 0) == 0,
                num_tables == be_u16(bytes@, 2),
                found ==> find_encoding(bytes@, 0, num_tables as int) == Ok::<u32, FontError>(
                    offset,
                ),
                !found ==> find_encoding(bytes@, 0, num_tables as int) == Err::<u32, FontError>(
                    FontError::UnsupportedCmapEncoding,
                ),
            decreases num_tables - k,
        {
            let at: usize = 4 + 8 * k as usize;
            if bytes.len() < 8 || at > bytes.len() - 8 {
                return Err(FontError::UnexpectedEof);
            }
            let platform_id = u16_at(bytes, at)?;
            let encoding_id = u16_at(bytes, at + 2)?;
            let off = u32_at(bytes, at + 4)?;
            if platform_id == PLATFORM_ID_UNICODE || (platform_id == PLATFORM_ID_MICROSOFT && (
            encoding_id == MICROSOFT_ENCODING_ID_UNICODE_BMP || encoding_id
                == MICROSOFT_ENCODING_ID_UNICODE_UCS4)) {
                offset = off;
                found = true;
                break;
            }
            k = k + 1;
        }
        if !found {
            return Err(FontError::UnsupportedCmapEncoding);
        }

        // Check the mapping table format.
        let o = offset as usize;
        let format = u16_at(bytes, o)?;
        if format != FORMAT_SEGMENT_MAPPING_TO_DELTA_VALUES {
            return Err(FontError::UnsupportedCmapFormat);
        }

        // Read the mapping table header.
        if bytes.len() < 14 || o > bytes.len() - 14 {
            return Err(FontError::UnexpectedEof);
        }
        let seg_count: u16 = u16_at(bytes, o + 6)? / 2;

        // Set up parallel array pointers.
        let end_codes: usize = o + 14;
        if (seg_count as usize) * 8 + 2 > bytes.len() - end_codes {
            return Err(FontError::UnexpectedEof);
        }
        let start_codes: usize = end_codes + (seg_count as usize + 1) * 2;
        let id_deltas: usize = start_codes + seg_count as usize * 2;
        let id_range_offsets: usize = id_deltas + seg_count as usize * 2;
        Ok(
            CmapLayout {
                seg_count: seg_count,
                end_codes: end_codes,
                start_codes: start_codes,
                id_deltas: id_deltas,
                id_range_offsets: id_range_offsets,
            },
        )
    }

    /// Binary search for the segment holding codepoint `c`.
    fn find_segment(&self, l: CmapLayout, c: u16) -> (r: Result<Option<u16>, FontError>)
        requires
            cmap_layout_spec(self.table.bytes@) == Ok::<CmapLayout, FontError>(l),
        ensures
            match segment_search(self.table.bytes@, l, c, 0, l.seg_count as int) {
                Err(e) => r == Err::<Option<u16>, FontError>(e),
                Ok(None) => r == Ok::<Option<u16>, FontError>(None),
                Ok(Some(i)) => r == Ok::<Option<u16>, FontError>(Some(i as u16)),
            },
    {
        reveal(segment_search);
        let bytes = self.table.bytes;
        let mut low: u16 = 0;
        let mut high: u16 = l.seg_count;
        assert(l.seg_count <= 0x7fff);
        loop
            invariant
                bytes == self.table.bytes,
                low <= high <= l.seg_count,
                l.seg_count <= 0x7fff,
                segment_search(bytes@, l, c, 0, l.seg_count as int) == segment_search(
                    bytes@,
                    l,
                    c,
                    low as int,
                    high as int,
                ),
            decreases high - low,
        {
            reveal(segment_search);
            if low >= high {
                return Ok(None);
            }
            let mid: u16 = (low + high) / 2;
            let ghost m = mid as int;
            let end_code = u16_at_sum(bytes, l.end_codes, mid as usize * 2)?;
            if c > end_code {
                low = mid + 1;
                continue ;
            }
            let start_code = u16_at_sum(bytes, l.start_codes, mid as usize * 2)?;
            if c < start_code {
                high = mid;
                continue ;
            }
            return Ok(Some(mid));
        }
    }

    /// Appends the glyphs of the codepoints `start_code + from` to `start_code + to` of
    /// segment `i`, looked up one by one.
    fn push_indirect(
        &self,
        l: CmapLayout,
        i: u16,
        start_code: u16,
        id_range_offset: u16,
        delta: i16,
        from: u16,
        to: u16,
        out: &mut Vec<MappedGlyphRange>,
    ) -> (r: Result<(), FontError>)
        requires
            cmap_layout_spec(self.table.bytes@) == Ok::<CmapLayout, FontError>(l),
            i < l.seg_count,
            from <= to,
            start_code as int + to as int <= 0xFFFF,
        ensures
            match indirect_glyphs(
                self.table.bytes@,
                l,
                i as int,
                start_code as int,
                id_range_offset as int,
                delta,
                from as int,
                to as int,
            ) {
                Ok(x) => r is Ok && final(out)@ == old(out)@ + x,
                Err(e) => r == Err::<(), FontError>(e),
            },
    {
        reveal(indirect_glyphs);
        let bytes = self.table.bytes;
        let ghost s = bytes@;
        let ghost base = out@;
        let mut code_offset: u16 = from;
        loop
            invariant
                bytes == self.table.bytes,
                s == bytes@,
                cmap_layout_spec(s) == Ok::<CmapLayout, FontError>(l),
                s.len() == bytes.len(),
                base == old(out)@,
                i < l.seg_count,
                from <= code_offset <= to,
                start_code as int + to as int <= 0xFFFF,
                concat_results(
                    Ok(base),
                    indirect_glyphs(s, l, i as int, start_code as int, id_range_offset as int, delta, from as int, to as int),
                ) == concat_results(
                    Ok(out@),
                    indirect_glyphs(s, l, i as int, start_code as int, id_range_offset as int, delta, code_offset as int, to as int),
                ),
            decreases to - code_offset,
        {
            reveal(indirect_glyphs);
            proof {
                lemma_layout_bounds(s, l);
            }
            let base_pos: usize = l.id_range_offsets + i as usize * 2;
            let ghost before = out@;
            let rg = u16_at_sum(bytes, base_pos, code_offset as usize * 2 + id_range_offset as usize);
            let glyph_id = match rg {
                Ok(g) => g,
                Err(e) => {
                    proof {
                        lemma_concat_result(base, indirect_glyphs(s, l, i as int, start_code as int, id_range_offset as int, delta, from as int, to as int));
                        lemma_concat_result(out@, indirect_glyphs(s, l, i as int, start_code as int, id_range_offset as int, delta, code_offset as int, to as int));
                    }
                    return Err(e);
                },
            };
            let codepoint: u32 = start_code as u32 + code_offset as u32;
            if glyph_id == 0 {
                out.push(
                    MappedGlyphRange {
                        codepoint_start: codepoint,
                        glyphs: GlyphRange { start: MISSING_GLYPH, end: MISSING_GLYPH },
                    },
                );
            } else {
                let g = add_delta_exec(glyph_id, delta);
                out.push(
                    MappedGlyphRange { codepoint_start: codepoint, glyphs: GlyphRange { start: g, end: g } },
                );
            }
            proof {
                let rest = indirect_glyphs(s, l, i as int, start_code as int, id_range_offset as int, delta, code_offset as int + 1, to as int);
                assert(indirect_glyphs(s, l, i as int, start_code as int, id_range_offset as int, delta, code_offset as int, to as int)
                    == concat_results(Ok(seq![out@.last()]), rest));
                lemma_concat_assoc(before, Ok(seq![out@.last()]), rest);
                assert(before + seq![out@.last()] =~= out@);
            }
            if code_offset == to {
                proof {
                    assert(indirect_glyphs(s, l, i as int, start_code as int, id_range_offset as int, delta, to as int + 1, to as int)
                        == Ok::<Seq<MappedGlyphRange>, FontError>(Seq::empty()));
                    assert(out@ + Seq::<MappedGlyphRange>::empty() =~= out@);
                    lemma_concat_result(base, indirect_glyphs(s, l, i as int, start_code as int, id_range_offset as int, delta, from as int, to as int));
                }
                return Ok(());
            }
            code_offset = code_offset + 1;
        }
    }

    /// Appends the mapped ranges of the first run of the codepoints `start` to `end`: a single
    /// codepoint outside every segment, or the codepoints up to the end of the segment that
    /// holds `start`. Returns where the rest begins.
    fn push_chunk(&self, l: CmapLayout, start: u32, end: u32, out: &mut Vec<MappedGlyphRange>) -> (r: Result<u64, FontError>)
        requires
            cmap_layout_spec(self.table.bytes@) == Ok::<CmapLayout, FontError>(l),
            start <= end,
        ensures
            r matches Ok(next) ==> start < next <= end as int + 1 && concat_results(
                Ok(old(out)@),
                lookup_range(self.table.bytes@, l, start as int, end as int),
            ) == concat_results(
                Ok(final(out)@),
                lookup_range(self.table.bytes@, l, next as int, end as int),
            ),
            r matches Err(e) ==> lookup_range(self.table.bytes@, l, start as int, end as int)
                == Err::<Seq<MappedGlyphRange>, FontError>(e),
    {
        reveal(lookup_range);
        let bytes = self.table.bytes;
        let ghost s = bytes@;
        let ghost before = out@;
        if start > 0xFFFF {
            out.push(
                MappedGlyphRange {
                    codepoint_start: start,
                    glyphs: GlyphRange { start: MISSING_GLYPH, end: MISSING_GLYPH },
                },
            );
            proof {
                lemma_concat_assoc(before, Ok(seq![out@.last()]), lookup_range(s, l, start as int + 1, end as int));
                assert(before + seq![out@.last()] =~= out@);
            }
            return Ok(start as u64 + 1);
        }
        proof {
            lemma_segment_search_range(s, l, start as u16, 0, l.seg_count as int);
        }
        let segment_index = match self.find_segment(l, start as u16) {
            Ok(Some(i)) => i,
            Ok(None) => {
                out.push(
                    MappedGlyphRange {
                        codepoint_start: start,
                        glyphs: GlyphRange { start: MISSING_GLYPH, end: MISSING_GLYPH },
                    },
                );
                proof {
                    lemma_concat_assoc(before, Ok(seq![out@.last()]), lookup_range(s, l, start as int + 1, end as int));
                    assert(before + seq![out@.last()] =~= out@);
                }
                return Ok(start as u64 + 1);
            },
            Err(e) => {
                return Err(e);
            },
        };
        let ghost i = segment_index as int;

        // Read out the segment info.
        let start_code = u16_at_sum(bytes, l.start_codes, segment_index as usize * 2)?;
        let end_code = u16_at_sum(bytes, l.end_codes, segment_index as usize * 2)?;
        let id_range_offset = u16_at_sum(bytes, l.id_range_offsets, segment_index as usize * 2)?;
        let id_delta = i16_at_sum(bytes, l.id_deltas, segment_index as usize * 2)?;
        assert(segment_fits(s, l, i));

        let s16: u16 = start as u16;
        assert(start_code <= s16 <= end_code);
        let last: u16 = if end < end_code as u32 {
            end as u16
        } else {
            end_code
        };
        if last < s16 {
            return Err(FontError::Failed);
        }
        if id_range_offset == 0 {
            // If we're direct-mapped (`idRangeOffset` = 0), then convert as much of the
            // codepoint range as possible to a contiguous glyph range.
            out.push(
                MappedGlyphRange {
                    codepoint_start: s16 as u32,
                    glyphs: GlyphRange {
                        start: add_delta_exec(s16, id_delta),
                        end: add_delta_exec(last, id_delta),
                    },
                },
            );
            proof {
                lemma_concat_assoc(before, Ok(seq![out@.last()]), lookup_range(s, l, last as int + 1, end as int));
                assert(before + seq![out@.last()] =~= out@);
            }
        } else {
            // Otherwise, look up the glyphs individually.
            if s16 < start_code {
                return Err(FontError::Failed);
            }
            let ghost chunk = indirect_glyphs(s, l, i, start_code as int, id_range_offset as int, id_delta, (s16 - start_code) as int, (last - start_code) as int);
            match self.push_indirect(
                l,
                segment_index,
                start_code,
                id_range_offset,
                id_delta,
                s16 - start_code,
                last - start_code,
                out,
            ) {
                Ok(()) => {
                    proof {
                        let x = chunk->Ok_0;
                        lemma_concat_assoc(before, Ok(x), lookup_range(s, l, last as int + 1, end as int));
                    }
                },
                Err(e) => {
                    return Err(e);
                },
            }
        }
        Ok(last as u64 + 1)
    }

    /// Appends the mapped ranges of the codepoints `start` to `end`.
    fn push_range(&self, l: CmapLayout, start: u32, end: u32, out: &mut Vec<MappedGlyphRange>) -> (r: Result<(), FontError>)
        requires
            cmap_layout_spec(self.table.bytes@) == Ok::<CmapLayout, FontError>(l),
        ensures
            match lookup_range(self.table.bytes@, l, start as int, end as int) {
                Ok(x) => r is Ok && final(out)@ == old(out)@ + x,
                Err(e) => r == Err::<(), FontError>(e),
            },
    {
        let ghost s = self.table.bytes@;
        let ghost base = out@;
        let mut cur: u64 = start as u64;
        let ghost start0 = start as int;
        loop
            invariant
                s == self.table.bytes@,
                base == old(out)@,
                start0 == start as int,
                cmap_layout_spec(s) == Ok::<CmapLayout, FontError>(l),
                start0 <= cur <= end as int + 1 || start0 > end,
                concat_results(Ok(base), lookup_range(s, l, start0, end as int)) == concat_results(
                    Ok(out@),
                    lookup_range(s, l, cur as int, end as int),
                ),
            decreases end as int - cur as int + 1,
        {
            if (end as u64) < cur {
                proof {
                    reveal(lookup_range);
                    assert(out@ + Seq::<MappedGlyphRange>::empty() =~= out@);
                    assert(lookup_range(s, l, cur as int, end as int) == Ok::<Seq<MappedGlyphRange>, FontError>(Seq::empty()));
                    assert(concat_results(Ok(base), lookup_range(s, l, start0, end as int)) == Ok::<Seq<MappedGlyphRange>, FontError>(out@));
                    lemma_concat_result(base, lookup_range(s, l, start0, end as int));
                    assert(lookup_range(s, l, start0, end as int) is Ok);
                }
                return Ok(());
            }
            let ghost before = out@;
            match self.push_chunk(l, cur as u32, end, out) {
                Ok(next) => {
                    cur = next;
                },
                Err(e) => {
                    proof {
                        lemma_concat_result(base, lookup_range(s, l, start0, end as int));
                        lemma_concat_result(before, lookup_range(s, l, cur as int, end as int));
                    }
                    return Err(e);
                },
            }
        }
    }

    /// Returns the mapped glyph ranges for the given codepoint ranges, in the same order as the
    /// codepoints.
    pub fn glyph_ranges_for_codepoint_ranges(&self, codepoint_ranges: &[CodepointRange])
        -> (r: Result<GlyphRanges, FontError>)
        ensures
            match cmap_lookup_spec(self.table.bytes@, codepoint_ranges@) {
                Ok(x) => r matches Ok(g) && g.ranges@ == x,
                Err(e) => r matches Err(e2) && e2 == e,
            },
    {
        let l = self.layout()?;
        let ghost s = self.table.bytes@;
        let mut out: Vec<MappedGlyphRange> = Vec::new();
        let mut k: usize = 0;
        while k < codepoint_ranges.len()
            invariant
                k <= codepoint_ranges@.len(),
                s == self.table.bytes@,
                cmap_layout_spec(s) == Ok::<CmapLayout, FontError>(l),
                lookup_all(s, l, codepoint_ranges@, 0) == concat_results(
                    Ok(out@),
                    lookup_all(s, l, codepoint_ranges@, k as int),
                ),
            decreases codepoint_ranges@.len() - k,
        {
            let range = codepoint_ranges[k];
            let ghost before = out@;
            match self.push_range(l, range.start, range.end, &mut out) {
                Ok(()) => {
                    proof {
                        let x = lookup_range(s, l, range.start as int, range.end as int)->Ok_0;
                        lemma_concat_assoc(before, Ok(x), lookup_all(s, l, codepoint_ranges@, k as int + 1));
                    }
                },
                Err(e) => {
                    return Err(e);
                },
            }
            k = k + 1;
        }
        proof {
            assert(out@ + Seq::<MappedGlyphRange>::empty() =~= out@);
        }
        Ok(GlyphRanges { ranges: out })
    }

    /// Returns the codepoint-to-glyph mapping for the given codepoint ranges, in the same order
    /// as the codepoints.
    pub fn glyph_mapping_for_codepoint_ranges(&self, codepoint_ranges: &[CodepointRange])
        -> (r: Result<GlyphMapping, FontError>)
        ensures
            match cmap_lookup_spec(self.table.bytes@, codepoint_ranges@) {
                Ok(x) => r matches Ok(g) && g.ranges() == x,
                Err(e) => r matches Err(e2) && e2 == e,
            },
    {
        let ranges = self.glyph_ranges_for_codepoint_ranges(codepoint_ranges)?;
        let mut mapping = GlyphMapping::new();
        let mut k: usize = 0;
        while k < ranges.ranges.len()
            invariant
                k <= ranges.ranges@.len(),
                mapping.ranges() == ranges.ranges@.take(k as int),
            decreases ranges.ranges@.len() - k,
        {
            mapping.push(ranges.ranges[k]);
            assert(ranges.ranges@.take(k as int + 1) =~= ranges.ranges@.take(k as int).push(ranges.ranges@[k as int]));
            k = k + 1;
        }
        assert(ranges.ranges@.take(ranges.ranges@.len() as int) =~= ranges.ranges@);
        Ok(mapping)
    }
}

} // verus!
