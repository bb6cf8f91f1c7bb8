use pathfinder_font::charmap::{CodepointRange, CodepointRanges, GlyphMapping, GlyphRange, MappedGlyphRange};
use pathfinder_font::glyph_range::GlyphRanges;

#[test]
fn from_sorted_chars_merges_runs_and_duplicates() {
    let chars: Vec<char> = "  Hdeellloorw".chars().collect();
    let ranges = CodepointRanges::from_sorted_chars(&chars).ranges;
    let expected = vec![
        CodepointRange::new(' ' as u32, ' ' as u32),
        CodepointRange::new('H' as u32, 'H' as u32),
        CodepointRange::new('d' as u32, 'e' as u32),
        CodepointRange::new('l' as u32, 'l' as u32),
        CodepointRange::new('o' as u32, 'o' as u32),
        CodepointRange::new('r' as u32, 'r' as u32),
        CodepointRange::new('w' as u32, 'w' as u32),
    ];
    assert_eq!(ranges, expected);
    assert_eq!(CodepointRanges::from_sorted_chars(&['a', 'b', 'c', 'c']).ranges, vec![CodepointRange::new(97, 99)]);
    assert!(CodepointRanges::from_sorted_chars(&[]).ranges.is_empty());
}

#[test]
fn every_char_is_covered_by_its_ranges() {
    let chars: Vec<char> = "!#$%&()0123456789:;ABCabc".chars().collect();
    let ranges = CodepointRanges::from_sorted_chars(&chars).ranges;
    for c in &chars {
        assert!(ranges.iter().any(|r| r.start <= *c as u32 && *c as u32 <= r.end));
    }
    for w in ranges.windows(2) {
        assert!(w[0].end + 1 < w[1].start);
    }
}

#[test]
fn codepoint_and_glyph_range_iterators() {
    let mut it = CodepointRange::new(5, 7).iter();
    assert_eq!(it.next(), Some(5));
    assert_eq!(it.next(), Some(6));
    assert_eq!(it.next(), Some(7));
    assert_eq!(it.next(), None);
    assert_eq!(CodepointRange::new(9, 3).iter().next(), None);
    let mut g = GlyphRange { start: 10, end: 11 }.iter();
    assert_eq!((g.next(), g.next(), g.next()), (Some(10), Some(11), None));
}

#[test]
fn glyph_mapping_lookup_and_iteration() {
    let mut m = GlyphMapping::new();
    m.push(MappedGlyphRange { codepoint_start: 10, glyphs: GlyphRange { start: 100, end: 102 } });
    m.push(MappedGlyphRange { codepoint_start: 20, glyphs: GlyphRange { start: 7, end: 7 } });
    assert_eq!(m.glyph_for(10), Some(100));
    assert_eq!(m.glyph_for(12), Some(102));
    assert_eq!(m.glyph_for(13), None);
    assert_eq!(m.glyph_for(20), Some(7));
    assert_eq!(m.glyph_for(9), None);
    let mut it = m.iter();
    let mut pairs = Vec::new();
    while let Some(p) = it.next() {
        pairs.push(p);
    }
    assert_eq!(pairs, vec![(10, 100), (11, 101), (12, 102), (20, 7)]);
    let r = MappedGlyphRange { codepoint_start: 10, glyphs: GlyphRange { start: 100, end: 102 } };
    assert_eq!(r.codepoint_end(), 12);
}

#[test]
fn glyph_ranges_lookup() {
    let mut g = GlyphRanges::new();
    g.ranges.push(MappedGlyphRange { codepoint_start: 0x41, glyphs: GlyphRange { start: 1, end: 3 } });
    assert_eq!(g.glyph_for(0x42), Some(2));
    assert_eq!(g.glyph_for(0x44), None);
    let mut it = g.iter();
    assert_eq!((it.next(), it.next(), it.next(), it.next()), (Some(1), Some(2), Some(3), None));
}

#[test]
fn mapping_well_formedness() {
    let mut m = GlyphMapping::new();
    assert!(m.ranges_well_formed());
    m.push(MappedGlyphRange { codepoint_start: 10, glyphs: GlyphRange { start: 100, end: 102 } });
    assert!(m.ranges_well_formed());
    m.push(MappedGlyphRange { codepoint_start: 20, glyphs: GlyphRange { start: 9, end: 7 } });
    assert!(!m.ranges_well_formed());
    let mut high = GlyphMapping::new();
    high.push(MappedGlyphRange { codepoint_start: u32::MAX - 1, glyphs: GlyphRange { start: 0, end: 2 } });
    assert!(!high.ranges_well_formed());
}

#[test]
fn lookup_near_the_top_of_the_codepoint_space() {
    let range = MappedGlyphRange { codepoint_start: u32::MAX - 2, glyphs: GlyphRange { start: 60000, end: 60002 } };
    assert_eq!(range.codepoint_end(), u32::MAX);
    let mut m = GlyphMapping::new();
    m.push(range);
    assert!(m.ranges_well_formed());
    assert_eq!(m.glyph_for(u32::MAX), Some(60002));
    assert_eq!(m.glyph_for(u32::MAX - 3), None);
}

#[test]
fn glyph_ranges_iterate_their_glyphs_in_order() {
    let mut g = GlyphRanges::new();
    g.ranges.push(MappedGlyphRange { codepoint_start: u32::MAX, glyphs: GlyphRange { start: 65534, end: 65535 } });
    g.ranges.push(MappedGlyphRange { codepoint_start: 5, glyphs: GlyphRange { start: 3, end: 4 } });
    let mut it = g.iter();
    let mut out = vec![];
    while let Some(x) = it.next() {
        out.push(x);
    }
    assert_eq!(out, vec![65534, 65535, 3, 4]);
    let mut empty = GlyphRanges::new().iter();
    assert_eq!(empty.next(), None);
}
