use std::io::Write;

use pathfinder_font::buffers::GlyphBuffers;
use pathfinder_font::charmap::CodepointRange;
use pathfinder_font::error::FontError;
use pathfinder_font::font::Font;
use pathfinder_font::otf::cff::CffTable;
use pathfinder_font::otf::cmap::CmapTable;
use pathfinder_font::otf::glyf::{GlyfTable, Point, PointKind};
use pathfinder_font::otf::head::HeadTable;
use pathfinder_font::otf::hhea::HheaTable;
use pathfinder_font::otf::hmtx::{HmtxTable, HorizontalMetrics};
use pathfinder_font::otf::kern::KernTable;
use pathfinder_font::otf::loca::LocaTable;
use pathfinder_font::otf::os_2::Os2Table;
use pathfinder_font::otf::FontTable;
use pathfinder_font::outline::{GlyphBounds, OutlineBuilder};
use pathfinder_font::shaper::{shape_text, GlyphPos};
use pathfinder_font::geometry::Point2DI16;

fn be16(v: &mut Vec<u8>, x: u16) {
    v.extend_from_slice(&x.to_be_bytes());
}

fn be32(v: &mut Vec<u8>, x: u32) {
    v.extend_from_slice(&x.to_be_bytes());
}

fn head_table(loca_format: i16) -> Vec<u8> {
    let mut t = vec![0u8; 54];
    t[0..4].copy_from_slice(&0x0001_0000u32.to_be_bytes());
    t[12..16].copy_from_slice(&0x5f0f_3cf5u32.to_be_bytes());
    t[18..20].copy_from_slice(&1000u16.to_be_bytes());
    t[50..52].copy_from_slice(&loca_format.to_be_bytes());
    t
}

fn hhea_table() -> Vec<u8> {
    let mut t = vec![0u8; 36];
    t[0..4].copy_from_slice(&0x0001_0000u32.to_be_bytes());
    t[8..10].copy_from_slice(&90i16.to_be_bytes());
    t[34..36].copy_from_slice(&3u16.to_be_bytes());
    t
}

fn os_2_table() -> Vec<u8> {
    let mut t = vec![0u8; 78];
    t[0..2].copy_from_slice(&1u16.to_be_bytes());
    t[68..70].copy_from_slice(&800i16.to_be_bytes());
    t[70..72].copy_from_slice(&(-200i16).to_be_bytes());
    t[72..74].copy_from_slice(&50i16.to_be_bytes());
    t
}

/// A format 4 subtable mapping 'A'..='C' to glyphs 1..=3.
fn cmap_table() -> Vec<u8> {
    let mut t = Vec::new();
    be16(&mut t, 0);
    be16(&mut t, 1);
    be16(&mut t, 3);
    be16(&mut t, 1);
    be32(&mut t, 12);
    be16(&mut t, 4);
    be16(&mut t, 32);
    be16(&mut t, 0);
    be16(&mut t, 4);
    be16(&mut t, 4);
    be16(&mut t, 1);
    be16(&mut t, 0);
    be16(&mut t, 0x43);
    be16(&mut t, 0xffff);
    be16(&mut t, 0);
    be16(&mut t, 0x41);
    be16(&mut t, 0xffff);
    be16(&mut t, (-0x40i16) as u16);
    be16(&mut t, 1);
    be16(&mut t, 0);
    be16(&mut t, 0);
    t
}

/// Glyph 0 is empty, glyph 1 a square, glyph 2 a contour with two off-curve points.
fn glyf_and_loca() -> (Vec<u8>, Vec<u8>) {
    let mut g = Vec::new();
    for v in [1i16, 0, 0, 100, 100, 3, 0] {
        be16(&mut g, v as u16);
    }
    g.extend_from_slice(&[1, 1, 1, 1]);
    for v in [0i16, 100, 0, -100, 0, 0, 100, 0] {
        be16(&mut g, v as u16);
    }
    assert_eq!(g.len(), 34);
    for v in [1i16, 0, 0, 100, 100, 2, 0] {
        be16(&mut g, v as u16);
    }
    g.extend_from_slice(&[1, 0, 0]);
    for v in [0i16, 100, 0, 0, 0, 100] {
        be16(&mut g, v as u16);
    }
    g.push(0);
    assert_eq!(g.len(), 64);
    let mut l = Vec::new();
    for v in [0u16, 0, 17, 32] {
        be16(&mut l, v);
    }
    (g, l)
}

/// Three long records, then the left-side bearing of glyph 3.
fn hmtx_table() -> Vec<u8> {
    let mut t = Vec::new();
    for (advance, lsb) in [(500u16, 10i16), (600, 20), (700, -5)] {
        be16(&mut t, advance);
        be16(&mut t, lsb as u16);
    }
    be16(&mut t, 7);
    t
}

fn kern_table() -> Vec<u8> {
    let mut t = Vec::new();
    be16(&mut t, 0);
    be16(&mut t, 1);
    be16(&mut t, 0);
    be16(&mut t, 6 + 8 + 12);
    be16(&mut t, 1);
    be16(&mut t, 2);
    be16(&mut t, 0);
    be16(&mut t, 0);
    be16(&mut t, 0);
    be16(&mut t, 1);
    be16(&mut t, 2);
    be16(&mut t, (-40i16) as u16);
    be16(&mut t, 2);
    be16(&mut t, 3);
    be16(&mut t, 25);
    t
}

/// A CFF table whose glyph 1 is a triangle drawn with `rmoveto` and `rlineto`.
fn cff_table() -> Vec<u8> {
    cff_table_with(&[149u8, 159, 21, 169, 139, 139, 179, 5, 14])
}

/// A CFF table whose glyph 0 is empty and whose glyph 1 has the given charstring.
fn cff_table_with(glyph1: &[u8]) -> Vec<u8> {
    let mut t = vec![1u8, 0, 4, 1];
    t.extend_from_slice(&[0, 1, 1, 1, 2, b'A']);
    t.extend_from_slice(&[0, 1, 1, 1, 5, 28, 0, 23, 17]);
    t.extend_from_slice(&[0, 0]);
    t.extend_from_slice(&[0, 0]);
    assert_eq!(t.len(), 23);
    t.extend_from_slice(&[0, 2, 1, 1, 2, 2 + glyph1.len() as u8]);
    t.push(14);
    t.extend_from_slice(glyph1);
    t
}

fn sfnt(version: u32, base: usize, tables: &[(u32, Vec<u8>)]) -> Vec<u8> {
    let mut out = Vec::new();
    be32(&mut out, version);
    be16(&mut out, tables.len() as u16);
    be16(&mut out, 0);
    be16(&mut out, 0);
    be16(&mut out, 0);
    let mut offset = base + 12 + 16 * tables.len();
    for (tag, data) in tables {
        be32(&mut out, *tag);
        be32(&mut out, 0);
        be32(&mut out, offset as u32);
        be32(&mut out, data.len() as u32);
        offset += data.len();
    }
    for (_, data) in tables {
        out.extend_from_slice(data);
    }
    out
}

fn truetype_tables() -> Vec<(u32, Vec<u8>)> {
    let (glyf, loca) = glyf_and_loca();
    vec![
        (0x4f53_2f32, os_2_table()),
        (0x636d_6170, cmap_table()),
        (0x676c_7966, glyf),
        (0x6865_6164, head_table(0)),
        (0x6868_6561, hhea_table()),
        (0x686d_7478, hmtx_table()),
        (0x6b65_726e, kern_table()),
        (0x6c6f_6361, loca),
    ]
}

fn truetype_font_bytes() -> Vec<u8> {
    sfnt(0x0001_0000, 0, &truetype_tables())
}

fn pt(x: i16, y: i16, index: u16, kind: PointKind) -> Point {
    Point { position: Point2DI16 { x, y }, index_in_contour: index, kind }
}

#[test]
fn head_hhea_and_os_2_fields() {
    let head = head_table(1);
    let h = HeadTable::new(FontTable { bytes: &head }).unwrap();
    assert_eq!(h.units_per_em, 1000);
    assert_eq!(h.index_to_loc_format, 1);
    let mut bad = head.clone();
    bad[12] = 0;
    assert_eq!(HeadTable::new(FontTable { bytes: &bad }), Err(FontError::UnknownFormat));
    bad = head.clone();
    bad[1] = 2;
    assert_eq!(HeadTable::new(FontTable { bytes: &bad }), Err(FontError::UnsupportedHeadVersion));
    assert_eq!(HeadTable::new(FontTable { bytes: &head[0..20] }), Err(FontError::UnexpectedEof));
    bad = head.clone();
    bad[53] = 1;
    assert_eq!(HeadTable::new(FontTable { bytes: &bad }), Err(FontError::UnsupportedGlyphFormat));

    let hhea = hhea_table();
    let t = HheaTable::new(FontTable { bytes: &hhea }).unwrap();
    assert_eq!((t.line_gap, t.number_of_h_metrics), (90, 3));
    assert!(matches!(HheaTable::new(FontTable { bytes: &hhea[2..] }), Err(FontError::UnsupportedHheaVersion)));

    let os_2 = os_2_table();
    let o = Os2Table::new(FontTable { bytes: &os_2 }).unwrap();
    assert_eq!((o.typo_ascender, o.typo_descender, o.typo_line_gap), (800, -200, 50));
    let mut v0 = os_2.clone();
    v0[1] = 0;
    v0[56..58].copy_from_slice(&700i16.to_be_bytes());
    assert_eq!(Os2Table::new(FontTable { bytes: &v0 }).unwrap().typo_ascender, 700);
    assert!(matches!(Os2Table::new(FontTable { bytes: &os_2[0..70] }), Err(FontError::UnexpectedEof)));
}

#[test]
fn loca_offsets_and_empty_glyphs() {
    let (_, loca) = glyf_and_loca();
    let head = HeadTable::new(FontTable { bytes: &head_table(0) }).unwrap();
    let l = LocaTable::new(FontTable { bytes: &loca }).unwrap();
    assert_eq!(l.location_of(&head, 0), Ok(None));
    assert_eq!(l.location_of(&head, 1), Ok(Some(0)));
    assert_eq!(l.location_of(&head, 2), Ok(Some(34)));
    assert_eq!(l.location_of(&head, 3), Ok(Some(64)));
    assert_eq!(l.location_of(&head, 4), Err(FontError::UnexpectedEof));
    let long = HeadTable { units_per_em: 1000, index_to_loc_format: 1 };
    let mut loca32 = Vec::new();
    for v in [0u32, 12, 12] {
        be32(&mut loca32, v);
    }
    let l32 = LocaTable::new(FontTable { bytes: &loca32 }).unwrap();
    assert_eq!(l32.location_of(&long, 0), Ok(Some(0)));
    assert_eq!(l32.location_of(&long, 1), Ok(None));
    let odd = HeadTable { units_per_em: 1000, index_to_loc_format: 7 };
    assert_eq!(l32.location_of(&odd, 0), Err(FontError::UnknownFormat));
}

#[test]
fn simple_glyph_points_close_each_contour() {
    let (glyf, loca) = glyf_and_loca();
    let head = HeadTable::new(FontTable { bytes: &head_table(0) }).unwrap();
    let l = LocaTable::new(FontTable { bytes: &loca }).unwrap();
    let g = GlyfTable::new(FontTable { bytes: &glyf });
    assert_eq!(g.for_each_point(&head, &l, 0).unwrap(), vec![]);
    assert_eq!(
        g.for_each_point(&head, &l, 1).unwrap(),
        vec![
            pt(0, 0, 0, PointKind::OnCurve),
            pt(100, 0, 1, PointKind::OnCurve),
            pt(100, 100, 2, PointKind::OnCurve),
            pt(0, 100, 3, PointKind::OnCurve),
            pt(0, 0, 4, PointKind::OnCurve),
        ]
    );
}

#[test]
fn consecutive_off_curve_points_imply_a_midpoint() {
    let (glyf, loca) = glyf_and_loca();
    let head = HeadTable::new(FontTable { bytes: &head_table(0) }).unwrap();
    let l = LocaTable::new(FontTable { bytes: &loca }).unwrap();
    let g = GlyfTable::new(FontTable { bytes: &glyf });
    assert_eq!(
        g.for_each_point(&head, &l, 2).unwrap(),
        vec![
            pt(0, 0, 0, PointKind::OnCurve),
            pt(100, 0, 1, PointKind::QuadControl),
            pt(100, 50, 2, PointKind::OnCurve),
            pt(100, 100, 3, PointKind::QuadControl),
            pt(0, 0, 4, PointKind::OnCurve),
        ]
    );
    assert_eq!(
        g.glyph_bounds(&head, &l, 2),
        Ok(GlyphBounds { left: 0, bottom: 0, right: 100, top: 100 })
    );
    assert_eq!(
        g.glyph_bounds(&head, &l, 0),
        Ok(GlyphBounds { left: 0, bottom: 0, right: 0, top: 0 })
    );
}

#[test]
fn truncated_glyph_is_an_eof() {
    let (glyf, loca) = glyf_and_loca();
    let head = HeadTable::new(FontTable { bytes: &head_table(0) }).unwrap();
    let l = LocaTable::new(FontTable { bytes: &loca }).unwrap();
    let short = GlyfTable::new(FontTable { bytes: &glyf[0..30] });
    assert_eq!(short.for_each_point(&head, &l, 1), Err(FontError::UnexpectedEof));
}

#[test]
fn composite_glyph_moves_its_component() {
    let (mut glyf, mut loca) = glyf_and_loca();
    // Glyph 3: glyph 1 moved by (10, 20), scaled by one half.
    for v in [-1i16, 0, 0, 50, 50] {
        be16(&mut glyf, v as u16);
    }
    be16(&mut glyf, 0x0002 | 0x0008);
    be16(&mut glyf, 1);
    glyf.push(10);
    glyf.push(20);
    be16(&mut glyf, 0x2000);
    be16(&mut loca, (glyf.len() / 2) as u16);
    let head = HeadTable::new(FontTable { bytes: &head_table(0) }).unwrap();
    let l = LocaTable::new(FontTable { bytes: &loca }).unwrap();
    let g = GlyfTable::new(FontTable { bytes: &glyf });
    assert_eq!(
        g.for_each_point(&head, &l, 3).unwrap(),
        vec![
            pt(10, 20, 0, PointKind::OnCurve),
            pt(60, 20, 1, PointKind::OnCurve),
            pt(60, 70, 2, PointKind::OnCurve),
            pt(10, 70, 3, PointKind::OnCurve),
            pt(10, 20, 4, PointKind::OnCurve),
        ]
    );
}

#[test]
fn cff_charstring_draws_and_closes() {
    let cff = cff_table();
    let t = CffTable::new(FontTable { bytes: &cff }).unwrap();
    assert_eq!(t.char_strings, 23);
    assert_eq!(t.for_each_point(0).unwrap(), vec![]);
    assert_eq!(
        t.for_each_point(1).unwrap(),
        vec![
            pt(10, 20, 0, PointKind::OnCurve),
            pt(40, 20, 1, PointKind::OnCurve),
            pt(40, 60, 2, PointKind::OnCurve),
            pt(10, 20, 3, PointKind::OnCurve),
        ]
    );
    assert_eq!(t.glyph_bounds(1), Ok(GlyphBounds { left: 0, bottom: 0, right: 40, top: 60 }));
    assert_eq!(t.for_each_point(2), Err(FontError::UnexpectedEof));
}

#[test]
fn cff_errors() {
    let mut cff = cff_table();
    cff[0] = 2;
    assert!(matches!(CffTable::new(FontTable { bytes: &cff }), Err(FontError::UnsupportedCffVersion)));
    let mut cff = cff_table();
    // Replace `rlineto` by the unsupported `callsubr`.
    let n = cff.len();
    cff[n - 2] = 10;
    let t = CffTable::new(FontTable { bytes: &cff }).unwrap();
    assert_eq!(t.for_each_point(1), Err(FontError::CffUnimplementedOperator));
    // The bounds still take in the points drawn before the error.
    assert_eq!(t.glyph_bounds(1), Ok(GlyphBounds { left: 0, bottom: 0, right: 10, top: 20 }));
    let mut cff = cff_table();
    cff[15] = 5;
    assert!(matches!(CffTable::new(FontTable { bytes: &cff }), Err(FontError::CffIntegerNotFound)));
    // The name INDEX declares offsets five bytes wide.
    let mut cff = cff_table();
    cff[6] = 5;
    assert!(matches!(CffTable::new(FontTable { bytes: &cff }), Err(FontError::CffBadOffset)));
    // The top DICT INDEX is empty.
    let mut cff = cff_table();
    cff[11] = 0;
    assert!(matches!(CffTable::new(FontTable { bytes: &cff }), Err(FontError::CffTopDictNotFound)));
    // Forty-nine operands overflow the forty-eight slots of the stack.
    let mut glyph1 = vec![139u8; 49];
    glyph1.push(14);
    let cff = cff_table_with(&glyph1);
    let t = CffTable::new(FontTable { bytes: &cff }).unwrap();
    assert_eq!(t.for_each_point(1), Err(FontError::CffStackOverflow));
    let cff = cff_table_with(&glyph1[1..]);
    let t = CffTable::new(FontTable { bytes: &cff }).unwrap();
    assert_eq!(t.for_each_point(1), Ok(vec![]));
}

#[test]
fn cmap_errors() {
    let range = [CodepointRange::new(0x41, 0x43)];
    let lookup = |bytes: &[u8]| CmapTable::new(FontTable { bytes }).glyph_mapping_for_codepoint_ranges(&range).err();
    let mut cmap = cmap_table();
    cmap[1] = 1;
    assert_eq!(lookup(&cmap), Some(FontError::UnsupportedCmapVersion));
    let mut cmap = cmap_table();
    // A Microsoft symbol encoding is not Unicode.
    cmap[7] = 0;
    assert_eq!(lookup(&cmap), Some(FontError::UnsupportedCmapEncoding));
    let mut cmap = cmap_table();
    cmap[13] = 6;
    assert_eq!(lookup(&cmap), Some(FontError::UnsupportedCmapFormat));
    cmap.truncate(20);
    cmap[13] = 4;
    assert_eq!(lookup(&cmap), Some(FontError::UnexpectedEof));
    assert_eq!(lookup(&cmap_table()), None);
}

#[test]
fn cmap_lookup_across_the_end_of_the_basic_multilingual_plane() {
    let cmap = cmap_table();
    let table = CmapTable::new(FontTable { bytes: &cmap });
    let ranges = [CodepointRange::new(0xfffe, 0x1_0001), CodepointRange::new(0xffff_fffe, 0xffff_ffff)];
    let found = table.glyph_ranges_for_codepoint_ranges(&ranges).unwrap().ranges;
    let pairs: Vec<(u32, u16, u16)> =
        found.iter().map(|r| (r.codepoint_start, r.glyphs.start, r.glyphs.end)).collect();
    // U+FFFF lies in the final segment, whose delta of one maps it to glyph 0; every other
    // codepoint here lies in no segment.
    assert_eq!(
        pairs,
        vec![
            (0xfffe, 0, 0),
            (0xffff, 0, 0),
            (0x1_0000, 0, 0),
            (0x1_0001, 0, 0),
            (0xffff_fffe, 0, 0),
            (0xffff_ffff, 0, 0),
        ]
    );
    let mapping = table.glyph_mapping_for_codepoint_ranges(&[CodepointRange::new(0x42, 0xffff)]).unwrap();
    assert_eq!(mapping.glyph_for(0x42), Some(2));
    assert_eq!(mapping.glyph_for(0x44), Some(0));
}

#[test]
fn kerning_pairs() {
    let kern = kern_table();
    let k = KernTable::new(FontTable { bytes: &kern }).unwrap();
    assert_eq!(k.kerning_for_glyph_pair(1, 2), Ok(-40));
    assert_eq!(k.kerning_for_glyph_pair(2, 3), Ok(25));
    assert_eq!(k.kerning_for_glyph_pair(3, 1), Ok(0));
    let mut vertical = kern.clone();
    vertical[9] = 0;
    assert!(matches!(KernTable::new(FontTable { bytes: &vertical }), Err(FontError::UnknownFormat)));
}

#[test]
fn font_from_otf_reads_every_table() {
    let bytes = truetype_font_bytes();
    let mut buffer = Vec::new();
    let font = Font::new(&bytes, &mut buffer).unwrap();
    assert_eq!(font.units_per_em(), 1000);
    assert_eq!((font.ascender(), font.descender(), font.line_gap()), (800, -200, 50));
    assert_eq!(font.kerning_for_glyph_pair(1, 2), -40);
    assert_eq!(font.kerning_for_glyph_pair(2, 1), 0);
    assert_eq!(font.glyph_bounds(1), Ok(GlyphBounds { left: 0, bottom: 0, right: 100, top: 100 }));
    assert_eq!(font.for_each_point(1).unwrap().len(), 5);
    let ranges = [CodepointRange::new(0x40, 0x44)];
    let mapping = font.glyph_mapping_for_codepoint_ranges(&ranges).unwrap();
    assert_eq!(mapping.glyph_for(0x40), Some(0));
    assert_eq!(mapping.glyph_for(0x41), Some(1));
    assert_eq!(mapping.glyph_for(0x43), Some(3));
    assert_eq!(mapping.glyph_for(0x44), Some(0));
    assert!(buffer.is_empty());
}

#[test]
fn font_errors() {
    let mut buffer = Vec::new();
    assert!(matches!(Font::new(&[0, 1], &mut buffer), Err(FontError::UnexpectedEof)));
    assert!(matches!(Font::new(&[1, 2, 3, 4, 5], &mut buffer), Err(FontError::UnknownFormat)));
    let mut tables = truetype_tables();
    tables.remove(4);
    let bytes = sfnt(0x0001_0000, 0, &tables);
    assert!(matches!(Font::new(&bytes, &mut buffer), Err(FontError::RequiredTableMissing)));
    let mut tables = truetype_tables();
    let again = tables[1].clone();
    tables.push(again);
    let bytes = sfnt(0x0001_0000, 0, &tables);
    assert!(matches!(Font::new(&bytes, &mut buffer), Err(FontError::Failed)));
    let mut bytes = truetype_font_bytes();
    bytes.truncate(60);
    // The first table runs past the end of the data.
    assert!(matches!(Font::from_otf(&bytes, 0), Err(FontError::Failed)));
    bytes.truncate(20);
    assert!(matches!(Font::from_otf(&bytes, 0), Err(FontError::UnexpectedEof)));
}

#[test]
fn font_with_cff_outlines() {
    let mut tables = truetype_tables();
    tables.retain(|(tag, _)| *tag != 0x676c_7966 && *tag != 0x6c6f_6361);
    tables.insert(0, (0x4346_4620, cff_table()));
    let bytes = sfnt(0x4f54_544f, 0, &tables);
    let font = Font::from_otf(&bytes, 0).unwrap();
    assert_eq!(font.for_each_point(1).unwrap().len(), 4);
    assert_eq!(font.glyph_bounds(1), Ok(GlyphBounds { left: 0, bottom: 0, right: 40, top: 60 }));
}

#[test]
fn collection_picks_the_indexed_font() {
    let mut bytes = Vec::new();
    be32(&mut bytes, 0x7474_6366);
    be16(&mut bytes, 1);
    be16(&mut bytes, 0);
    be32(&mut bytes, 1);
    be32(&mut bytes, 16);
    bytes.extend_from_slice(&sfnt(0x0001_0000, 16, &truetype_tables()));
    let mut buffer = Vec::new();
    let font = Font::from_collection_index(&bytes, 0, &mut buffer).unwrap();
    assert_eq!(font.units_per_em(), 1000);
    assert!(matches!(
        Font::from_collection_index(&bytes, 1, &mut buffer),
        Err(FontError::FontIndexOutOfBounds)
    ));
    bytes[5] = 3;
    assert!(matches!(
        Font::from_collection_index(&bytes, 0, &mut buffer),
        Err(FontError::UnsupportedVersion)
    ));
}

#[test]
fn resource_fork_holds_a_font() {
    let font = truetype_font_bytes();
    let data_offset = 0x100usize;
    let mut data = Vec::new();
    be32(&mut data, font.len() as u32);
    data.extend_from_slice(&font);
    let map_offset = data_offset + data.len();
    let mut bytes = Vec::new();
    be32(&mut bytes, data_offset as u32);
    be32(&mut bytes, map_offset as u32);
    be32(&mut bytes, data.len() as u32);
    be32(&mut bytes, 0);
    bytes.resize(data_offset, 0);
    bytes.extend_from_slice(&data);
    let mut map = vec![0u8; 24];
    be16(&mut map, 28);
    be16(&mut map, 0);
    // The type list: one type (stored minus one), `sfnt` with one resource.
    be16(&mut map, 0);
    be32(&mut map, 0x7366_6e74);
    be16(&mut map, 0);
    be16(&mut map, 10);
    be16(&mut map, 0);
    be16(&mut map, 0);
    be32(&mut map, 0);
    be32(&mut map, 0);
    bytes.extend_from_slice(&map);
    let f = Font::from_dfont_index(&bytes, 0).unwrap();
    assert_eq!(f.units_per_em(), 1000);
    assert_eq!(f.bytes.len(), font.len());
    assert!(matches!(Font::from_dfont_index(&bytes, 1), Err(FontError::FontIndexOutOfBounds)));
    let mut buffer = Vec::new();
    assert_eq!(Font::new(&bytes, &mut buffer).unwrap().ascender(), 800);
}

#[test]
fn woff_tables_are_inflated_into_the_buffer() {
    let tables = truetype_tables();
    let total: usize = tables.iter().map(|(_, d)| d.len()).sum();
    let mut bytes = Vec::new();
    be32(&mut bytes, 0x774f_4646);
    be32(&mut bytes, 0x0001_0000);
    be32(&mut bytes, 0);
    be16(&mut bytes, tables.len() as u16);
    be16(&mut bytes, 0);
    be32(&mut bytes, total as u32);
    bytes.resize(44, 0);
    let mut blobs = Vec::new();
    for (i, (_, data)) in tables.iter().enumerate() {
        if i == 1 {
            let mut e = flate2::write::ZlibEncoder::new(Vec::new(), flate2::Compression::default());
            e.write_all(data).unwrap();
            blobs.push(e.finish().unwrap());
        } else {
            blobs.push(data.clone());
        }
    }
    let mut offset = 44 + 20 * tables.len();
    for (i, (tag, data)) in tables.iter().enumerate() {
        be32(&mut bytes, *tag);
        be32(&mut bytes, offset as u32);
        be32(&mut bytes, blobs[i].len() as u32);
        be32(&mut bytes, data.len() as u32);
        be32(&mut bytes, 0);
        offset += blobs[i].len();
    }
    for b in &blobs {
        bytes.extend_from_slice(b);
    }
    let mut buffer = vec![7u8];
    let font = Font::new(&bytes, &mut buffer).unwrap();
    assert_eq!(font.units_per_em(), 1000);
    let ranges = [CodepointRange::new(0x41, 0x41)];
    assert_eq!(font.glyph_mapping_for_codepoint_ranges(&ranges).unwrap().glyph_for(0x41), Some(1));
    assert_eq!(buffer.len(), 1 + total);
    assert_eq!(buffer[0], 7);
    assert_eq!(&buffer[1..1 + tables[0].1.len()], &tables[0].1[..]);
}

#[test]
fn outline_builder_packs_segments() {
    let bytes = truetype_font_bytes();
    let mut buffer = Vec::new();
    let font = Font::new(&bytes, &mut buffer).unwrap();
    let mut builder = OutlineBuilder::new();
    assert_eq!(builder.add_glyph(&font, 1), Ok(0));
    assert_eq!(builder.vertices.len(), 6);
    assert_eq!(builder.indices, vec![1, 0, 0, 2, 2, 0, 0, 3, 3, 0, 0, 4, 4, 0, 0, 5]);
    assert_eq!(builder.add_glyph(&font, 2), Ok(1));
    assert_eq!(builder.descriptors.len(), 2);
    assert_eq!(builder.descriptors[1].start_index(), 16);
    assert_eq!(builder.descriptors[1].start_point, 6);
    assert_eq!(builder.vertices[6].glyph_index, 1);
    let (vertex_count, index_count) = (builder.vertices.len(), builder.indices.len());
    let (outlines, vertices, indices) = builder.create_buffers();
    assert_eq!(vertices.len(), vertex_count);
    assert_eq!(indices.len(), index_count);
    assert_eq!(outlines.indices_count(), index_count);
    assert_eq!(outlines.glyph_id(1), 2);
    assert_eq!(outlines.glyph_units_per_em(0), 1000);
    assert_eq!(outlines.glyph_bounds(0), GlyphBounds { left: 0, bottom: 0, right: 100, top: 100 });
    assert_eq!(outlines.descriptor(1).map(|d| d.start_index()), Some(16));
    assert!(outlines.descriptor(2).is_none());
}

#[test]
fn horizontal_metrics_share_the_last_advance() {
    let hmtx = hmtx_table();
    let table = HmtxTable::new(FontTable { bytes: &hmtx });
    let hhea = HheaTable { line_gap: 0, number_of_h_metrics: 3 };
    let m = |advance_width, lsb| Ok(HorizontalMetrics { advance_width, lsb });
    assert_eq!(table.metrics_for_glyph(&hhea, 0), m(500, 10));
    assert_eq!(table.metrics_for_glyph(&hhea, 2), m(700, -5));
    assert_eq!(table.metrics_for_glyph(&hhea, 3), m(700, 7));
    assert_eq!(table.metrics_for_glyph(&hhea, 4), Err(FontError::UnexpectedEof));
    let none = HheaTable { line_gap: 0, number_of_h_metrics: 0 };
    assert_eq!(table.metrics_for_glyph(&none, 0), Err(FontError::UnexpectedEof));
    let short = HmtxTable::new(FontTable { bytes: &hmtx[..6] });
    assert_eq!(short.metrics_for_glyph(&hhea, 1), Err(FontError::UnexpectedEof));
}

#[test]
fn shaping_maps_characters_and_advances() {
    let bytes = truetype_font_bytes();
    let mut buffer = Vec::new();
    let font = Font::new(&bytes, &mut buffer).unwrap();
    assert_eq!(font.metrics_for_glyph(1), Ok(HorizontalMetrics { advance_width: 600, lsb: 20 }));
    let mapping = font.glyph_mapping_for_codepoint_ranges(&[CodepointRange::new(0x41, 0x43)]).unwrap();
    let shaped = shape_text(&font, &mapping, "CAZB");
    let expected = [(3, 700), (1, 600), (0, 500), (2, 700)];
    assert_eq!(shaped.len(), 4);
    for (pos, (glyph_id, advance)) in shaped.iter().zip(expected) {
        assert_eq!(*pos, GlyphPos { glyph_id, advance });
    }
    assert!(shape_text(&font, &mapping, "").is_empty());
}

#[test]
fn glyph_buffers_pack_two_bit_operations() {
    let (glyf, loca) = glyf_and_loca();
    let head = HeadTable::new(FontTable { bytes: &head_table(0) }).unwrap();
    let loca = LocaTable::new(FontTable { bytes: &loca }).unwrap();
    let glyf = GlyfTable::new(FontTable { bytes: &glyf });
    let mut buffers = GlyphBuffers::new();
    assert_eq!(buffers.add_glyph(1, &head, &loca, &glyf), Ok(()));
    assert_eq!(buffers.coordinates, vec![(0, 0), (100, 0), (100, 100), (0, 100), (0, 0)]);
    // The fourth point fills a byte, which takes that point's operation; the fifth point's byte
    // is appended at the end.
    assert_eq!(buffers.operations, vec![1, 0b0101_0101]);
    // Five coordinates put the next point at index 2, in the pending byte taken back.
    assert_eq!(buffers.add_glyph(2, &head, &loca, &glyf), Ok(()));
    assert_eq!(buffers.coordinates.len(), 10);
    assert_eq!(buffers.operations, vec![1, 2, 221]);
    assert_eq!(buffers.add_glyph(0x1_0000, &head, &loca, &glyf), Err(()));
    assert_eq!(buffers.coordinates.len(), 10);
    assert!(buffers.descriptors.is_empty());
}
