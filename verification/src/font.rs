//! Fonts: finding the tables of a font in an OpenType file, a TrueType collection, a Mac
//! resource fork (`.dfont`) or a WOFF file, and the queries answered from them.

use vstd::prelude::*;

use crate::charmap::{CodepointRange, GlyphMapping};
use crate::error::FontError;
use crate::otf::cff::{bounds_of, cff_points_spec, cff_spec, lemma_cff_points_indexed, CffTable};
use crate::otf::cmap::{cmap_lookup_spec, CmapTable};
use crate::otf::glyf::{glyph_bounds_spec, glyph_points_partial, indices_ok, lemma_glyph_points_indexed, GlyfTable, Point};
use crate::otf::head::{head_spec, HeadTable};
use crate::otf::hhea::{hhea_spec, HheaTable};
use crate::otf::hmtx::{metrics_spec, HmtxTable, HorizontalMetrics};
use crate::otf::kern::{kern_lookup, kern_pair, kern_pair_count, kern_pairs_present, kern_pairs_sorted, kern_spec, KernTable};
use crate::otf::loca::LocaTable;
use crate::otf::os_2::{os_2_spec, Os2Table};
use crate::otf::FontTable;
use crate::outline::GlyphBounds;
use crate::util::{be_i16, be_u16, be_u32, fits, i16_at, pos_add, u16_at, u32_at};
use vstd::slice::slice_subrange;

verus! {

pub const CFF_TAG: u32 = 0x4346_4620;
pub const OS_2_TAG: u32 = 0x4f53_2f32;
pub const CMAP_TAG: u32 = 0x636d_6170;
pub const GLYF_TAG: u32 = 0x676c_7966;
pub const HEAD_TAG: u32 = 0x6865_6164;
pub const HHEA_TAG: u32 = 0x6868_6561;
pub const HMTX_TAG: u32 = 0x686d_7478;
pub const KERN_TAG: u32 = 0x6b65_726e;
pub const LOCA_TAG: u32 = 0x6c6f_6361;

/// The number of tables a font is made from.
pub const KNOWN_TABLE_COUNT: usize = 9;

pub const TABLE_INDEX_CFF: usize = 0;
pub const TABLE_INDEX_OS_2: usize = 1;
pub const TABLE_INDEX_CMAP: usize = 2;
pub const TABLE_INDEX_GLYF: usize = 3;
pub const TABLE_INDEX_HEAD: usize = 4;
pub const TABLE_INDEX_HHEA: usize = 5;
pub const TABLE_INDEX_HMTX: usize = 6;
pub const TABLE_INDEX_KERN: usize = 7;
pub const TABLE_INDEX_LOCA: usize = 8;

/// `true` as a 32-bit tag.
pub const TRUE_TAG: u32 = 0x7472_7565;
/// `OTTO` as a 32-bit tag.
pub const OTTO: u32 = 0x4f54_544f;

/// The slot of a table among the known tables, ordered by tag.
pub open spec fn known_index(tag: u32) -> Option<int> {
    if tag == CFF_TAG {
        Some(0)
    } else if tag == OS_2_TAG {
        Some(1)
    } else if tag == CMAP_TAG {
        Some(2)
    } else if tag == GLYF_TAG {
        Some(3)
    } else if tag == HEAD_TAG {
        Some(4)
    } else if tag == HHEA_TAG {
        Some(5)
    } else if tag == HMTX_TAG {
        Some(6)
    } else if tag == KERN_TAG {
        Some(7)
    } else if tag == LOCA_TAG {
        Some(8)
    } else {
        None
    }
}

/// Finds the slot of a table among the known tables (see `known_index`).
pub fn known_table_index(tag: u32) -> (r: Option<usize>)
    ensures
        match known_index(tag) {
            Some(i) => r == Some(i as usize),
            None => r is None,
        },
{
    if tag == CFF_TAG {
        Some(0)
    } else if tag == OS_2_TAG {
        Some(1)
    } else if tag == CMAP_TAG {
        Some(2)
    } else if tag == GLYF_TAG {
        Some(3)
    } else if tag == HEAD_TAG {
        Some(4)
    } else if tag == HHEA_TAG {
        Some(5)
    } else if tag == HMTX_TAG {
        Some(6)
    } else if tag == KERN_TAG {
        Some(7)
    } else if tag == LOCA_TAG {
        Some(8)
    } else {
        None
    }
}

/// True for the versions an OpenType font file starts with.
pub open spec fn sfnt_version_spec(v: u32) -> bool {
    v == 0x10000 || v == TRUE_TAG || v == OTTO
}

/// Whether `v` is one of the versions an OpenType font file starts with.
pub fn is_sfnt_version(v: u32) -> (r: bool)
    ensures
        r == sfnt_version_spec(v),
{
    v == 0x10000 || v == TRUE_TAG || v == OTTO
}

/// A handle to a font backed by a byte buffer containing the contents of the file (`.ttf`,
/// `.otf`), etc.
pub struct Font<'a> {
    pub bytes: &'a [u8],
    pub cmap: CmapTable<'a>,
    pub head: HeadTable,
    pub hhea: HheaTable,
    pub hmtx: HmtxTable<'a>,
    pub os_2: Os2Table,
    pub cff: Option<CffTable<'a>>,
    pub glyf: Option<GlyfTable<'a>>,
    pub loca: Option<LocaTable<'a>>,
    pub kern: Option<KernTable<'a>>,
}

/// The contents of the known tables found, by slot.
pub open spec fn table_views(tables: Seq<Option<FontTable>>) -> Seq<Option<Seq<u8>>> {
    tables.map_values(
        |t: Option<FontTable>|
            match t {
                None => None,
                Some(t) => Some(t.bytes@),
            },
    )
}

/// The first error in making a font from the given tables: a CFF table that does not parse;
/// then a missing or bad `cmap`, `head`, `hhea`, `hmtx` or `OS/2` table, in that order.
pub open spec fn table_list_error(t: Seq<Option<Seq<u8>>>) -> Option<FontError> {
    if t[TABLE_INDEX_CFF as int] is Some && cff_spec(t[TABLE_INDEX_CFF as int]->Some_0) is Err {
        Some(cff_spec(t[TABLE_INDEX_CFF as int]->Some_0)->Err_0)
    } else if t[TABLE_INDEX_CMAP as int] is None || t[TABLE_INDEX_HEAD as int] is None {
        Some(FontError::RequiredTableMissing)
    } else if head_spec(t[TABLE_INDEX_HEAD as int]->Some_0) is Err {
        Some(head_spec(t[TABLE_INDEX_HEAD as int]->Some_0)->Err_0)
    } else if t[TABLE_INDEX_HHEA as int] is None {
        Some(FontError::RequiredTableMissing)
    } else if hhea_spec(t[TABLE_INDEX_HHEA as int]->Some_0) is Err {
        Some(hhea_spec(t[TABLE_INDEX_HHEA as int]->Some_0)->Err_0)
    } else if t[TABLE_INDEX_HMTX as int] is None || t[TABLE_INDEX_OS_2 as int] is None {
        Some(FontError::RequiredTableMissing)
    } else if os_2_spec(t[TABLE_INDEX_OS_2 as int]->Some_0) is Err {
        Some(os_2_spec(t[TABLE_INDEX_OS_2 as int]->Some_0)->Err_0)
    } else {
        None
    }
}

/// True when a font was made from the tables `t`: each table parsed from its slot, the
/// optional ones present exactly when their slot is filled, and a `kern` table kept only when
/// it has a plain horizontal subtable.
pub open spec fn font_matches(f: Font, t: Seq<Option<Seq<u8>>>) -> bool {
    &&& f.cmap.table.bytes@ == t[TABLE_INDEX_CMAP as int]->Some_0
    &&& head_spec(t[TABLE_INDEX_HEAD as int]->Some_0) == Ok::<HeadTable, FontError>(f.head)
    &&& hhea_spec(t[TABLE_INDEX_HHEA as int]->Some_0) == Ok::<HheaTable, FontError>(f.hhea)
    &&& f.hmtx.table.bytes@ == t[TABLE_INDEX_HMTX as int]->Some_0
    &&& os_2_spec(t[TABLE_INDEX_OS_2 as int]->Some_0) == Ok::<Os2Table, FontError>(f.os_2)
    &&& match t[TABLE_INDEX_CFF as int] {
        None => f.cff is None,
        Some(c) => f.cff matches Some(ct) && ct.table.bytes@ == c && cff_spec(c) == Ok::<
            u32,
            FontError,
        >(ct.char_strings),
    }
    &&& match t[TABLE_INDEX_GLYF as int] {
        None => f.glyf is None,
        Some(g) => f.glyf matches Some(gt) && gt.table.bytes@ == g,
    }
    &&& match t[TABLE_INDEX_LOCA as int] {
        None => f.loca is None,
        Some(l) => f.loca matches Some(lt) && lt.table.bytes@ == l,
    }
    &&& match t[TABLE_INDEX_KERN as int] {
        None => f.kern is None,
        Some(k) => match kern_spec(k) {
            Err(_) => f.kern is None,
            Ok((start, len)) => f.kern matches Some(kt) && kt.horizontal() == k.subrange(
                start,
                start + len,
            ),
        },
    }
}

impl<'a> Font<'a> {
    /// Makes a font from its tables, by slot (see `table_list_error` and `font_matches`).
    pub fn from_table_list<'b>(bytes: &'b [u8], tables: &[Option<FontTable<'b>>; KNOWN_TABLE_COUNT])
        -> (r: Result<Font<'b>, FontError>)
        ensures
            match r {
                Ok(f) => table_list_error(table_views(tables@)) is None && f.bytes == bytes
                    && font_matches(f, table_views(tables@)),
                Err(e) => table_list_error(table_views(tables@)) == Some(e),
            },
    {
        let ghost t = table_views(tables@);
        assert(t.len() == 9);
        assert(forall|i: int| 0 <= i < 9 ==> (#[trigger] t[i] is None) == (tables@[i] is None));
        assert(forall|i: int| 0 <= i < 9 ==> tables@[i] is Some ==> (#[trigger] t[i])->Some_0 == tables@[i]->Some_0.bytes@);
        let cff_table = match tables[TABLE_INDEX_CFF] {
            None => None,
            Some(cff_table) => Some(CffTable::new(cff_table)?),
        };
        let loca_table = match tables[TABLE_INDEX_LOCA] {
            None => None,
            Some(loca_table) => Some(LocaTable::new(loca_table)?),
        };
        let cmap = match tables[TABLE_INDEX_CMAP] {
            None => {
                return Err(FontError::RequiredTableMissing);
            },
            Some(table) => CmapTable::new(table),
        };
        let head = match tables[TABLE_INDEX_HEAD] {
            None => {
                return Err(FontError::RequiredTableMissing);
            },
            Some(table) => HeadTable::new(table)?,
        };
        let hhea = match tables[TABLE_INDEX_HHEA] {
            None => {
                return Err(FontError::RequiredTableMissing);
            },
            Some(table) => HheaTable::new(table)?,
        };
        let hmtx = match tables[TABLE_INDEX_HMTX] {
            None => {
                return Err(FontError::RequiredTableMissing);
            },
            Some(table) => HmtxTable::new(table),
        };
        let os_2 = match tables[TABLE_INDEX_OS_2] {
            None => {
                return Err(FontError::RequiredTableMissing);
            },
            Some(table) => Os2Table::new(table)?,
        };
        let glyf = match tables[TABLE_INDEX_GLYF] {
            None => None,
            Some(table) => Some(GlyfTable::new(table)),
        };
        let kern = match tables[TABLE_INDEX_KERN] {
            None => None,
            Some(table) => match KernTable::new(table) {
                Ok(k) => Some(k),
                Err(_) => None,
            },
        };
        Ok(
            Font {
                bytes: bytes,
                cmap: cmap,
                head: head,
                hhea: hhea,
                hmtx: hmtx,
                os_2: os_2,
                cff: cff_table,
                glyf: glyf,
                loca: loca_table,
                kern: kern,
            },
        )
    }
}

/// The table directory entries from `pos` on, `left` of them, on top of the tables `acc`
/// found so far (as offset and length, by slot). A known table found twice, or one that runs
/// past the end of the data, is `Failed`; unknown tables are skipped.
pub open spec fn dir_scan(s: Seq<u8>, pos: int, left: int, acc: Seq<Option<(int, int)>>) -> Result<
    Seq<Option<(int, int)>>,
    FontError,
>
    decreases left,
{
    if left <= 0 {
        Ok(acc)
    } else if !fits(s, pos, 16) {
        Err(FontError::UnexpectedEof)
    } else {
        let off = be_u32(s, pos + 8) as int;
        let len = be_u32(s, pos + 12) as int;
        match known_index(be_u32(s, pos)) {
            None => dir_scan(s, pos + 16, left - 1, acc),
            Some(i) => if acc[i] is Some || off + len > s.len() {
                Err(FontError::Failed)
            } else {
                dir_scan(s, pos + 16, left - 1, acc.update(i, Some((off, len))))
            },
        }
    }
}

/// Scanning the directory keeps every table already found.
#[verifier::rlimit(40)]
proof fn lemma_dir_scan_keeps(s: Seq<u8>, pos: int, left: int, acc: Seq<Option<(int, int)>>)
    requires
        acc.len() == 9,
    ensures
        dir_scan(s, pos, left, acc) matches Ok(d) ==> d.len() == 9 && forall|j: int|
            0 <= j < 9 && (#[trigger] acc[j]) is Some ==> d[j] == acc[j],
    decreases left,
{
    if left > 0 && fits(s, pos, 16) {
        let off = be_u32(s, pos + 8) as int;
        let len = be_u32(s, pos + 12) as int;
        match known_index(be_u32(s, pos)) {
            None => lemma_dir_scan_keeps(s, pos + 16, left - 1, acc),
            Some(i) => {
                if !(acc[i] is Some || off + len > s.len()) {
                    let acc2 = acc.update(i, Some((off, len)));
                    lemma_dir_scan_keeps(s, pos + 16, left - 1, acc2);
                    assert forall|j: int| 0 <= j < 9 && (#[trigger] acc[j]) is Some implies acc2[j] == acc[j] by {}
                }
            },
        }
    }
}

/// The directory entry `k` (16 bytes at `pos + 16 * k`: tag, checksum, offset, length) of a
/// known table is what a successful scan gives for that table: the big-endian offset at bytes 8
/// to 11 of the entry and the length at bytes 12 to 15. The tags `CFF `, `OS/2`, `cmap`, `glyf`,
/// `head`, `hhea`, `hmtx`, `kern` and `loca`, spelled out in ASCII, are the known ones.
pub proof fn lemma_directory_entry(s: Seq<u8>, pos: int, left: int, acc: Seq<Option<(int, int)>>, k: int)
    requires
        acc.len() == 9,
        0 <= k < left,
    ensures
        known_index(0x43464620) == Some(0int) && known_index(0x4f532f32) == Some(1int) && known_index(
            0x636d6170,
        ) == Some(2int) && known_index(0x676c7966) == Some(3int) && known_index(0x68656164) == Some(
            4int,
        ) && known_index(0x68686561) == Some(5int) && known_index(0x686d7478) == Some(6int)
            && known_index(0x6b65726e) == Some(7int) && known_index(0x6c6f6361) == Some(8int),
        ({
            let e = pos + 16 * k;
            let tag = s[e] as int * 0x100_0000 + s[e + 1] as int * 0x1_0000 + s[e + 2] as int * 0x100
                + s[e + 3] as int;
            let off = s[e + 8] as int * 0x100_0000 + s[e + 9] as int * 0x1_0000 + s[e + 10] as int * 0x100
                + s[e + 11] as int;
            let len = s[e + 12] as int * 0x100_0000 + s[e + 13] as int * 0x1_0000 + s[e + 14] as int
                * 0x100 + s[e + 15] as int;
            dir_scan(s, pos, left, acc) is Ok ==> match known_index(tag as u32) {
                Some(i) => dir_scan(s, pos, left, acc)->Ok_0[i] == Some((off, len)),
                None => true,
            }
        }),
    decreases k,
{
    if fits(s, pos, 16) {
        let off = be_u32(s, pos + 8) as int;
        let len = be_u32(s, pos + 12) as int;
        if k == 0 {
            if let Some(i) = known_index(be_u32(s, pos)) {
                if !(acc[i] is Some || off + len > s.len()) {
                    let acc2 = acc.update(i, Some((off, len)));
                    lemma_dir_scan_keeps(s, pos + 16, left - 1, acc2);
                    assert(acc2[i] is Some);
                }
            }
        } else {
            match known_index(be_u32(s, pos)) {
                None => lemma_directory_entry(s, pos + 16, left - 1, acc, k - 1),
                Some(i) => {
                    lemma_directory_entry(s, pos + 16, left - 1, acc.update(i, Some((off, len))), k - 1);
                },
            }
            assert(pos + 16 + 16 * (k - 1) == pos + 16 * k);
        }
    }
}

/// No table found yet.
pub open spec fn no_tables() -> Seq<Option<(int, int)>> {
    Seq::new(9, |i: int| None)
}

/// The tables of the OpenType font whose header is at `offset`: a known version, the table
/// count, three words, and the table directory.
pub open spec fn otf_dir_spec(s: Seq<u8>, offset: int) -> Result<Seq<Option<(int, int)>>, FontError> {
    if !fits(s, offset, 4) {
        Err(FontError::UnexpectedEof)
    } else if !sfnt_version_spec(be_u32(s, offset)) {
        Err(FontError::UnknownFormat)
    } else if !fits(s, offset + 4, 8) {
        Err(FontError::UnexpectedEof)
    } else {
        dir_scan(s, offset + 12, be_u16(s, offset + 4) as int, no_tables())
    }
}

/// The contents of the tables found, by slot.
pub open spec fn dir_views(s: Seq<u8>, dir: Seq<Option<(int, int)>>) -> Seq<Option<Seq<u8>>> {
    dir.map_values(
        |e: Option<(int, int)>|
            match e {
                None => None,
                Some((o, l)) => Some(s.subrange(o, o + l)),
            },
    )
}

/// What making a font over the data `b` from the tables `t` gives, as `from_table_list`
/// states it.
pub open spec fn font_result(r: Result<Font, FontError>, b: Seq<u8>, t: Seq<Option<Seq<u8>>>) -> bool {
    match r {
        Ok(f) => table_list_error(t) is None && f.bytes@ == b && font_matches(f, t),
        Err(e) => table_list_error(t) == Some(e),
    }
}

/// What reading the OpenType font at `offset` of the data `b` gives.
#[verifier::opaque]
pub open spec fn otf_result(r: Result<Font, FontError>, b: Seq<u8>, offset: int) -> bool {
    match otf_dir_spec(b, offset) {
        Err(e) => r == Err::<Font, FontError>(e),
        Ok(dir) => font_result(r, b, dir_views(b, dir)),
    }
}

impl<'a> Font<'a> {
    /// Reads the OpenType font whose header is at `offset` (see `otf_dir_spec`).
    pub fn from_otf<'b>(bytes: &'b [u8], offset: u32) -> (r: Result<Font<'b>, FontError>)
        ensures
            otf_result(r, bytes@, offset as int),
    {
        reveal(otf_result);
        let ghost s = bytes@;
        let start = offset as usize;
        let magic_number = u32_at(bytes, start)?;
        if !is_sfnt_version(magic_number) {
            return Err(FontError::UnknownFormat);
        }
        if bytes.len() - start < 12 {
            return Err(FontError::UnexpectedEof);
        }
        let num_tables = u16_at(bytes, start + 4)?;
        let mut tables: [Option<FontTable<'b>>; KNOWN_TABLE_COUNT] = [None; KNOWN_TABLE_COUNT];
        let ghost mut acc = no_tables();
        assert(table_views(tables@) =~= dir_views(s, acc));
        let mut pos = start + 12;
        let mut left = num_tables;
        while left > 0
            invariant
                s == bytes@,
                pos <= bytes.len(),
                acc.len() == 9,
                table_views(tables@) == dir_views(s, acc),
                forall|i: int| 0 <= i < 9 ==> (#[trigger] tables@[i] is Some) == (acc[i] is Some),
                otf_dir_spec(s, offset as int) == dir_scan(s, pos as int, left as int, acc),
            decreases left,
        {
            proof {
                reveal(otf_result);
            }
            if bytes.len() - pos < 16 {
                return Err(FontError::UnexpectedEof);
            }
            let table_id = u32_at(bytes, pos)?;
            let table_offset = u32_at(bytes, pos + 8)?;
            let length = u32_at(bytes, pos + 12)?;
            match known_table_index(table_id) {
                None => {},
                Some(i) => {
                    if tables[i].is_some() {
                        return Err(FontError::Failed);
                    }
                    if table_offset as u64 + length as u64 > bytes.len() as u64 {
                        return Err(FontError::Failed);
                    }
                    let o = table_offset as usize;
                    let table = slice_subrange(bytes, o, o + length as usize);
                    let ghost old_tables = tables@;
                    let ghost old_acc = acc;
                    tables[i] = Some(FontTable { bytes: table });
                    proof {
                        acc = acc.update(i as int, Some((o as int, length as int)));
                    }
                    assert(tables@ == old_tables.update(i as int, Some(FontTable { bytes: table })));
                    assert forall|j: int| 0 <= j < 9 implies #[trigger] table_views(tables@)[j]
                        == dir_views(s, acc)[j] by {
                        if j != i {
                            assert(table_views(old_tables)[j] == dir_views(s, old_acc)[j]);
                        }
                    }
                    assert(table_views(tables@) =~= dir_views(s, acc));
                },
            }
            pos = pos + 16;
            left = left - 1;
        }
        Font::from_table_list(bytes, &tables)
    }
}

/// `wOFF` as a 32-bit tag.
pub const WOFF_MAGIC_NUMBER: u32 = 0x774f_4646;
/// `ttcf` as a 32-bit tag.
pub const TTC_MAGIC_NUMBER: u32 = 0x7474_6366;
/// The first word of a Mac resource fork holding fonts.
pub const DFONT_MAGIC_NUMBER: u32 = 0x100;
/// `sfnt` as a 32-bit tag.
pub const SFNT: u32 = 0x7366_6e74;

/// The first `len` bytes of the data of the zlib stream at the start of `src`, or `None` when
/// the stream ends or is malformed before that many.
pub uninterp spec fn zlib_prefix(src: Seq<u8>, len: nat) -> Option<Seq<u8>>;

/// `flate2::read::ZlibDecoder` over `src`, read with `Read::read_exact` into a buffer of `len`
/// bytes: the first `len` bytes of the decompressed data, or `None` when reading fails (the
/// stream is malformed or ends early). The result is named by `zlib_prefix`; its length is
/// `len`, as `read_exact` fills the whole buffer when it succeeds.
#[verifier::external_body]
fn zlib_read_exact(src: &[u8], len: usize) -> (r: Option<Vec<u8>>)
    ensures
        match r {
            Some(v) => zlib_prefix(src@, len as nat) == Some(v@) && v@.len() == len,
            None => zlib_prefix(src@, len as nat) is None,
        },
{
    let mut decoder = flate2::read::ZlibDecoder::new(src);
    let mut out = vec![0u8; len];
    match std::io::Read::read_exact(&mut decoder, &mut out) {
        Ok(()) => Some(out),
        Err(_) => None,
    }
}

/// `buf` with `d` written at `at`.
pub open spec fn write_at(buf: Seq<u8>, at: int, d: Seq<u8>) -> Seq<u8> {
    buf.subrange(0, at) + d + buf.subrange(at + d.len(), buf.len() as int)
}

/// The data of a WOFF table stored at `off`: the first `orig` bytes of the zlib stream there
/// when its stored length `comp` differs from `orig`, else the `comp` bytes themselves.
pub open spec fn woff_table_data(s: Seq<u8>, off: int, comp: int, orig: int) -> Result<Seq<u8>, FontError> {
    if comp != orig {
        if off > s.len() {
            Err(FontError::UnexpectedEof)
        } else {
            match zlib_prefix(s.skip(off), orig as nat) {
                None => Err(FontError::UnexpectedEof),
                Some(d) => Ok(d),
            }
        }
    } else if off + comp <= s.len() {
        Ok(s.subrange(off, off + comp))
    } else {
        Err(FontError::UnexpectedEof)
    }
}

/// Writes the data of a WOFF table (see `woff_table_data`) into `buffer` at `cursor`.
fn write_woff_table(bytes: &[u8], offset: u32, comp_length: u32, orig_length: u32, buffer: &mut Vec<u8>, cursor: usize) -> (r: Result<(), FontError>)
    requires
        cursor + orig_length <= old(buffer)@.len(),
    ensures
        match woff_table_data(bytes@, offset as int, comp_length as int, orig_length as int) {
            Ok(d) => r is Ok && final(buffer)@ == write_at(old(buffer)@, cursor as int, d) && d.len() == orig_length,
            Err(e) => r == Err::<(), FontError>(e) && final(buffer)@ == old(buffer)@,
        },
{
    if comp_length != orig_length {
        if offset as usize > bytes.len() {
            return Err(FontError::UnexpectedEof);
        }
        let src = slice_subrange(bytes, offset as usize, bytes.len());
        assert(src@ == bytes@.skip(offset as int));
        match zlib_read_exact(src, orig_length as usize) {
            None => Err(FontError::UnexpectedEof),
            Some(data) => {
                write_into(buffer, cursor, data.as_slice());
                Ok(())
            },
        }
    } else if offset as u64 + comp_length as u64 <= bytes.len() as u64 {
        let o = offset as usize;
        let src = slice_subrange(bytes, o, o + comp_length as usize);
        write_into(buffer, cursor, src);
        Ok(())
    } else {
        Err(FontError::UnexpectedEof)
    }
}

/// The WOFF table directory entries from `pos` on, `left` of them: each known table is
/// decompressed (or copied, when stored uncompressed) into the buffer `buf` at `cursor`, which
/// must leave room for it before `limit`. Gives the buffer and where each table went.
#[verifier::opaque]
pub open spec fn woff_scan(
    s: Seq<u8>,
    pos: int,
    left: int,
    cursor: int,
    limit: int,
    buf: Seq<u8>,
    acc: Seq<Option<(int, int)>>,
) -> Result<(Seq<u8>, Seq<Option<(int, int)>>), FontError>
    decreases left,
{
    if left <= 0 {
        Ok((buf, acc))
    } else if !fits(s, pos, 20) {
        Err(FontError::UnexpectedEof)
    } else {
        let off = be_u32(s, pos + 4) as int;
        let comp = be_u32(s, pos + 8) as int;
        let orig = be_u32(s, pos + 12) as int;
        match known_index(be_u32(s, pos)) {
            None => woff_scan(s, pos + 20, left - 1, cursor, limit, buf, acc),
            Some(i) => if acc[i] is Some || cursor + orig > limit {
                Err(FontError::Failed)
            } else {
                match woff_table_data(s, off, comp, orig) {
                    Err(e) => Err(e),
                    Ok(d) => woff_scan(
                        s,
                        pos + 20,
                        left - 1,
                        cursor + orig,
                        limit,
                        write_at(buf, cursor, d),
                        acc.update(i, Some((cursor, orig))),
                    ),
                }
            }
        }
    }
}

/// What reading a WOFF file gives, with `base` the buffer before: the buffer with room for the
/// whole font appended (the size stored at byte 16) and the tables decompressed into it, and
/// where each table went. The header is the magic number, a known flavor, the length, the
/// table count and a reserved word, the font size and six more words.
pub open spec fn woff_spec(s: Seq<u8>, base: Seq<u8>) -> Result<(Seq<u8>, Seq<Option<(int, int)>>), FontError> {
    if !fits(s, 0, 4) {
        Err(FontError::UnexpectedEof)
    } else if be_u32(s, 0) != WOFF_MAGIC_NUMBER {
        Err(FontError::UnknownFormat)
    } else if !fits(s, 4, 4) {
        Err(FontError::UnexpectedEof)
    } else if !sfnt_version_spec(be_u32(s, 4)) {
        Err(FontError::UnknownFormat)
    } else if !fits(s, 8, 36) {
        Err(FontError::UnexpectedEof)
    } else {
        let total = be_u32(s, 16) as int;
        woff_scan(
            s,
            44,
            be_u16(s, 12) as int,
            base.len() as int,
            base.len() + total,
            base + Seq::new(total as nat, |i: int| 0u8),
            no_tables(),
        )
    }
}

/// What `from_woff` gives, with `base` the buffer before and `fin` after.
pub open spec fn woff_result(r: Result<Font, FontError>, bytes: Seq<u8>, base: Seq<u8>, fin: Seq<u8>) -> bool {
    &&& fin.len() >= base.len()
    &&& fin.subrange(0, base.len() as int) == base
    &&& match woff_spec(bytes, base) {
        Err(e) => r == Err::<Font, FontError>(e),
        Ok((buf, dir)) => fin == buf && font_result(r, bytes, dir_views(buf, dir)),
    }
}

/// Writes `d` into `buffer` at `at`.
fn write_into(buffer: &mut Vec<u8>, at: usize, d: &[u8])
    requires
        at + d@.len() <= old(buffer)@.len(),
    ensures
        final(buffer)@ == write_at(old(buffer)@, at as int, d@),
{
    let ghost b0 = buffer@;
    let mut k: usize = 0;
    while k < d.len()
        invariant
            at + d@.len() <= b0.len(),
            buffer@.len() == b0.len(),
            at + d@.len() <= buffer.len(),
            k <= d@.len(),
            forall|j: int| 0 <= j < b0.len() ==> #[trigger] buffer@[j] == if at <= j < at + k {
                d@[j - at]
            } else {
                b0[j]
            },
        decreases d.len() - k,
    {
        buffer[at + k] = d[k];
        k = k + 1;
    }
    assert forall|j: int| 0 <= j < b0.len() implies #[trigger] buffer@[j] == write_at(
        b0,
        at as int,
        d@,
    )[j] by {
        if j < at {
        } else if j < at + d@.len() {
        } else {
        }
    }
    assert(buffer@ =~= write_at(b0, at as int, d@));
}

impl<'a> Font<'a> {
    /// Reads a font from a WOFF file, decompressing its tables eagerly into `buffer` (see
    /// `woff_spec`).
    #[verifier::rlimit(50)]
    pub fn from_woff<'b>(bytes: &'b [u8], buffer: &'b mut Vec<u8>) -> (r: Result<Font<'b>, FontError>)
        ensures
            woff_result(r, bytes@, old(buffer)@, final(buffer)@),
    {
        reveal(woff_scan);
        let ghost s = bytes@;
        let ghost base = buffer@;
        assert(base.subrange(0, base.len() as int) =~= base);
        let magic_number = u32_at(bytes, 0)?;
        if magic_number != WOFF_MAGIC_NUMBER {
            return Err(FontError::UnknownFormat);
        }
        let flavor = u32_at(bytes, 4)?;
        if !is_sfnt_version(flavor) {
            return Err(FontError::UnknownFormat);
        }
        if bytes.len() < 44 {
            return Err(FontError::UnexpectedEof);
        }
        let num_tables = u16_at(bytes, 12)?;
        let total_sfnt_size = u32_at(bytes, 16)?;

        // Allocate room for the uncompressed tables.
        let buffer_start = buffer.len();
        let mut k: u32 = 0;
        while k < total_sfnt_size
            invariant
                buffer@ == base + Seq::new(k as nat, |i: int| 0u8),
                k <= total_sfnt_size,
            decreases total_sfnt_size - k,
        {
            buffer.push(0);
            k = k + 1;
            assert(buffer@ =~= base + Seq::new(k as nat, |i: int| 0u8));
        }
        let limit = buffer.len();

        // Decompress and load the tables.
        let mut ranges: [Option<(usize, usize)>; KNOWN_TABLE_COUNT] = [None; KNOWN_TABLE_COUNT];
        let ghost mut acc = no_tables();
        let mut cursor = buffer_start;
        let mut pos: usize = 44;
        let mut left = num_tables;
        assert(buffer@.subrange(0, base.len() as int) =~= base);
        while left > 0
            invariant
                s == bytes@,
                44 <= pos <= bytes.len(),
                acc.len() == 9,
                buffer_start <= cursor <= limit == buffer@.len(),
                buffer_start == base.len(),
                buffer@.subrange(0, base.len() as int) == base,
                forall|i: int|
                    0 <= i < 9 ==> match #[trigger] acc[i] {
                        None => ranges@[i] is None,
                        Some((c, l)) => ranges@[i] == Some((c as usize, l as usize)) && 0 <= c
                            && 0 <= l && c + l <= limit,
                    },
                woff_spec(s, base) == woff_scan(s, pos as int, left as int, cursor as int, limit as int, buffer@, acc),
                base == old(buffer)@,
            decreases left,
        {
            proof {
                reveal(woff_scan);
            }
            if bytes.len() - pos < 20 {
                return Err(FontError::UnexpectedEof);
            }
            let tag = u32_at(bytes, pos)?;
            let offset = u32_at(bytes, pos + 4)?;
            let comp_length = u32_at(bytes, pos + 8)?;
            let orig_length = u32_at(bytes, pos + 12)?;
            match known_table_index(tag) {
                None => {},
                Some(i) => {
                    if ranges[i].is_some() {
                        return Err(FontError::Failed);
                    }
                    if orig_length as usize > limit - cursor {
                        return Err(FontError::Failed);
                    }
                    let orig = orig_length as usize;
                    write_woff_table(bytes, offset, comp_length, orig_length, buffer, cursor)?;
                    ranges[i] = Some((cursor, orig));
                    proof {
                        acc = acc.update(i as int, Some((cursor as int, orig as int)));
                    }
                    assert(buffer@.subrange(0, base.len() as int) =~= base);
                    cursor = cursor + orig;
                },
            }
            pos = pos + 20;
            left = left - 1;
        }

        // Hand the tables out from the filled buffer.
        let ghost fin = buffer@;
        let filled: &'b Vec<u8> = buffer;
        let data = filled.as_slice();
        let mut tables: [Option<FontTable<'b>>; KNOWN_TABLE_COUNT] = [None; KNOWN_TABLE_COUNT];
        let mut j: usize = 0;
        while j < KNOWN_TABLE_COUNT
            invariant
                j <= 9,
                data@ == fin,
                data.len() == fin.len(),
                acc.len() == 9,
                forall|i: int|
                    #![trigger acc[i]]
                    #![trigger ranges@[i]]
                    0 <= i < 9 ==> match acc[i] {
                        None => ranges@[i] is None,
                        Some((c, l)) => ranges@[i] == Some((c as usize, l as usize)) && 0 <= c
                            && 0 <= l && c + l <= fin.len(),
                    },
                forall|i: int|
                    0 <= i < 9 ==> (#[trigger] table_views(tables@)[i]) == if i < j {
                        dir_views(fin, acc)[i]
                    } else {
                        None
                    },
            decreases 9 - j,
        {
            let ghost old_tables = tables@;
            if let Some((c, l)) = ranges[j] {
                let t = slice_subrange(data, c, c + l);
                tables[j] = Some(FontTable { bytes: t });
                assert(tables@ == old_tables.update(j as int, Some(FontTable { bytes: t })));
            }
            assert forall|i: int| 0 <= i < 9 implies (#[trigger] table_views(tables@)[i]) == if i < j + 1 {
                dir_views(fin, acc)[i]
            } else {
                None
            } by {
                if i != j {
                    assert(table_views(old_tables)[i] == table_views(tables@)[i]);
                }
            }
            j = j + 1;
        }
        assert(table_views(tables@) =~= dir_views(fin, acc));
        Font::from_table_list(bytes, &tables)
    }
}

/// The offset of font `index` of a TrueType collection: the `ttcf` tag, version 1.0 or 2.0,
/// the font count, and the offsets of the fonts.
pub open spec fn ttc_spec(s: Seq<u8>, index: u32) -> Result<u32, FontError> {
    if !fits(s, 0, 4) {
        Err(FontError::UnexpectedEof)
    } else if be_u32(s, 0) != TTC_MAGIC_NUMBER {
        Err(FontError::UnknownFormat)
    } else if !fits(s, 4, 4) {
        Err(FontError::UnexpectedEof)
    } else if (be_u16(s, 4) != 1 && be_u16(s, 4) != 2) || be_u16(s, 6) != 0 {
        Err(FontError::UnsupportedVersion)
    } else if !fits(s, 8, 4) {
        Err(FontError::UnexpectedEof)
    } else if index >= be_u32(s, 8) {
        Err(FontError::FontIndexOutOfBounds)
    } else if !fits(s, 12 + 4 * index, 4) {
        Err(FontError::UnexpectedEof)
    } else {
        Ok(be_u32(s, 12 + 4 * index))
    }
}

/// A TrueType collection header (the tag `ttcf`, then major version 1 or 2 and minor version 0,
/// then the font count) is accepted: font `index` of the count is the font at the offset listed
/// for it, read as an OpenType font from the collection's bytes. Any other version is refused
/// as unsupported.
pub proof fn lemma_collection_versions(s: Seq<u8>, index: u32, r: Result<Font, FontError>, base: Seq<u8>, fin: Seq<u8>)
    requires
        s.len() >= 12,
        s[0] == 0x74 && s[1] == 0x74 && s[2] == 0x63 && s[3] == 0x66,
    ensures
        (s[4] == 0 && (s[5] == 1 || s[5] == 2) && s[6] == 0 && s[7] == 0 && (index as int) < s[8] as int
            * 0x100_0000 + s[9] as int * 0x1_0000 + s[10] as int * 0x100 + s[11] as int && 12 + 4
            * index + 4 <= s.len()) ==> {
            let at = 12 + 4 * index;
            let offset = s[at] as int * 0x100_0000 + s[at + 1] as int * 0x1_0000 + s[at + 2] as int
                * 0x100 + s[at + 3] as int;
            collection_result(r, s, index, base, fin) <==> (fin == base && otf_result(r, s, offset))
        },
        !(s[4] == 0 && (s[5] == 1 || s[5] == 2) && s[6] == 0 && s[7] == 0) ==> (collection_result(
            r,
            s,
            index,
            base,
            fin,
        ) <==> (fin == base && r == Err::<Font, FontError>(FontError::UnsupportedVersion))),
{
    assert(be_u32(s, 0) == TTC_MAGIC_NUMBER);
    assert(be_u32(s, 0) != WOFF_MAGIC_NUMBER);
    assert(be_u32(s, 0) != DFONT_MAGIC_NUMBER);
}

/// The resource types from `pos` on, `left` of them: the count and list offset of the `sfnt`
/// resources, if that type is listed.
#[verifier::opaque]
pub open spec fn type_scan(s: Seq<u8>, pos: int, left: int) -> Result<Option<(u16, u16)>, FontError>
    decreases left,
{
    if left <= 0 {
        Ok(None)
    } else if !fits(s, pos, 8) {
        Err(FontError::UnexpectedEof)
    } else if be_u32(s, pos) == SFNT {
        Ok(Some((be_u16(s, pos + 4), be_u16(s, pos + 6))))
    } else {
        type_scan(s, pos + 8, left - 1)
    }
}

/// The number of resource types given the stored count minus one.
pub open spec fn type_count(stored: i16) -> int {
    ((stored + 1) as i16) as usize as int
}

/// Where the data of font `index` of a Mac resource fork lies, and its size: the resource
/// header gives the data and map offsets; the map gives the type list, whose `sfnt` entry
/// gives the resource list; the resource's data offset (its low 24 bits) points at the size
/// and data of the font.
pub open spec fn dfont_spec(s: Seq<u8>, index: u32) -> Result<(int, int), FontError> {
    if !fits(s, 0, 16) {
        Err(FontError::UnexpectedEof)
    } else {
        let data_offset = be_u32(s, 0) as int;
        let map_offset = be_u32(s, 4) as int;
        if !fits(s, map_offset + 24, 4) {
            Err(FontError::UnexpectedEof)
        } else {
            let types = map_offset + be_u16(s, map_offset + 24);
            if !fits(s, types, 2) {
                Err(FontError::UnexpectedEof)
            } else if be_i16(s, types) == 0x7fff {
                Err(FontError::Failed)
            } else {
                match type_scan(s, types + 2, type_count(be_i16(s, types))) {
                    Err(e) => Err(e),
                    Ok(None) => Err(FontError::Failed),
                    Ok(Some((count, list_offset))) => {
                        let list = types + list_offset;
                        if list > s.len() {
                            Err(FontError::UnexpectedEof)
                        } else if index >= count + 1 {
                            Err(FontError::FontIndexOutOfBounds)
                        } else if !fits(s, list + 12 * index, 12) {
                            Err(FontError::UnexpectedEof)
                        } else {
                            let font = data_offset + (be_u32(s, list + 12 * index + 4)
                                & 0x00ff_ffff) as int;
                            if !fits(s, font, 4) {
                                Err(FontError::UnexpectedEof)
                            } else if font + 4 + be_u32(s, font) > s.len() {
                                Err(FontError::Failed)
                            } else {
                                Ok((font + 4, be_u32(s, font) as int))
                            }
                        }
                    },
                }
            }
        }
    }
}

/// What `from_collection_index` gives, with `base` the buffer before and `fin` after: the
/// format is told by the first word (a collection, WOFF, a resource fork or a plain OpenType
/// font); only WOFF uses the buffer.
pub open spec fn collection_result(
    r: Result<Font, FontError>,
    s: Seq<u8>,
    index: u32,
    base: Seq<u8>,
    fin: Seq<u8>,
) -> bool {
    if !fits(s, 0, 4) {
        r == Err::<Font, FontError>(FontError::UnexpectedEof) && fin == base
    } else if be_u32(s, 0) == TTC_MAGIC_NUMBER {
        fin == base && match ttc_spec(s, index) {
            Err(e) => r == Err::<Font, FontError>(e),
            Ok(offset) => otf_result(r, s, offset as int),
        }
    } else if be_u32(s, 0) == WOFF_MAGIC_NUMBER {
        woff_result(r, s, base, fin)
    } else if be_u32(s, 0) == DFONT_MAGIC_NUMBER {
        fin == base && match dfont_spec(s, index) {
            Err(e) => r == Err::<Font, FontError>(e),
            Ok((start, size)) => otf_result(r, s.subrange(start, start + size), 0),
        }
    } else if sfnt_version_spec(be_u32(s, 0)) {
        fin == base && otf_result(r, s, 0)
    } else {
        fin == base && r == Err::<Font, FontError>(FontError::UnknownFormat)
    }
}

/// Scans `count` resource types from `pos` for the `sfnt` type (see `type_scan`).
fn find_sfnt_type(bytes: &[u8], pos: usize, count: usize) -> (r: Result<Option<(u16, u16)>, FontError>)
    ensures
        r == type_scan(bytes@, pos as int, count as int),
{
    let mut p = pos;
    let mut k: usize = 0;
    while k < count
        invariant
            k <= count,
            type_scan(bytes@, pos as int, count as int) == type_scan(bytes@, p as int, count - k),
        decreases count - k,
    {
        proof {
            reveal(type_scan);
        }
        if p > bytes.len() || bytes.len() - p < 8 {
            return Err(FontError::UnexpectedEof);
        }
        let type_id = u32_at(bytes, p)?;
        let resource_count = u16_at(bytes, p + 4)?;
        let resource_list_offset = u16_at(bytes, p + 6)?;
        if type_id == SFNT {
            return Ok(Some((resource_count, resource_list_offset)));
        }
        p = p + 8;
        k = k + 1;
    }
    proof {
        reveal(type_scan);
    }
    Ok(None)
}

impl<'a> Font<'a> {
    /// Reads font `index` of a TrueType collection (see `ttc_spec`).
    pub fn from_ttc_index<'b>(bytes: &'b [u8], index: u32) -> (r: Result<Font<'b>, FontError>)
        ensures
            match ttc_spec(bytes@, index) {
                Err(e) => r == Err::<Font, FontError>(e),
                Ok(offset) => otf_result(r, bytes@, offset as int),
            },
    {
        let magic_number = u32_at(bytes, 0)?;
        if magic_number != TTC_MAGIC_NUMBER {
            return Err(FontError::UnknownFormat);
        }
        let major_version = u16_at(bytes, 4)?;
        let minor_version = u16_at(bytes, 6)?;
        if (major_version != 1 && major_version != 2) || minor_version != 0 {
            return Err(FontError::UnsupportedVersion);
        }
        let num_fonts = u32_at(bytes, 8)?;
        if index >= num_fonts {
            return Err(FontError::FontIndexOutOfBounds);
        }
        if 4 * (index as u64) + 16 > bytes.len() as u64 {
            return Err(FontError::UnexpectedEof);
        }
        let table_offset = u32_at(bytes, 12 + 4 * (index as usize))?;
        Font::from_otf(bytes, table_offset)
    }

    /// Reads font `index` of a Mac resource fork (see `dfont_spec`).
    pub fn from_dfont_index<'b>(bytes: &'b [u8], index: u32) -> (r: Result<Font<'b>, FontError>)
        ensures
            match dfont_spec(bytes@, index) {
                Err(e) => r == Err::<Font, FontError>(e),
                Ok((start, size)) => otf_result(r, bytes@.subrange(start, start + size), 0),
            },
    {
        let ghost s = bytes@;
        // Read the Mac resource file header.
        if bytes.len() < 16 {
            return Err(FontError::UnexpectedEof);
        }
        let resource_data_offset = u32_at(bytes, 0)?;
        let resource_map_offset = u32_at(bytes, 4)?;

        // Read the type list and name list offsets.
        let map = resource_map_offset as usize;
        let type_list_offset = u16_at(bytes, pos_add(map, 24))?;
        let _name_list_offset = u16_at(bytes, pos_add(map, 26))?;

        // Find the 'sfnt' type.
        let types = pos_add(map, type_list_offset as usize);
        let stored_count = i16_at(bytes, types)?;
        if stored_count == 0x7fff {
            return Err(FontError::Failed);
        }
        let next_count: i16 = stored_count + 1;
        let type_count_value: usize = next_count as usize;
        assert(type_count_value as int == type_count(stored_count));
        let (resource_count, resource_list_offset) = match find_sfnt_type(bytes, types + 2, type_count_value)? {
            None => {
                return Err(FontError::Failed);
            },
            Some(f) => f,
        };
        if resource_list_offset as usize > bytes.len() - types {
            return Err(FontError::UnexpectedEof);
        }
        let list = types + resource_list_offset as usize;

        // Check whether the index is in bounds.
        if index as u64 >= resource_count as u64 + 1 {
            return Err(FontError::FontIndexOutOfBounds);
        }

        // Find the font we're interested in.
        if (bytes.len() - list) as u64 / 12 < index as u64 || (bytes.len() - list) as u64 - 12 * (index as u64) < 12 {
            return Err(FontError::UnexpectedEof);
        }
        let entry = list + 12 * (index as usize);
        let sfnt_data_offset = u32_at(bytes, entry + 4)? & 0x00ff_ffff;

        // Load the resource.
        let font = pos_add(resource_data_offset as usize, sfnt_data_offset as usize);
        let sfnt_size = u32_at(bytes, font)?;
        if sfnt_size as usize > bytes.len() - (font + 4) {
            return Err(FontError::Failed);
        }
        let data = slice_subrange(bytes, font + 4, font + 4 + sfnt_size as usize);
        Font::from_otf(data, 0)
    }

    /// Creates a new font from a single font within a byte buffer containing the contents of a
    /// file or a font collection (`.ttf`, `.ttc`, `.otf`, `.dfont`, `.woff`); see
    /// `collection_result`. A WOFF file is decompressed into `buffer`.
    pub fn from_collection_index<'b>(bytes: &'b [u8], index: u32, buffer: &'b mut Vec<u8>)
        -> (r: Result<Font<'b>, FontError>)
        ensures
            collection_result(r, bytes@, index, old(buffer)@, final(buffer)@),
    {
        let magic_number = u32_at(bytes, 0)?;
        if magic_number == TTC_MAGIC_NUMBER {
            Font::from_ttc_index(bytes, index)
        } else if magic_number == WOFF_MAGIC_NUMBER {
            Font::from_woff(bytes, buffer)
        } else if magic_number == DFONT_MAGIC_NUMBER {
            Font::from_dfont_index(bytes, index)
        } else if is_sfnt_version(magic_number) {
            Font::from_otf(bytes, 0)
        } else {
            Err(FontError::UnknownFormat)
        }
    }

    /// Creates a new font from a byte buffer containing the contents of a file or font
    /// collection; for a collection, its first font.
    pub fn new<'b>(bytes: &'b [u8], buffer: &'b mut Vec<u8>) -> (r: Result<Font<'b>, FontError>)
        ensures
            collection_result(r, bytes@, 0, old(buffer)@, final(buffer)@),
    {
        Font::from_collection_index(bytes, 0, buffer)
    }
}

/// The points of a glyph's outline as they are decoded (also those decoded before an error),
/// from the `glyf` table (which needs the `loca` table) or from the `CFF ` table, and whether
/// decoding succeeded; none when the font has neither table, `Failed` when it has both.
pub open spec fn font_points_partial(f: Font, glyph_id: u16) -> (Seq<Point>, Result<(), FontError>) {
    match (f.glyf, f.cff) {
        (Some(g), None) => match f.loca {
            None => (Seq::empty(), Err(FontError::RequiredTableMissing)),
            Some(l) => glyph_points_partial(
                g.table.bytes@,
                l.table.bytes@,
                f.head.index_to_loc_format,
                glyph_id,
            ),
        },
        (None, Some(c)) => cff_points_spec(c.table.bytes@, c.char_strings, glyph_id),
        (Some(_), Some(_)) => (Seq::empty(), Err(FontError::Failed)),
        (None, None) => (Seq::empty(), Ok(())),
    }
}

/// What `for_each_point` gives for a font: the points of the glyph's outline when decoding
/// succeeds (see `font_points_partial`).
pub open spec fn font_points_spec(f: Font, glyph_id: u16) -> Result<Seq<Point>, FontError> {
    let (pts, st) = font_points_partial(f, glyph_id);
    match st {
        Ok(_) => Ok(pts),
        Err(e) => Err(e),
    }
}

/// What `glyph_bounds` gives for a font: the bounds from the `glyf` table (which needs the
/// `loca` table) or from the `CFF ` table; `RequiredTableMissing` when the font has neither,
/// `Failed` when it has both.
pub open spec fn font_bounds_spec(f: Font, glyph_id: u16) -> Result<GlyphBounds, FontError> {
    match (f.glyf, f.cff) {
        (Some(g), None) => match f.loca {
            None => Err(FontError::RequiredTableMissing),
            Some(l) => glyph_bounds_spec(
                g.table.bytes@,
                l.table.bytes@,
                f.head.index_to_loc_format,
                glyph_id,
            ),
        },
        (None, Some(c)) => {
            let (pts, st) = cff_points_spec(c.table.bytes@, c.char_strings, glyph_id);
            if st == Err::<(), FontError>(FontError::Failed) {
                Err(FontError::Failed)
            } else {
                Ok(bounds_of(pts))
            }
        },
        (Some(_), Some(_)) => Err(FontError::Failed),
        (None, None) => Err(FontError::RequiredTableMissing),
    }
}

impl<'a> Font<'a> {
    /// Returns the glyph IDs that map to the given ranges of Unicode codepoints, in the same
    /// order as the codepoints.
    pub fn glyph_mapping_for_codepoint_ranges(&self, codepoint_ranges: &[CodepointRange])
        -> (r: Result<GlyphMapping, FontError>)
        ensures
            match cmap_lookup_spec(self.cmap.table.bytes@, codepoint_ranges@) {
                Ok(x) => r matches Ok(g) && g.ranges() == x,
                Err(e) => r matches Err(e2) && e2 == e,
            },
    {
        self.cmap.glyph_mapping_for_codepoint_ranges(codepoint_ranges)
    }

    /// Appends the points of the outline of a glyph to `out`, also when decoding fails midway
    /// (see `font_points_partial`).
    pub fn push_points(&self, glyph_id: u16, out: &mut Vec<Point>) -> (r: Result<(), FontError>)
        ensures
            final(out)@ == old(out)@ + font_points_partial(*self, glyph_id).0,
            r == font_points_partial(*self, glyph_id).1,
    {
        let ghost base = out@;
        assert(base =~= base + Seq::<Point>::empty());
        match (self.glyf, self.cff) {
            (Some(glyf), None) => {
                let loca = match self.loca {
                    Some(ref loca) => loca,
                    None => {
                        return Err(FontError::RequiredTableMissing);
                    },
                };
                glyf.push_points(&self.head, loca, glyph_id, out)
            },
            (None, Some(cff)) => cff.push_points(glyph_id, out),
            (Some(_), Some(_)) => Err(FontError::Failed),
            (None, None) => Ok(()),
        }
    }

    /// Returns the points of the outline of a glyph, contour by contour (see
    /// `font_points_spec`).
    pub fn for_each_point(&self, glyph_id: u16) -> (r: Result<Vec<Point>, FontError>)
        ensures
            match r {
                Ok(v) => font_points_spec(*self, glyph_id) == Ok::<Seq<Point>, FontError>(v@),
                Err(e) => font_points_spec(*self, glyph_id) == Err::<Seq<Point>, FontError>(e),
            },
    {
        let mut points = Vec::new();
        self.push_points(glyph_id, &mut points)?;
        assert(points@ =~= font_points_partial(*self, glyph_id).0);
        Ok(points)
    }

    /// Returns the boundaries of the given glyph in font units (see `font_bounds_spec`).
    pub fn glyph_bounds(&self, glyph_id: u16) -> (r: Result<GlyphBounds, FontError>)
        ensures
            r == font_bounds_spec(*self, glyph_id),
    {
        match (self.glyf, self.cff) {
            (Some(glyf), None) => {
                let loca = match self.loca {
                    Some(ref loca) => loca,
                    None => {
                        return Err(FontError::RequiredTableMissing);
                    },
                };
                glyf.glyph_bounds(&self.head, loca, glyph_id)
            },
            (None, Some(cff)) => cff.glyph_bounds(glyph_id),
            (Some(_), Some(_)) => Err(FontError::Failed),
            (None, None) => Err(FontError::RequiredTableMissing),
        }
    }

    /// Returns the number of font units per em.
    pub fn units_per_em(&self) -> (r: u16)
        ensures
            r == self.head.units_per_em,
    {
        self.head.units_per_em
    }

    /// Returns the horizontal metrics for the glyph with the given ID.
    ///
    /// Horizontal metrics are important for text shaping, as they specify the number of units to
    /// advance the pen after typesetting a glyph.
    pub fn metrics_for_glyph(&self, glyph_id: u16) -> (r: Result<HorizontalMetrics, FontError>)
        ensures
            r == metrics_spec(self.hmtx.table.bytes@, self.hhea.number_of_h_metrics, glyph_id),
    {
        self.hmtx.metrics_for_glyph(&self.hhea, glyph_id)
    }

    /// Returns the kerning between the given two glyph IDs in font units: the value of the
    /// pair in the font's horizontal kerning subtable, or zero when there is no such table or
    /// pair.
    pub fn kerning_for_glyph_pair(&self, left_glyph_id: u16, right_glyph_id: u16) -> (r: i16)
        ensures
            self.kern is None ==> r == 0,
            self.kern matches Some(k) ==> r == match kern_lookup(
                k.horizontal(),
                left_glyph_id,
                right_glyph_id,
            ) {
                Ok(v) => v,
                Err(_) => 0,
            },
            self.kern matches Some(k) ==> (r == 0 || exists|i: int|
                0 <= i < kern_pair_count(k.horizontal()) && #[trigger] kern_pair(k.horizontal(), i)
                    == (left_glyph_id, right_glyph_id, r)),
            self.kern matches Some(k) ==> kern_pairs_present(k.horizontal()) && kern_pairs_sorted(
                k.horizontal(),
            ) ==> forall|i: int|
                0 <= i < kern_pair_count(k.horizontal()) && (#[trigger] kern_pair(
                    k.horizontal(),
                    i,
                )).0 == left_glyph_id && kern_pair(k.horizontal(), i).1 == right_glyph_id ==> r
                    == kern_pair(k.horizontal(), i).2,
    {
        match self.kern {
            None => 0,
            Some(kern) => match kern.kerning_for_glyph_pair(left_glyph_id, right_glyph_id) {
                Ok(v) => v,
                Err(_) => 0,
            },
        }
    }

    /// Returns the distance from the baseline to the top of the text box in font units.
    pub fn ascender(&self) -> (r: i16)
        ensures
            r == self.os_2.typo_ascender,
    {
        self.os_2.typo_ascender
    }

    /// Returns the distance from the baseline to the bottom of the text box in font units.
    pub fn descender(&self) -> (r: i16)
        ensures
            r == self.os_2.typo_descender,
    {
        self.os_2.typo_descender
    }

    /// Returns the recommended extra gap between lines in font units.
    pub fn line_gap(&self) -> (r: i16)
        ensures
            r == self.os_2.typo_line_gap,
    {
        self.os_2.typo_line_gap
    }
}

/// The points of a glyph of a font come contour by contour: each has index 0 in its contour,
/// which starts a new contour, or the index of the point before it plus one. This holds of the
/// points decoded before an error too.
pub proof fn lemma_font_points_indexed(f: Font, glyph_id: u16)
    ensures
        indices_ok(font_points_partial(f, glyph_id).0),
{
    match (f.glyf, f.cff) {
        (Some(g), None) => match f.loca {
            None => {},
            Some(l) => {
                lemma_glyph_points_indexed(
                    g.table.bytes@,
                    l.table.bytes@,
                    f.head.index_to_loc_format,
                    glyph_id,
                );
            },
        },
        (None, Some(c)) => {
            lemma_cff_points_indexed(c.table.bytes@, c.char_strings, glyph_id);
        },
        _ => {},
    }
}

} // verus!
