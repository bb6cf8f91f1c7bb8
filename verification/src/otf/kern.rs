//! The kerning table (`kern`).

use vstd::prelude::*;
use vstd::slice::slice_subrange;

use crate::error::FontError;
use crate::otf::FontTable;
use crate::util::{be_i16, be_u16, fits, i16_at, u16_at};

verus! {

/// Coverage bit: the subtable holds horizontal kerning.
pub const HORIZONTAL: u16 = 1;
/// Coverage bit: the subtable holds minimum values.
pub const MINIMUM: u16 = 2;
/// Coverage bit: the subtable holds cross-stream kerning.
pub const CROSS_STREAM: u16 = 4;

#[derive(Clone, Copy, Debug)]
pub struct KernTable<'a> {
    horizontal_table: &'a [u8],
}

/// True for a subtable coverage word of a plain horizontal kerning subtable of format 0.
pub open spec fn is_plain_horizontal(coverage: u16) -> bool {
    coverage % 2 == 1 && (coverage / 2) % 2 == 0 && (coverage / 4) % 2 == 0 && coverage / 256
        == 0
}

/// The search for the first plain horizontal subtable, starting with the subtable at `pos`
/// with `left` subtables to go: the start and length of the chosen subtable's data (after its
/// six-byte header).
pub open spec fn find_horizontal(s: Seq<u8>, pos: int, left: int) -> Result<(int, int), FontError>
    decreases left,
{
    if left <= 0 {
        Err(FontError::UnknownFormat)
    } else if !fits(s, pos, 6) {
        Err(FontError::UnexpectedEof)
    } else {
        let length = be_u16(s, pos + 2) as int;
        if is_plain_horizontal(be_u16(s, pos + 4)) {
            if length < 6 || pos + length > s.len() {
                Err(FontError::UnexpectedEof)
            } else {
                Ok((pos + 6, length - 6))
            }
        } else if pos + length > s.len() {
            Err(FontError::UnexpectedEof)
        } else {
            find_horizontal(s, pos + length, left - 1)
        }
    }
}

/// What `KernTable::new` finds: version 0, then the first plain horizontal subtable among
/// those listed.
pub open spec fn kern_spec(s: Seq<u8>) -> Result<(int, int), FontError> {
    if s.len() < 2 {
        Err(FontError::UnexpectedEof)
    } else if be_u16(s, 0) != 0 {
        Err(FontError::UnknownFormat)
    } else if s.len() < 4 {
        Err(FontError::UnexpectedEof)
    } else {
        find_horizontal(s, 4, be_u16(s, 2) as int)
    }
}

/// The `k`th kerning pair of a subtable: left glyph, right glyph and value.
pub open spec fn kern_pair(s: Seq<u8>, k: int) -> (u16, u16, i16) {
    (be_u16(s, 8 + 6 * k), be_u16(s, 10 + 6 * k), be_i16(s, 12 + 6 * k))
}

/// The `k`th kerning pair is the three big-endian words at bytes `8 + 6 * k` (left glyph),
/// `10 + 6 * k` (right glyph) and `12 + 6 * k` (value, signed), after the 8-byte header.
pub proof fn lemma_kern_pair_layout(s: Seq<u8>, k: int)
    requires
        0 <= k,
        8 + 6 * k + 6 <= s.len(),
    ensures
        ({
            let at = 8 + 6 * k;
            let (left, right, value) = kern_pair(s, k);
            &&& left as int == s[at] as int * 0x100 + s[at + 1] as int
            &&& right as int == s[at + 2] as int * 0x100 + s[at + 3] as int
            &&& (value as int - (s[at + 4] as int * 0x100 + s[at + 5] as int)) % 0x1_0000 == 0
        }),
{
}

/// The number of kerning pairs a subtable declares.
pub open spec fn kern_pair_count(s: Seq<u8>) -> int {
    be_u16(s, 0) as int
}

/// True when the subtable holds all the pairs it declares.
pub open spec fn kern_pairs_present(s: Seq<u8>) -> bool {
    s.len() >= 8 && 8 + 6 * kern_pair_count(s) <= s.len()
}

/// The ordering of pairs: by left glyph, then by right glyph.
pub open spec fn pair_lt(a: (u16, u16), b: (u16, u16)) -> bool {
    a.0 < b.0 || (a.0 == b.0 && a.1 < b.1)
}

/// True when the pairs are in strictly increasing order.
pub open spec fn kern_pairs_sorted(s: Seq<u8>) -> bool {
    forall|i: int, j: int|
        #![trigger kern_pair(s, i), kern_pair(s, j)]
        0 <= i < j < kern_pair_count(s) ==> pair_lt(
            (kern_pair(s, i).0, kern_pair(s, i).1),
            (kern_pair(s, j).0, kern_pair(s, j).1),
        )
}

/// The binary search for the pair (`left`, `right`) among pairs `low` to `high - 1`: the value
/// of the pair it lands on, zero when the range runs out, or `UnexpectedEof` when a pair it
/// reads lies past the end of the subtable.
pub open spec fn kern_search(s: Seq<u8>, left: u16, right: u16, low: int, high: int) -> Result<
    i16,
    FontError,
>
    decreases high - low,
{
    if low >= high {
        Ok(0)
    } else {
        let mid = (low + high) / 2;
        if !fits(s, 8 + 6 * mid, 6) {
            Err(FontError::UnexpectedEof)
        } else {
            let p = kern_pair(s, mid);
            if left < p.0 || (left == p.0 && right < p.1) {
                kern_search(s, left, right, low, mid)
            } else if left > p.0 || (left == p.0 && right > p.1) {
                kern_search(s, left, right, mid + 1, high)
            } else {
                Ok(p.2)
            }
        }
    }
}

/// What looking up the pair (`left`, `right`) in the subtable `s` gives: `UnexpectedEof` for a
/// subtable shorter than its header, else the binary search over all its declared pairs.
pub open spec fn kern_lookup(s: Seq<u8>, left: u16, right: u16) -> Result<i16, FontError> {
    if s.len() < 8 {
        Err(FontError::UnexpectedEof)
    } else {
        kern_search(s, left, right, 0, kern_pair_count(s))
    }
}

impl<'a> KernTable<'a> {
    /// The bytes of the horizontal kerning subtable, header excluded.
    pub closed spec fn horizontal(&self) -> Seq<u8> {
        self.horizontal_table@
    }

    /// Finds the first horizontal kerning subtable.
    pub fn new(table: FontTable<'a>) -> (r: Result<KernTable<'a>, FontError>)
        ensures
            match kern_spec(table.bytes@) {
                Ok((start, len)) => r matches Ok(k) && k.horizontal() == table.bytes@.subrange(
                    start,
                    start + len,
                ),
                Err(e) => r matches Err(e2) && e2 == e,
            },
    {
        let bytes = table.bytes;
        let version = u16_at(bytes, 0)?;
        if version != 0 {
            return Err(FontError::UnknownFormat);
        }
        let n_tables = u16_at(bytes, 2)?;
        let mut pos: usize = 4;
        let mut i: u16 = 0;
        while i < n_tables
            invariant
                4 <= pos <= bytes@.len(),
                bytes == table.bytes,
                i <= n_tables,
                kern_spec(bytes@) == find_horizontal(bytes@, pos as int, (n_tables - i) as int),
            decreases n_tables - i,
        {
            if bytes.len() - pos < 6 {
                return Err(FontError::UnexpectedEof);
            }
            let _version = u16_at(bytes, pos)?;
            let length = u16_at(bytes, pos + 2)?;
            let coverage = u16_at(bytes, pos + 4)?;
            proof {
                lemma_coverage_bits(coverage);
                assert(length == be_u16(bytes@, pos as int + 2));
                assert(coverage == be_u16(bytes@, pos as int + 4));
                assert(fits(bytes@, pos as int, 6));
                assert(find_horizontal(bytes@, pos as int, (n_tables - i) as int) == if is_plain_horizontal(coverage) {
                    if length < 6 || pos + length > bytes@.len() {
                        Err(FontError::UnexpectedEof)
                    } else {
                        Ok((pos + 6, length - 6))
                    }
                } else if pos + length > bytes@.len() {
                    Err(FontError::UnexpectedEof)
                } else {
                    find_horizontal(bytes@, pos + length, (n_tables - i) - 1)
                });
            }
            if coverage & HORIZONTAL != 0 && coverage & MINIMUM == 0 && coverage & CROSS_STREAM
                == 0 && (coverage >> 8) == 0 {
                if length < 6 || length as usize > bytes.len() - pos {
                    return Err(FontError::UnexpectedEof);
                }
                let horizontal_table = slice_subrange(bytes, pos + 6, pos + length as usize);
                return Ok(KernTable { horizontal_table: horizontal_table });
            }
            if length as usize > bytes.len() - pos {
                return Err(FontError::UnexpectedEof);
            }
            pos = pos + length as usize;
            i = i + 1;
        }
        Err(FontError::UnknownFormat)
    }

    /// Returns the kerning between two glyphs, found by binary search over the pairs, or zero
    /// when the search finds no pair for them.
    ///
    /// The result is always the value of a pair for the two glyphs, or zero. When the
    /// subtable holds all its pairs in increasing order, it is zero only when no pair matches,
    /// and the lookup cannot fail.
    pub fn kerning_for_glyph_pair(&self, left_glyph_id: u16, right_glyph_id: u16)
        -> (r: Result<i16, FontError>)
        ensures
            r == kern_lookup(self.horizontal(), left_glyph_id, right_glyph_id),
            self.horizontal().len() < 8 ==> r == Err::<i16, FontError>(FontError::UnexpectedEof),
            r matches Err(e) ==> e == FontError::UnexpectedEof,
            r matches Ok(v) ==> v == 0 || exists|k: int|
                0 <= k < kern_pair_count(self.horizontal()) && #[trigger] kern_pair(
                    self.horizontal(),
                    k,
                ) == (left_glyph_id, right_glyph_id, v),
            kern_pairs_present(self.horizontal()) ==> r is Ok,
            kern_pairs_present(self.horizontal()) && kern_pairs_sorted(self.horizontal())
                ==> (r == Ok::<i16, FontError>(0) || exists|k: int|
                0 <= k < kern_pair_count(self.horizontal()) && (#[trigger] kern_pair(
                    self.horizontal(),
                    k,
                )).0 == left_glyph_id && kern_pair(self.horizontal(), k).1 == right_glyph_id) && (
            forall|k: int|
                0 <= k < kern_pair_count(self.horizontal()) && (#[trigger] kern_pair(
                    self.horizontal(),
                    k,
                )).0 == left_glyph_id && kern_pair(self.horizontal(), k).1 == right_glyph_id
                    ==> r == Ok::<i16, FontError>(kern_pair(self.horizontal(), k).2)),
    {
        let s = self.horizontal_table;
        let n_pairs = u16_at(s, 0)?;
        if s.len() < 8 {
            return Err(FontError::UnexpectedEof);
        }
        let ghost h = s@;
        assert(h == self.horizontal());
        let mut low: u32 = 0;
        let mut high: u32 = n_pairs as u32;
        while low < high
            invariant
                h == s@,
                h == self.horizontal(),
                h.len() >= 8,
                n_pairs == kern_pair_count(h),
                low <= high <= n_pairs,
                kern_search(h, left_glyph_id, right_glyph_id, low as int, high as int) == kern_lookup(
                    h,
                    left_glyph_id,
                    right_glyph_id,
                ),
                kern_pairs_present(h) && kern_pairs_sorted(h) ==> forall|k: int|
                    0 <= k < n_pairs && (k < low || k >= high) ==> !((#[trigger] kern_pair(h, k)).0
                        == left_glyph_id && kern_pair(h, k).1 == right_glyph_id),
            decreases high - low,
        {
            let mid = low + (high - low) / 2;
            assert(mid as int == (low as int + high as int) / 2);
            let at: usize = 8 + mid as usize * 6;
            let left = u16_at(s, at)?;
            let right = u16_at(s, at + 2)?;
            let value = i16_at(s, at + 4)?;
            assert(kern_pair(h, mid as int) == (left, right, value));
            if left_glyph_id < left || (left_glyph_id == left && right_glyph_id < right) {
                proof {
                    if kern_pairs_present(h) && kern_pairs_sorted(h) {
                        assert forall|k: int|
                            0 <= k < n_pairs && (k < low || k >= mid) implies !((#[trigger] kern_pair(h, k)).0
                                == left_glyph_id && kern_pair(h, k).1 == right_glyph_id) by {
                            if mid <= k < high {
                                if k > mid {
                                    assert(pair_lt((kern_pair(h, mid as int).0, kern_pair(h, mid as int).1), (kern_pair(h, k).0, kern_pair(h, k).1)));
                                }
                            }
                        }
                    }
                }
                high = mid;
            } else if left_glyph_id > left || (left_glyph_id == left && right_glyph_id > right) {
                proof {
                    if kern_pairs_present(h) && kern_pairs_sorted(h) {
                        assert forall|k: int|
                            0 <= k < n_pairs && (k <= mid || k >= high) implies !((#[trigger] kern_pair(h, k)).0
                                == left_glyph_id && kern_pair(h, k).1 == right_glyph_id) by {
                            if low <= k < mid {
                                assert(pair_lt((kern_pair(h, k).0, kern_pair(h, k).1), (kern_pair(h, mid as int).0, kern_pair(h, mid as int).1)));
                            }
                        }
                    }
                }
                low = mid + 1;
            } else {
                proof {
                    if kern_pairs_present(h) && kern_pairs_sorted(h) {
                        assert forall|k: int|
                            0 <= k < kern_pair_count(h) && (#[trigger] kern_pair(h, k)).0 == left_glyph_id
                                && kern_pair(h, k).1 == right_glyph_id implies Ok::<i16, FontError>(value)
                                == Ok::<i16, FontError>(kern_pair(h, k).2) by {
                            if k != mid {
                                if k < mid {
                                    assert(pair_lt((kern_pair(h, k).0, kern_pair(h, k).1), (kern_pair(h, mid as int).0, kern_pair(h, mid as int).1)));
                                } else {
                                    assert(pair_lt((kern_pair(h, mid as int).0, kern_pair(h, mid as int).1), (kern_pair(h, k).0, kern_pair(h, k).1)));
                                }
                            }
                        }
                    }
                }
                return Ok(value);
            }
        }
        Ok(0)
    }
}

/// The coverage flags, read with masks and shifts, are the bits of the coverage word.
proof fn lemma_coverage_bits(c: u16)
    ensures
        (c & 1 != 0) == (c % 2 == 1),
        (c & 2 == 0) == ((c / 2) % 2 == 0),
        (c & 4 == 0) == ((c / 4) % 2 == 0),
        (c >> 8 == 0) == (c / 256 == 0),
{
    assert((c & 1 != 0) == (c % 2 == 1)) by (bit_vector);
    assert((c & 2 == 0) == ((c / 2) % 2 == 0)) by (bit_vector);
    assert((c & 4 == 0) == ((c / 4) % 2 == 0)) by (bit_vector);
    assert((c >> 8 == 0) == (c / 256 == 0)) by (bit_vector);
}

} // verus!
