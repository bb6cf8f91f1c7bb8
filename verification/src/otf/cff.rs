//! Compact Font Format outlines (the `CFF ` table).
//!
//! Only what drawing a glyph needs is read: the header, the name and string INDEXes (skipped),
//! the top DICT (for the offset of the CharStrings INDEX) and the Type 2 CharString of the
//! glyph, of which the path construction and hint operators are interpreted.

use vstd::prelude::*;

use crate::error::FontError;
use crate::geometry::Point2DI16;
use crate::otf::glyf::{continues, in_i16, indices_ok, lemma_indices_push, pt, Point, PointKind};
use crate::otf::FontTable;
use crate::outline::GlyphBounds;
use crate::util::{be_i16, be_i32, be_u16, be_u32, fits, i16_at, i32_at, pos_add, u16_at, u32_at, u8_at};

verus! {

#[derive(Clone, Copy, Debug)]
pub struct CffTable<'a> {
    /// The offset of the char strings INDEX.
    pub char_strings: u32,
    pub table: FontTable<'a>,
}

/// What reading an `Offset` of `size` bytes at `pos` gives: its value and the position after
/// it. Sizes other than 1 to 4 are `CffBadOffset`.
pub open spec fn offset_spec(s: Seq<u8>, pos: int, size: u8) -> Result<(u32, int), FontError> {
    if size < 1 || size > 4 {
        Err(FontError::CffBadOffset)
    } else if !fits(s, pos, size as int) {
        Err(FontError::UnexpectedEof)
    } else if size == 1 {
        Ok((s[pos] as u32, pos + 1))
    } else if size == 2 {
        Ok((be_u16(s, pos) as u32, pos + 2))
    } else if size == 3 {
        Ok(((s[pos] as int * 0x1_0000 + be_u16(s, pos + 1) as int) as u32, pos + 3))
    } else {
        Ok((be_u32(s, pos), pos + 4))
    }
}

/// What looking up element `index` of the INDEX at `pos` gives: the element's length (`None`
/// when the INDEX is empty or `index` is past its end), and the position of the element's
/// data (of the end of the INDEX when `index` is past its end; just after the count when the
/// INDEX is empty).
pub open spec fn find_spec(s: Seq<u8>, pos: int, index: u16) -> Result<(Option<u32>, int), FontError> {
    if !fits(s, pos, 2) {
        Err(FontError::UnexpectedEof)
    } else if be_u16(s, pos) == 0 {
        Ok((None, pos + 2))
    } else if !fits(s, pos + 2, 1) {
        Err(FontError::UnexpectedEof)
    } else {
        let count = be_u16(s, pos);
        let off_size = s[pos + 2];
        let data = pos + 3;
        let k: int = if index < count {
            index as int
        } else {
            count as int
        };
        if data + off_size * k > s.len() {
            Err(FontError::UnexpectedEof)
        } else {
            match offset_spec(s, data + off_size * k, off_size) {
                Err(e) => Err(e),
                Ok((offset, p1)) => {
                    let next: Result<Option<u32>, FontError> = if index < count {
                        match offset_spec(s, p1, off_size) {
                            Err(e) => Err(e),
                            Ok((n, _)) => if n < offset {
                                Err(FontError::Failed)
                            } else {
                                Ok(Some((n - offset) as u32))
                            },
                        }
                    } else {
                        Ok(None)
                    };
                    match next {
                        Err(e) => Err(e),
                        Ok(len) => {
                            let target = data + off_size * (count + 1) + offset - 1;
                            if target > s.len() {
                                Err(FontError::UnexpectedEof)
                            } else {
                                Ok((len, target))
                            }
                        },
                    }
                },
            }
        }
    }
}

/// Reads an `Offset` of the given size at `pos` (see `offset_spec`).
fn read_offset(bytes: &[u8], pos: usize, size: u8) -> (r: Result<(u32, usize), FontError>)
    ensures
        match r {
            Ok((v, p)) => offset_spec(bytes@, pos as int, size) == Ok::<(u32, int), FontError>((v, p as int)),
            Err(e) => offset_spec(bytes@, pos as int, size) == Err::<(u32, int), FontError>(e),
        },
{
    match size {
        1 => {
            let v = u8_at(bytes, pos)?;
            assert(pos + 1 <= bytes.len());
            Ok((v as u32, pos + 1))
        },
        2 => {
            let v = u16_at(bytes, pos)?;
            assert(pos + 2 <= bytes.len());
            Ok((v as u32, pos + 2))
        },
        3 => {
            if pos > bytes.len() || bytes.len() - pos < 3 {
                return Err(FontError::UnexpectedEof);
            }
            let hi = u8_at(bytes, pos)? as u32;
            let lo = u16_at(bytes, pos + 1)? as u32;
            let v: u32 = hi * 0x1_0000 + lo;
            Ok((v, pos + 3))
        },
        4 => {
            let v = u32_at(bytes, pos)?;
            assert(pos + 4 <= bytes.len());
            Ok((v, pos + 4))
        },
        _ => Err(FontError::CffBadOffset),
    }
}

/// Looks up element `index` of the INDEX at `pos` (see `find_spec`). Returns the element's
/// length, if it has one, and where its data starts.
#[verifier::rlimit(40)]
fn find_in_index(bytes: &[u8], pos: usize, index: u16) -> (r: Result<(Option<u32>, usize), FontError>)
    ensures
        match r {
            Ok((len, p)) => find_spec(bytes@, pos as int, index) == Ok::<(Option<u32>, int), FontError>(
                (len, p as int),
            ),
            Err(e) => find_spec(bytes@, pos as int, index) == Err::<(Option<u32>, int), FontError>(e),
        },
{
    let count = u16_at(bytes, pos)?;
    assert(pos + 2 <= bytes.len());
    if count == 0 {
        return Ok((None, pos + 2));
    }
    let off_size = u8_at(bytes, pos + 2)?;
    let data = pos + 3;
    let k: u16 = if index < count {
        index
    } else {
        count
    };
    let a = off_size as u64;
    let b = k as u64;
    assert(a * b <= 0xff * 0xffff) by (nonlinear_arith)
        requires
            a <= 0xff,
            b <= 0xffff,
    ;
    let skip: u64 = a * b;
    if skip > (bytes.len() - data) as u64 {
        return Err(FontError::UnexpectedEof);
    }
    let (offset, p1) = read_offset(bytes, data + skip as usize, off_size)?;
    let len = if index < count {
        let (next, _) = read_offset(bytes, p1, off_size)?;
        if next < offset {
            return Err(FontError::Failed);
        }
        Some(next - offset)
    } else {
        None
    };
    let c = count as u64 + 1;
    assert(a * c <= 0xff * 0x10000) by (nonlinear_arith)
        requires
            a <= 0xff,
            c <= 0x10000,
    ;
    assert(1 <= a <= 4);
    assert(a * c >= 2) by (nonlinear_arith)
        requires
            a >= 1,
            c >= 2,
    ;
    let table_size: u64 = a * c;
    let relative: u64 = table_size + offset as u64 - 1;
    if relative > (bytes.len() - data) as u64 {
        return Err(FontError::UnexpectedEof);
    }
    Ok((len, data + relative as usize))
}

/// Where the real-number operand whose nibbles start at `pos` ends: after the first byte whose
/// low nibble is `0xf`.
pub open spec fn skip_real_spec(s: Seq<u8>, pos: int) -> Result<int, FontError>
    decreases s.len() - pos,
{
    if !fits(s, pos, 1) {
        Err(FontError::UnexpectedEof)
    } else if s[pos] & 0xf == 0xf {
        Ok(pos + 1)
    } else {
        skip_real_spec(s, pos + 1)
    }
}

/// A real-number operand ends after its first byte and within the data.
pub proof fn lemma_skip_real_bounds(s: Seq<u8>, pos: int)
    ensures
        skip_real_spec(s, pos) matches Ok(p) ==> pos < p <= s.len(),
    decreases s.len() - pos,
{
    if fits(s, pos, 1) && s[pos] & 0xf != 0xf {
        lemma_skip_real_bounds(s, pos + 1);
    }
}

/// What scanning a DICT from `pos` for `operator` gives, `last` being the last integer operand
/// read since the previous operator: the integer operand just before the first occurrence of
/// the operator and the position after the operator, or `CffIntegerNotFound` when no integer
/// comes just before it.
pub open spec fn dict_integer_spec(s: Seq<u8>, pos: int, operator: u16, last: Option<i32>) -> Result<
    (i32, int),
    FontError,
>
    decreases s.len() - pos, 1int,
{
    if !fits(s, pos, 1) {
        Err(FontError::UnexpectedEof)
    } else {
        let b0 = s[pos];
        if 32 <= b0 <= 246 {
            dict_integer_spec(s, pos + 1, operator, Some((b0 - 139) as i32))
        } else if 247 <= b0 <= 250 {
            if !fits(s, pos + 1, 1) {
                Err(FontError::UnexpectedEof)
            } else {
                dict_integer_spec(
                    s,
                    pos + 2,
                    operator,
                    Some(((b0 - 247) * 256 + s[pos + 1] + 108) as i32),
                )
            }
        } else if 251 <= b0 <= 254 {
            if !fits(s, pos + 1, 1) {
                Err(FontError::UnexpectedEof)
            } else {
                dict_integer_spec(
                    s,
                    pos + 2,
                    operator,
                    Some((-(b0 - 251) * 256 - s[pos + 1] - 108) as i32),
                )
            }
        } else if b0 == 28 {
            if !fits(s, pos + 1, 2) {
                Err(FontError::UnexpectedEof)
            } else {
                dict_integer_spec(s, pos + 3, operator, Some(be_i16(s, pos + 1) as i32))
            }
        } else if b0 == 29 {
            if !fits(s, pos + 1, 4) {
                Err(FontError::UnexpectedEof)
            } else {
                dict_integer_spec(s, pos + 5, operator, Some(be_i32(s, pos + 1)))
            }
        } else if b0 == 30 {
            match skip_real_spec(s, pos + 1) {
                Err(e) => Err(e),
                Ok(p) => {
                    proof {
                        lemma_skip_real_bounds(s, pos + 1);
                    }
                    dict_integer_spec(s, p, operator, last)
                },
            }
        } else if b0 == 12 {
            if !fits(s, pos + 1, 1) {
                Err(FontError::UnexpectedEof)
            } else if operator == ((s[pos + 1] as u16) << 8u16) | 12u16 {
                match last {
                    Some(v) => Ok((v, pos + 2)),
                    None => Err(FontError::CffIntegerNotFound),
                }
            } else {
                dict_integer_spec(s, pos + 2, operator, None)
            }
        } else if operator == b0 as u16 {
            match last {
                Some(v) => Ok((v, pos + 1)),
                None => Err(FontError::CffIntegerNotFound),
            }
        } else {
            dict_integer_spec(s, pos + 1, operator, None)
        }
    }
}

/// Skips a real-number operand whose nibbles start at `pos` (see `skip_real_spec`).
fn skip_real(bytes: &[u8], pos: usize) -> (r: Result<usize, FontError>)
    ensures
        match r {
            Ok(p) => skip_real_spec(bytes@, pos as int) == Ok::<int, FontError>(p as int) && pos < p
                <= bytes.len(),
            Err(e) => skip_real_spec(bytes@, pos as int) == Err::<int, FontError>(e),
        },
{
    let mut p = pos;
    loop
        invariant
            skip_real_spec(bytes@, pos as int) == skip_real_spec(bytes@, p as int),
            p >= pos,
        decreases bytes.len() - p,
    {
        let b = u8_at(bytes, p)?;
        assert(p < bytes.len());
        if b & 0xf == 0xf {
            return Ok(p + 1);
        }
        p = p + 1;
    }
}

/// Scans a DICT from `pos` for `operator` and returns the integer operand just before it, and
/// the position after the operator (see `dict_integer_spec`).
#[verifier::rlimit(30)]
fn get_integer_in_dict(bytes: &[u8], pos: usize, operator: u16) -> (r: Result<(i32, usize), FontError>)
    ensures
        match r {
            Ok((v, p)) => dict_integer_spec(bytes@, pos as int, operator, None) == Ok::<(i32, int), FontError>(
                (v, p as int),
            ),
            Err(e) => dict_integer_spec(bytes@, pos as int, operator, None) == Err::<(i32, int), FontError>(e),
        },
{
    let ghost goal = dict_integer_spec(bytes@, pos as int, operator, None);
    if pos >= bytes.len() {
        return Err(FontError::UnexpectedEof);
    }
    let mut last_integer_operand: Option<i32> = None;
    let mut p = pos;
    loop
        invariant
            goal == dict_integer_spec(bytes@, p as int, operator, last_integer_operand),
            goal == dict_integer_spec(bytes@, pos as int, operator, None),
            p <= bytes.len(),
        decreases bytes.len() - p,
    {
        let b0 = u8_at(bytes, p)?;
        assert(p < bytes.len());
        if 32 <= b0 && b0 <= 246 {
            last_integer_operand = Some(b0 as i32 - 139);
            p = p + 1;
        } else if 247 <= b0 && b0 <= 250 {
            let b1 = u8_at(bytes, p + 1)?;
            last_integer_operand = Some((b0 as i32 - 247) * 256 + b1 as i32 + 108);
            p = p + 2;
        } else if 251 <= b0 && b0 <= 254 {
            let b1 = u8_at(bytes, p + 1)?;
            last_integer_operand = Some(-(b0 as i32 - 251) * 256 - b1 as i32 - 108);
            p = p + 2;
        } else if b0 == 28 {
            let v = i16_at(bytes, p + 1)?;
            last_integer_operand = Some(v as i32);
            p = p + 3;
        } else if b0 == 29 {
            let v = i32_at(bytes, p + 1)?;
            last_integer_operand = Some(v);
            p = p + 5;
        } else if b0 == 30 {
            p = skip_real(bytes, p + 1)?;
        } else if b0 == 12 {
            let b1 = u8_at(bytes, p + 1)?;
            if operator == ((b1 as u16) << 8u16) | 12u16 {
                return match last_integer_operand {
                    Some(v) => Ok((v, p + 2)),
                    None => Err(FontError::CffIntegerNotFound),
                };
            }
            last_integer_operand = None;
            p = p + 2;
        } else {
            if operator == b0 as u16 {
                return match last_integer_operand {
                    Some(v) => Ok((v, p + 1)),
                    None => Err(FontError::CffIntegerNotFound),
                };
            }
            last_integer_operand = None;
            p = p + 1;
        }
    }
}

/// What `CffTable::new` gives: the offset of the CharStrings INDEX, taken from the top DICT
/// (operator 17) after a version 1.0 header and the name INDEX; the string INDEX is then
/// skipped from where the operator was found.
pub open spec fn cff_spec(s: Seq<u8>) -> Result<u32, FontError> {
    if !fits(s, 0, 2) {
        Err(FontError::UnexpectedEof)
    } else if s[0] != 1 || s[1] != 0 {
        Err(FontError::UnsupportedCffVersion)
    } else if !fits(s, 2, 1) {
        Err(FontError::UnexpectedEof)
    } else if s[2] < 3 {
        Err(FontError::Failed)
    } else if s[2] > s.len() {
        Err(FontError::UnexpectedEof)
    } else {
        match find_spec(s, s[2] as int, 0xffff) {
            Err(e) => Err(e),
            Ok((_, p1)) => match find_spec(s, p1, 0) {
                Err(e) => Err(e),
                Ok((None, _)) => Err(FontError::CffTopDictNotFound),
                Ok((Some(_), p2)) => match dict_integer_spec(s, p2, 17, None) {
                    Err(e) => Err(e),
                    Ok((v, p3)) => match find_spec(s, p3, 0xffff) {
                        Err(e) => Err(e),
                        Ok(_) => Ok(v as u32),
                    },
                },
            },
        }
    }
}

impl<'a> CffTable<'a> {
    pub fn new(table: FontTable<'a>) -> (r: Result<CffTable<'a>, FontError>)
        ensures
            match r {
                Ok(t) => cff_spec(table.bytes@) == Ok::<u32, FontError>(t.char_strings) && t.table
                    == table,
                Err(e) => cff_spec(table.bytes@) == Err::<u32, FontError>(e),
            },
    {
        let bytes = table.bytes;

        // Check version.
        let major = u8_at(bytes, 0)?;
        let minor = u8_at(bytes, 1)?;
        if major != 1 || minor != 0 {
            return Err(FontError::UnsupportedCffVersion);
        }

        // Skip the header.
        let hdr_size = u8_at(bytes, 2)?;
        if hdr_size < 3 {
            return Err(FontError::Failed);
        }
        if hdr_size as usize > bytes.len() {
            return Err(FontError::UnexpectedEof);
        }

        // Skip the name INDEX.
        let (_, p1) = find_in_index(bytes, hdr_size as usize, 0xffff)?;

        // Get the top DICT for our font.
        let p2 = match find_in_index(bytes, p1, 0)? {
            (None, _) => {
                return Err(FontError::CffTopDictNotFound);
            },
            (Some(_), p2) => p2,
        };

        // Find the CharStrings offset within the top DICT.
        let (char_strings, p3) = get_integer_in_dict(bytes, p2, 17)?;

        // Skip the string INDEX.
        find_in_index(bytes, p3, 0xffff)?;

        Ok(CffTable { char_strings: char_strings as u32, table: table })
    }
}

/// One pen movement of a CharString operator: the pen moves by `(dx, dy)` and, when `emit` is
/// set, a point of that kind is emitted where it lands.
#[derive(Clone, Copy, PartialEq, Eq, Debug, Structural)]
pub struct Move {
    pub dx: i16,
    pub dy: i16,
    pub emit: Option<PointKind>,
}

/// The state of the CharString interpreter between operators: the position of the next byte
/// and the end of the CharString, the 48 slots of the evaluation stack and how many are in
/// use, the first point of the current contour, the pen, the index of the next point in the
/// contour and the number of stem hints seen.
pub struct Cs {
    pub pos: int,
    pub end: int,
    pub stack: Seq<i32>,
    pub size: nat,
    pub start: Point2DI16,
    pub cur: Point2DI16,
    pub index: int,
    pub hints: nat,
}

/// A stack value as a coordinate delta: its low 16 bits.
pub open spec fn d16(v: i32) -> i16 {
    v as i16
}

/// A move that emits a point.
pub open spec fn mv(dx: i16, dy: i16, kind: PointKind) -> Move {
    Move { dx, dy, emit: Some(kind) }
}

/// Moves the pen (see `Move`). `Failed` when the pen leaves the range of `i16` or the point
/// index overflows.
pub open spec fn apply_move(st: Cs, m: Move) -> Result<(Cs, Seq<Point>), FontError> {
    let nx = st.cur.x + m.dx;
    let ny = st.cur.y + m.dy;
    let np = Point2DI16 { x: nx as i16, y: ny as i16 };
    if !in_i16(nx) || !in_i16(ny) {
        Err(FontError::Failed)
    } else {
        match m.emit {
            None => Ok((Cs { cur: np, ..st }, Seq::empty())),
            Some(k) => if st.index >= 0xffff {
                Err(FontError::Failed)
            } else {
                Ok((Cs { cur: np, index: st.index + 1, ..st }, seq![pt(np, st.index, k)]))
            },
        }
    }
}

/// Applies moves in order, stopping at the first failure. Gives the points emitted and the
/// state reached, or the failure.
pub open spec fn apply_moves(st: Cs, ms: Seq<Move>) -> (Seq<Point>, Result<Cs, FontError>)
    decreases ms.len(),
{
    if ms.len() == 0 {
        (Seq::empty(), Ok(st))
    } else {
        let (out, r) = apply_moves(st, ms.drop_last());
        match r {
            Err(e) => (out, Err(e)),
            Ok(st1) => match apply_move(st1, ms.last()) {
                Err(e) => (out, Err(e)),
                Ok((st2, pts)) => (out + pts, Ok(st2)),
            },
        }
    }
}

/// `rlineto`: a line to each of the first `k` pairs of deltas.
pub open spec fn rline_moves(a: Seq<i32>, k: nat) -> Seq<Move>
    decreases k,
{
    if k == 0 {
        Seq::empty()
    } else {
        let i = 2 * (k - 1);
        rline_moves(a, (k - 1) as nat).push(mv(d16(a[i]), d16(a[i + 1]), PointKind::OnCurve))
    }
}

/// `hlineto` (`horizontal_first`) and `vlineto`: lines along alternating axes for the first
/// `k` values.
pub open spec fn hvline_moves(a: Seq<i32>, k: nat, horizontal_first: bool) -> Seq<Move>
    decreases k,
{
    if k == 0 {
        Seq::empty()
    } else {
        let i = k - 1;
        let v = d16(a[i]);
        let m = if (i % 2 == 0) == horizontal_first {
            mv(v, 0, PointKind::OnCurve)
        } else {
            mv(0, v, PointKind::OnCurve)
        };
        hvline_moves(a, (k - 1) as nat, horizontal_first).push(m)
    }
}

/// `rrcurveto`: a cubic curve for each of the first `k` groups of six deltas.
pub open spec fn rrcurve_moves(a: Seq<i32>, k: nat) -> Seq<Move>
    decreases k,
{
    if k == 0 {
        Seq::empty()
    } else {
        let i = 6 * (k - 1);
        rrcurve_moves(a, (k - 1) as nat).push(
            mv(d16(a[i]), d16(a[i + 1]), PointKind::FirstCubicControl),
        ).push(mv(d16(a[i + 2]), d16(a[i + 3]), PointKind::SecondCubicControl)).push(
            mv(d16(a[i + 4]), d16(a[i + 5]), PointKind::OnCurve),
        )
    }
}

/// A curve that starts vertically (`vertical`) or horizontally from four deltas at `i`, ending
/// with the extra delta `last` along the other axis.
pub open spec fn hv_curve(a: Seq<i32>, i: int, last: i32, vertical: bool) -> Seq<Move> {
    if vertical {
        seq![
            mv(0, d16(a[i]), PointKind::FirstCubicControl),
            mv(d16(a[i + 1]), d16(a[i + 2]), PointKind::SecondCubicControl),
            mv(d16(a[i + 3]), d16(last), PointKind::OnCurve),
        ]
    } else {
        seq![
            mv(d16(a[i]), 0, PointKind::FirstCubicControl),
            mv(d16(a[i + 1]), d16(a[i + 2]), PointKind::SecondCubicControl),
            mv(d16(last), d16(a[i + 3]), PointKind::OnCurve),
        ]
    }
}

/// `vhcurveto` (`vertical_first`) and `hvcurveto`: curves starting along alternating axes for
/// the first `k` groups of four of the `n` values; the group followed by exactly one more value
/// takes it as its final delta.
pub open spec fn vh_moves(a: Seq<i32>, n: int, k: nat, vertical_first: bool) -> Seq<Move>
    decreases k,
{
    if k == 0 {
        Seq::empty()
    } else {
        let j = k - 1;
        let last = if 4 * j + 5 == n {
            a[n - 1]
        } else {
            0i32
        };
        vh_moves(a, n, (k - 1) as nat, vertical_first) + hv_curve(
            a,
            4 * j,
            last,
            (j % 2 == 0) == vertical_first,
        )
    }
}

/// `vvcurveto` (`vertical`) and `hhcurveto`: curves along one axis for the first `k` groups of
/// four values from `first` on.
pub open spec fn vvhh_moves(a: Seq<i32>, first: int, k: nat, vertical: bool) -> Seq<Move>
    decreases k,
{
    if k == 0 {
        Seq::empty()
    } else {
        let i = first + 4 * (k - 1);
        let ms = if vertical {
            seq![
                mv(0, d16(a[i]), PointKind::FirstCubicControl),
                mv(d16(a[i + 1]), d16(a[i + 2]), PointKind::SecondCubicControl),
                mv(0, d16(a[i + 3]), PointKind::OnCurve),
            ]
        } else {
            seq![
                mv(d16(a[i]), 0, PointKind::FirstCubicControl),
                mv(d16(a[i + 1]), d16(a[i + 2]), PointKind::SecondCubicControl),
                mv(d16(a[i + 3]), 0, PointKind::OnCurve),
            ]
        };
        vvhh_moves(a, first, (k - 1) as nat, vertical) + ms
    }
}

/// The moves of a drawing operator over the `n` values on the stack `a`, or `None` when the
/// values do not split into the operator's groups.
pub open spec fn draw_moves(b0: u8, a: Seq<i32>, n: int) -> Option<Seq<Move>> {
    if b0 == 5 {
        if n % 2 != 0 {
            None
        } else {
            Some(rline_moves(a, (n / 2) as nat))
        }
    } else if b0 == 6 || b0 == 7 {
        Some(hvline_moves(a, n as nat, b0 == 6))
    } else if b0 == 8 {
        if n % 6 != 0 {
            None
        } else {
            Some(rrcurve_moves(a, (n / 6) as nat))
        }
    } else if b0 == 30 || b0 == 31 {
        Some(vh_moves(a, n, (n / 4) as nat, b0 == 30))
    } else {
        let first: int = if n % 2 == 0 {
            0
        } else {
            1
        };
        let pre = if n % 2 == 0 {
            Seq::<Move>::empty()
        } else if b0 == 26 {
            seq![Move { dx: d16(a[0]), dy: 0, emit: None }]
        } else {
            seq![Move { dx: 0, dy: d16(a[0]), emit: None }]
        };
        if (n - first) % 4 != 0 {
            None
        } else {
            Some(pre + vvhh_moves(a, first, ((n - first) / 4) as nat, b0 == 26))
        }
    }
}

/// The kind of point the `j`th move of `rrcurveto` emits: the first control point, the second
/// control point and the end point of each curve in turn.
pub open spec fn curve_point_kind(j: int) -> PointKind {
    if j % 3 == 0 {
        PointKind::FirstCubicControl
    } else if j % 3 == 1 {
        PointKind::SecondCubicControl
    } else {
        PointKind::OnCurve
    }
}

/// `rrcurveto` over `n` values: `n` must be a multiple of six; the `j`th move goes by the values
/// `2 * j` (across) and `2 * j + 1` (up), each group of three emitting the first control point,
/// the second control point and the end point of a cubic curve.
pub proof fn lemma_rrcurveto_moves(a: Seq<i32>, n: int)
    requires
        0 <= n,
    ensures
        n % 6 != 0 ==> (draw_moves(8, a, n) is None),
        n % 6 == 0 ==> (draw_moves(8, a, n) matches Some(ms) && ms.len() == n / 2 && forall|j: int|
            0 <= j < ms.len() ==> (#[trigger] ms[j]).dx == a[2 * j] as i16 && ms[j].dy == a[2 * j
                + 1] as i16 && ms[j].emit == Some(curve_point_kind(j))),
{
    if n % 6 == 0 {
        lemma_rrcurve_indexed(a, (n / 6) as nat);
    }
}

/// The moves of the first `k` groups of `rrcurveto`, move by move.
proof fn lemma_rrcurve_indexed(a: Seq<i32>, k: nat)
    ensures
        rrcurve_moves(a, k).len() == 3 * k,
        forall|j: int|
            0 <= j < 3 * k ==> (#[trigger] rrcurve_moves(a, k)[j]).dx == a[2 * j] as i16
                && rrcurve_moves(a, k)[j].dy == a[2 * j + 1] as i16 && rrcurve_moves(a, k)[j].emit
                == Some(curve_point_kind(j)),
    decreases k,
{
    if k > 0 {
        let k1 = (k - 1) as nat;
        lemma_rrcurve_indexed(a, k1);
        let ms = rrcurve_moves(a, k);
        let prev = rrcurve_moves(a, k1);
        assert forall|j: int| 0 <= j < 3 * k implies (#[trigger] ms[j]).dx == a[2 * j] as i16
            && ms[j].dy == a[2 * j + 1] as i16 && ms[j].emit == Some(curve_point_kind(j)) by {
            if j < 3 * k1 {
                assert(ms[j] == prev[j]);
            } else {
                let t = j - 3 * k1;
                assert(j % 3 == t) by {
                    vstd::arithmetic::div_mod::lemma_fundamental_div_mod_converse(j, 3, k1 as int, t);
                }
            }
        }
    }
}

/// `rlineto` over `n` values: `n` must be even; the `j`th line goes by the values `2 * j`
/// (across) and `2 * j + 1` (up) to an on-curve point. `hlineto` (6) and `vlineto` (7) draw one
/// line per value, alternately across and up, `hlineto` starting across.
pub proof fn lemma_line_moves(a: Seq<i32>, n: int)
    requires
        0 <= n,
    ensures
        n % 2 != 0 ==> (draw_moves(5, a, n) is None),
        n % 2 == 0 ==> (draw_moves(5, a, n) matches Some(ms) && ms.len() == n / 2 && forall|j: int|
            0 <= j < ms.len() ==> (#[trigger] ms[j]).dx == a[2 * j] as i16 && ms[j].dy == a[2 * j
                + 1] as i16 && ms[j].emit == Some(PointKind::OnCurve)),
        draw_moves(6, a, n) matches Some(ms) && ms.len() == n && forall|j: int|
            0 <= j < n ==> (#[trigger] ms[j]).emit == Some(PointKind::OnCurve) && (j % 2 == 0 ==> ms[j].dx
                == a[j] as i16 && ms[j].dy == 0) && (j % 2 == 1 ==> ms[j].dx == 0 && ms[j].dy
                == a[j] as i16),
        draw_moves(7, a, n) matches Some(ms) && ms.len() == n && forall|j: int|
            0 <= j < n ==> (#[trigger] ms[j]).emit == Some(PointKind::OnCurve) && (j % 2 == 1 ==> ms[j].dx
                == a[j] as i16 && ms[j].dy == 0) && (j % 2 == 0 ==> ms[j].dx == 0 && ms[j].dy
                == a[j] as i16),
{
    if n % 2 == 0 {
        lemma_rline_indexed(a, (n / 2) as nat);
    }
    lemma_hvline_indexed(a, n as nat, true);
    lemma_hvline_indexed(a, n as nat, false);
}

proof fn lemma_rline_indexed(a: Seq<i32>, k: nat)
    ensures
        rline_moves(a, k).len() == k,
        forall|j: int|
            0 <= j < k ==> (#[trigger] rline_moves(a, k)[j]).dx == a[2 * j] as i16 && rline_moves(a, k)[j].dy
                == a[2 * j + 1] as i16 && rline_moves(a, k)[j].emit == Some(PointKind::OnCurve),
    decreases k,
{
    if k > 0 {
        lemma_rline_indexed(a, (k - 1) as nat);
        let ms = rline_moves(a, k);
        assert forall|j: int| 0 <= j < k - 1 implies ms[j] == rline_moves(a, (k - 1) as nat)[j] by {}
    }
}

proof fn lemma_hvline_indexed(a: Seq<i32>, k: nat, horizontal_first: bool)
    ensures
        hvline_moves(a, k, horizontal_first).len() == k,
        forall|j: int|
            0 <= j < k ==> (#[trigger] hvline_moves(a, k, horizontal_first)[j]).emit == Some(PointKind::OnCurve)
                && ((j % 2 == 0) == horizontal_first ==> hvline_moves(a, k, horizontal_first)[j].dx == a[j] as i16
                && hvline_moves(a, k, horizontal_first)[j].dy == 0) && ((j % 2 == 0) != horizontal_first
                ==> hvline_moves(a, k, horizontal_first)[j].dx == 0 && hvline_moves(a, k, horizontal_first)[j].dy
                == a[j] as i16),
    decreases k,
{
    if k > 0 {
        lemma_hvline_indexed(a, (k - 1) as nat, horizontal_first);
        let ms = hvline_moves(a, k, horizontal_first);
        assert forall|j: int| 0 <= j < k - 1 implies ms[j] == hvline_moves(a, (k - 1) as nat, horizontal_first)[j] by {}
    }
}

/// `vvcurveto` (26) and `hhcurveto` (27) over `n` values: after an optional first value (when
/// `n` is odd), which moves the pen across (`vvcurveto`) or up (`hhcurveto`) without a point,
/// each group of four values `d1 d2 d3 d4` draws a cubic curve whose first control point is `d1`
/// along the curve's axis, whose second is `(d2, d3)` further, and whose end is `d4` further along
/// the axis; the groups must use up the values.
pub proof fn lemma_vv_hh_curve_moves(b0: u8, a: Seq<i32>, n: int)
    requires
        b0 == 26 || b0 == 27,
        0 <= n,
    ensures
        ({
            let first: int = if n % 2 == 0 { 0 } else { 1 };
            let vertical = b0 == 26;
            &&& (n - first) % 4 != 0 ==> (draw_moves(b0, a, n) is None)
            &&& (n - first) % 4 == 0 ==> (draw_moves(b0, a, n) matches Some(ms) && ms.len() == first + 3
                * ((n - first) / 4) && (first == 1 ==> ms[0] == (Move {
                dx: if vertical { a[0] as i16 } else { 0 },
                dy: if vertical { 0 } else { a[0] as i16 },
                emit: None,
            })) && forall|jj: int|
                first <= jj < ms.len() ==> {
                    let m = #[trigger] ms[jj];
                    let j = jj - first;
                    let i = first + 4 * (j / 3);
                    &&& j % 3 == 0 ==> m == (Move {
                        dx: if vertical { 0 } else { a[i] as i16 },
                        dy: if vertical { a[i] as i16 } else { 0 },
                        emit: Some(PointKind::FirstCubicControl),
                    })
                    &&& j % 3 == 1 ==> m == (Move {
                        dx: a[i + 1] as i16,
                        dy: a[i + 2] as i16,
                        emit: Some(PointKind::SecondCubicControl),
                    })
                    &&& j % 3 == 2 ==> m == (Move {
                        dx: if vertical { 0 } else { a[i + 3] as i16 },
                        dy: if vertical { a[i + 3] as i16 } else { 0 },
                        emit: Some(PointKind::OnCurve),
                    })
                })
        }),
{
    let first: int = if n % 2 == 0 { 0 } else { 1 };
    if (n - first) % 4 == 0 {
        let k = ((n - first) / 4) as nat;
        lemma_vvhh_indexed(a, first, k, b0 == 26);
        let pre = if n % 2 == 0 {
            Seq::<Move>::empty()
        } else if b0 == 26 {
            seq![Move { dx: d16(a[0]), dy: 0, emit: None }]
        } else {
            seq![Move { dx: 0, dy: d16(a[0]), emit: None }]
        };
        let ms = pre + vvhh_moves(a, first, k, b0 == 26);
        assert forall|jj: int| first <= jj < ms.len() implies #[trigger] ms[jj] == vvhh_moves(a, first, k, b0 == 26)[jj - first] by {}
    }
}

proof fn lemma_vvhh_indexed(a: Seq<i32>, first: int, k: nat, vertical: bool)
    ensures
        vvhh_moves(a, first, k, vertical).len() == 3 * k,
        forall|j: int|
            0 <= j < 3 * k ==> {
                let m = #[trigger] vvhh_moves(a, first, k, vertical)[j];
                let i = first + 4 * (j / 3);
                &&& j % 3 == 0 ==> m == (Move {
                    dx: if vertical { 0 } else { a[i] as i16 },
                    dy: if vertical { a[i] as i16 } else { 0 },
                    emit: Some(PointKind::FirstCubicControl),
                })
                &&& j % 3 == 1 ==> m == (Move {
                    dx: a[i + 1] as i16,
                    dy: a[i + 2] as i16,
                    emit: Some(PointKind::SecondCubicControl),
                })
                &&& j % 3 == 2 ==> m == (Move {
                    dx: if vertical { 0 } else { a[i + 3] as i16 },
                    dy: if vertical { a[i + 3] as i16 } else { 0 },
                    emit: Some(PointKind::OnCurve),
                })
            },
    decreases k,
{
    if k > 0 {
        let k1 = (k - 1) as nat;
        lemma_vvhh_indexed(a, first, k1, vertical);
        let ms = vvhh_moves(a, first, k, vertical);
        let prev = vvhh_moves(a, first, k1, vertical);
        assert forall|j: int| 0 <= j < 3 * k implies {
            let m = #[trigger] ms[j];
            let i = first + 4 * (j / 3);
            &&& j % 3 == 0 ==> m == (Move {
                dx: if vertical { 0 } else { a[i] as i16 },
                dy: if vertical { a[i] as i16 } else { 0 },
                emit: Some(PointKind::FirstCubicControl),
            })
            &&& j % 3 == 1 ==> m == (Move {
                dx: a[i + 1] as i16,
                dy: a[i + 2] as i16,
                emit: Some(PointKind::SecondCubicControl),
            })
            &&& j % 3 == 2 ==> m == (Move {
                dx: if vertical { 0 } else { a[i + 3] as i16 },
                dy: if vertical { a[i + 3] as i16 } else { 0 },
                emit: Some(PointKind::OnCurve),
            })
        } by {
            if j < 3 * k1 {
                assert(ms[j] == prev[j]);
            } else {
                let t = j - 3 * k1;
                vstd::arithmetic::div_mod::lemma_fundamental_div_mod_converse(j, 3, k1 as int, t);
            }
        }
    }
}

/// `rmoveto` (21) moves the pen by the first two values, `hmoveto` (22) across by the first value
/// and `vmoveto` (4) up by it. The open contour, if any, is closed with an on-curve point at its
/// start; a new contour starts at the new pen position with an on-curve point numbered 0, and
/// the values are used up.
pub proof fn lemma_moveto_step(s: Seq<u8>, st: Cs)
    requires
        0 <= st.pos < st.end,
        st.end <= s.len(),
        s[st.pos] == 21 || s[st.pos] == 22 || s[st.pos] == 4,
    ensures
        ({
            let b0 = s[st.pos];
            let dx: int = if b0 == 4 { 0 } else { st.stack[0] as i16 as int };
            let dy: int = if b0 == 21 { st.stack[1] as i16 as int } else if b0 == 22 { 0 } else {
                st.stack[0] as i16 as int
            };
            let nx = st.cur.x + dx;
            let ny = st.cur.y + dy;
            let np = Point2DI16 { x: nx as i16, y: ny as i16 };
            let closing = if st.index == 0 {
                Seq::<Point>::empty()
            } else {
                seq![Point { position: st.start, index_in_contour: st.index as u16, kind: PointKind::OnCurve }]
            };
            (-0x8000 <= nx <= 0x7fff && -0x8000 <= ny <= 0x7fff) ==> cs_step(s, st) == Ok::<
                (Option<Cs>, Seq<Point>),
                FontError,
            >(
                (
                    Some(Cs { pos: st.pos + 1, size: 0, start: np, cur: np, index: 1, ..st }),
                    closing.push(Point { position: np, index_in_contour: 0, kind: PointKind::OnCurve }),
                ),
            )
        }),
{
    let b0 = s[st.pos];
    let dx: i16 = if b0 == 4 { 0 } else { d16(st.stack[0]) };
    let dy: i16 = if b0 == 21 { d16(st.stack[1]) } else if b0 == 22 { 0 } else { d16(st.stack[0]) };
    let nx = st.cur.x + dx;
    let ny = st.cur.y + dy;
    let np = Point2DI16 { x: nx as i16, y: ny as i16 };
    let e = Point { position: np, index_in_contour: 0, kind: PointKind::OnCurve };
    assert(close_pts(st) + seq![e] =~= close_pts(st).push(e));
    assert(pt(np, 0, PointKind::OnCurve) == e);
}

/// `vhcurveto` (30) and `hvcurveto` (31) over `n` values draw one cubic curve for each group of
/// four values `d1 d2 d3 d4`, the groups starting alternately along the y and the x axis
/// (`vhcurveto` starting along y): the first control point is `d1` along the group's axis, the
/// second is `(d2, d3)` further, and the end point is `d4` along the other axis, plus the value
/// after the group along the group's axis when exactly one value follows it.
pub proof fn lemma_vh_hv_curve_moves(b0: u8, a: Seq<i32>, n: int)
    requires
        b0 == 30 || b0 == 31,
        0 <= n,
    ensures
        draw_moves(b0, a, n) matches Some(ms) && ms.len() == 3 * (n / 4) && forall|j: int|
            0 <= j < ms.len() ==> {
                let m = #[trigger] ms[j];
                let g = j / 3;
                let i = 4 * g;
                let vertical = (g % 2 == 0) == (b0 == 30);
                let extra: i16 = if 4 * g + 5 == n { a[n - 1] as i16 } else { 0 };
                &&& j % 3 == 0 ==> m == (Move {
                    dx: if vertical { 0 } else { a[i] as i16 },
                    dy: if vertical { a[i] as i16 } else { 0 },
                    emit: Some(PointKind::FirstCubicControl),
                })
                &&& j % 3 == 1 ==> m == (Move {
                    dx: a[i + 1] as i16,
                    dy: a[i + 2] as i16,
                    emit: Some(PointKind::SecondCubicControl),
                })
                &&& j % 3 == 2 ==> m == (Move {
                    dx: if vertical { a[i + 3] as i16 } else { extra },
                    dy: if vertical { extra } else { a[i + 3] as i16 },
                    emit: Some(PointKind::OnCurve),
                })
            },
{
    lemma_vh_indexed(a, n, (n / 4) as nat, b0 == 30);
}

proof fn lemma_vh_indexed(a: Seq<i32>, n: int, k: nat, vertical_first: bool)
    ensures
        vh_moves(a, n, k, vertical_first).len() == 3 * k,
        forall|j: int|
            0 <= j < 3 * k ==> {
                let m = #[trigger] vh_moves(a, n, k, vertical_first)[j];
                let g = j / 3;
                let i = 4 * g;
                let vertical = (g % 2 == 0) == vertical_first;
                let extra: i16 = if 4 * g + 5 == n { a[n - 1] as i16 } else { 0 };
                &&& j % 3 == 0 ==> m == (Move {
                    dx: if vertical { 0 } else { a[i] as i16 },
                    dy: if vertical { a[i] as i16 } else { 0 },
                    emit: Some(PointKind::FirstCubicControl),
                })
                &&& j % 3 == 1 ==> m == (Move {
                    dx: a[i + 1] as i16,
                    dy: a[i + 2] as i16,
                    emit: Some(PointKind::SecondCubicControl),
                })
                &&& j % 3 == 2 ==> m == (Move {
                    dx: if vertical { a[i + 3] as i16 } else { extra },
                    dy: if vertical { extra } else { a[i + 3] as i16 },
                    emit: Some(PointKind::OnCurve),
                })
            },
    decreases k,
{
    if k > 0 {
        let k1 = (k - 1) as nat;
        lemma_vh_indexed(a, n, k1, vertical_first);
        let ms = vh_moves(a, n, k, vertical_first);
        let prev = vh_moves(a, n, k1, vertical_first);
        assert forall|j: int| 0 <= j < 3 * k implies {
            let m = #[trigger] ms[j];
            let g = j / 3;
            let i = 4 * g;
            let vertical = (g % 2 == 0) == vertical_first;
            let extra: i16 = if 4 * g + 5 == n { a[n - 1] as i16 } else { 0 };
            &&& j % 3 == 0 ==> m == (Move {
                dx: if vertical { 0 } else { a[i] as i16 },
                dy: if vertical { a[i] as i16 } else { 0 },
                emit: Some(PointKind::FirstCubicControl),
            })
            &&& j % 3 == 1 ==> m == (Move {
                dx: a[i + 1] as i16,
                dy: a[i + 2] as i16,
                emit: Some(PointKind::SecondCubicControl),
            })
            &&& j % 3 == 2 ==> m == (Move {
                dx: if vertical { a[i + 3] as i16 } else { extra },
                dy: if vertical { extra } else { a[i + 3] as i16 },
                emit: Some(PointKind::OnCurve),
            })
        } by {
            if j < 3 * k1 {
                assert(ms[j] == prev[j]);
            } else {
                let t = j - 3 * k1;
                vstd::arithmetic::div_mod::lemma_fundamental_div_mod_converse(j, 3, k1 as int, t);
            }
        }
    }
}

/// The operands of a CharString: a byte from 32 to 246 is the value `b0 - 139` (-107 to 107);
/// 247 to 250 with the next byte `b1` give `(b0 - 247) * 256 + b1 + 108` (108 to 1131); 251 to
/// 254 give the negation of `(b0 - 251) * 256 + b1 + 108`; 28 is followed by a big-endian `i16`;
/// 255 by a 16.16 fixed-point number, whose integer part (rounded down) is the value.
pub proof fn lemma_operand_values(s: Seq<u8>, b0: u8, p: int, end: int)
    requires
        0 <= p,
        end <= s.len(),
        b0 == 28 || b0 >= 32,
    ensures
        operand_spec(s, b0, p, end) matches Ok((v, q)) ==> {
            &&& 32 <= b0 <= 246 ==> v == b0 - 139 && -107 <= v <= 107 && q == p
            &&& 247 <= b0 <= 250 ==> v == (b0 - 247) * 256 + s[p] + 108 && 108 <= v <= 1131 && q == p + 1
            &&& 251 <= b0 <= 254 ==> v == -((b0 - 251) * 256 + s[p] + 108) && -1131 <= v <= -108 && q
                == p + 1
            &&& b0 == 28 ==> q == p + 2 && (v - (s[p] as int * 0x100 + s[p + 1] as int)) % 0x1_0000 == 0
                && -0x8000 <= v < 0x8000
            &&& b0 == 255 ==> q == p + 4 && v as int == (s[p] as int * 0x100_0000 + s[p + 1] as int
                * 0x1_0000 + s[p + 2] as int * 0x100 + s[p + 3] as int - if s[p] >= 0x80 {
                0x1_0000_0000int
            } else {
                0int
            }) / 0x1_0000
        },
        (b0 == 28 && p + 2 <= end) || (32 <= b0 <= 246) || (247 <= b0 <= 254 && p + 1 <= end) || (b0
            == 255 && p + 4 <= end) ==> (operand_spec(s, b0, p, end) is Ok),
{
    if b0 == 255 && p + 4 <= end {
        let x = be_i32(s, p);
        assert((x >> 16u32) as int == x as int / 0x1_0000) by {
            assert(x >> 16u32 == x / 0x1_0000) by (bit_vector);
        }
    }
}

/// The point that closes the current contour, if one is open.
pub open spec fn close_pts(st: Cs) -> Seq<Point> {
    if st.index == 0 {
        Seq::empty()
    } else {
        seq![pt(st.start, st.index, PointKind::OnCurve)]
    }
}

/// A moveto: closes the open contour, moves the pen and starts a new contour there.
pub open spec fn moveto_spec(st: Cs, dx: i16, dy: i16) -> Result<(Cs, Seq<Point>), FontError> {
    match apply_move(Cs { index: 0, ..st }, mv(dx, dy, PointKind::OnCurve)) {
        Err(e) => Err(e),
        Ok((st2, pts)) => Ok((Cs { start: st2.cur, size: 0, ..st2 }, close_pts(st) + pts)),
    }
}

/// Pushes an operand, or fails with `CffStackOverflow` when all 48 slots are in use.
pub open spec fn push_spec(st: Cs, v: i32, pos: int) -> Result<(Cs, Seq<Point>), FontError> {
    if st.size >= 48 {
        Err(FontError::CffStackOverflow)
    } else {
        Ok((Cs { stack: st.stack.update(st.size as int, v), size: st.size + 1, pos, ..st }, Seq::empty()))
    }
}

/// The operand encoded by `b0` and the bytes after it at `p` (for `b0` 28 and 32 to 255), and
/// the position after it.
pub open spec fn operand_spec(s: Seq<u8>, b0: u8, p: int, end: int) -> Result<(i32, int), FontError> {
    if 32 <= b0 <= 246 {
        Ok(((b0 - 139) as i32, p))
    } else if 247 <= b0 <= 254 {
        if p + 1 > end {
            Err(FontError::UnexpectedEof)
        } else if b0 <= 250 {
            Ok((((b0 - 247) * 256 + s[p] + 108) as i32, p + 1))
        } else {
            Ok((((b0 - 251) * -256 - s[p] - 108) as i32, p + 1))
        }
    } else if b0 == 255 {
        if p + 4 > end {
            Err(FontError::UnexpectedEof)
        } else {
            Ok((be_i32(s, p) >> 16u32, p + 4))
        }
    } else if p + 2 > end {
        Err(FontError::UnexpectedEof)
    } else {
        Ok((be_i16(s, p) as i32, p + 2))
    }
}

/// True for the operators that draw with the values on the stack.
pub open spec fn is_draw_op(b0: u8) -> bool {
    b0 == 5 || b0 == 6 || b0 == 7 || b0 == 8 || b0 == 26 || b0 == 27 || b0 == 30 || b0 == 31
}

/// Interprets the operator or operand at `st.pos`. Gives the points emitted and the next
/// state, `None` at the end of the CharString or at `endchar`, or the error.
pub open spec fn cs_step(s: Seq<u8>, st: Cs) -> Result<(Option<Cs>, Seq<Point>), FontError> {
    if st.pos >= st.end {
        Ok((None, Seq::empty()))
    } else {
        let b0 = s[st.pos];
        let p = st.pos + 1;
        let n = st.size;
        let a = st.stack;
        if b0 == 28 || b0 >= 32 {
            match operand_spec(s, b0, p, st.end) {
                Err(e) => Err(e),
                Ok((v, p2)) => match push_spec(st, v, p2) {
                    Err(e) => Err(e),
                    Ok((st2, pts)) => Ok((Some(st2), pts)),
                },
            }
        } else if is_draw_op(b0) {
            match draw_moves(b0, a, n as int) {
                None => Err(FontError::Failed),
                Some(ms) => {
                    let (pts, r) = apply_moves(st, ms);
                    match r {
                        Err(e) => Err(e),
                        Ok(st2) => Ok((Some(Cs { pos: p, size: 0, ..st2 }), pts)),
                    }
                },
            }
        } else if b0 == 4 || b0 == 21 || b0 == 22 {
            let dx: i16 = if b0 == 4 {
                0
            } else {
                d16(a[0])
            };
            let dy: i16 = if b0 == 4 {
                d16(a[0])
            } else if b0 == 21 {
                d16(a[1])
            } else {
                0
            };
            match moveto_spec(st, dx, dy) {
                Err(e) => Err(e),
                Ok((st2, pts)) => Ok((Some(Cs { pos: p, ..st2 }), pts)),
            }
        } else if b0 == 14 {
            Ok((None, Seq::empty()))
        } else if b0 == 1 || b0 == 18 || b0 == 3 || b0 == 23 || b0 == 19 {
            let hints = st.hints + n / 2;
            if hints > 0xffff {
                Err(FontError::Failed)
            } else if b0 == 19 && p + (hints + 7) / 8 > st.end {
                Err(FontError::UnexpectedEof)
            } else {
                let p2 = if b0 == 19 {
                    p + (hints + 7) / 8
                } else {
                    p
                };
                Ok((Some(Cs { pos: p2, size: 0, hints, ..st }), Seq::empty()))
            }
        } else if b0 == 12 && p + 1 > st.end {
            Err(FontError::UnexpectedEof)
        } else {
            Err(FontError::CffUnimplementedOperator)
        }
    }
}

/// Moving the pen leaves the position in the CharString alone.
pub proof fn lemma_apply_moves_frame(st: Cs, ms: Seq<Move>)
    ensures
        apply_moves(st, ms).1 matches Ok(st2) ==> st2.pos == st.pos && st2.end == st.end,
    decreases ms.len(),
{
    if ms.len() > 0 {
        lemma_apply_moves_frame(st, ms.drop_last());
    }
}

/// Each operator or operand moves on through the CharString and stays within it.
pub proof fn lemma_cs_step_advances(s: Seq<u8>, st: Cs)
    ensures
        cs_step(s, st) matches Ok((Some(st2), _)) ==> st.pos < st2.pos <= st2.end == st.end,
{
    if let Ok((Some(st2), _)) = cs_step(s, st) {
        let b0 = s[st.pos];
        let p = st.pos + 1;
        if b0 == 28 || b0 >= 32 {
            let (v, p2) = operand_spec(s, b0, p, st.end)->Ok_0;
            assert(p <= p2 <= st.end);
        } else if is_draw_op(b0) {
            lemma_apply_moves_frame(st, draw_moves(b0, st.stack, st.size as int)->Some_0);
        }
    }
}

/// Runs the interpreter from `st` to the end of the CharString. Gives the points emitted
/// (also those before an error) and the final state, or the error.
pub open spec fn cs_run(s: Seq<u8>, st: Cs) -> (Seq<Point>, Result<Cs, FontError>)
    decreases st.end - st.pos,
{
    match cs_step(s, st) {
        Err(e) => (Seq::empty(), Err(e)),
        Ok((None, pts)) => (pts, Ok(st)),
        Ok((Some(st2), pts)) => {
            proof {
                lemma_cs_step_advances(s, st);
            }
            let (more, r) = cs_run(s, st2);
            (pts + more, r)
        },
    }
}

fn rline_moves_exec(a: &[i32; 48], k: usize) -> (v: Vec<Move>)
    requires
        2 * k <= 48,
    ensures
        v@ == rline_moves(a@, k as nat),
{
    let mut v = Vec::new();
    let mut j: usize = 0;
    while j < k
        invariant
            j <= k,
            2 * k <= 48,
            v@ == rline_moves(a@, j as nat),
        decreases k - j,
    {
        let i = 2 * j;
        v.push(Move { dx: a[i] as i16, dy: a[i + 1] as i16, emit: Some(PointKind::OnCurve) });
        j = j + 1;
    }
    v
}

fn hvline_moves_exec(a: &[i32; 48], k: usize, horizontal_first: bool) -> (v: Vec<Move>)
    requires
        k <= 48,
    ensures
        v@ == hvline_moves(a@, k as nat, horizontal_first),
{
    let mut v = Vec::new();
    let mut j: usize = 0;
    while j < k
        invariant
            j <= k,
            k <= 48,
            v@ == hvline_moves(a@, j as nat, horizontal_first),
        decreases k - j,
    {
        let d = a[j] as i16;
        if (j % 2 == 0) == horizontal_first {
            v.push(Move { dx: d, dy: 0, emit: Some(PointKind::OnCurve) });
        } else {
            v.push(Move { dx: 0, dy: d, emit: Some(PointKind::OnCurve) });
        }
        j = j + 1;
    }
    v
}

fn rrcurve_moves_exec(a: &[i32; 48], k: usize) -> (v: Vec<Move>)
    requires
        6 * k <= 48,
    ensures
        v@ == rrcurve_moves(a@, k as nat),
{
    let mut v = Vec::new();
    let mut j: usize = 0;
    while j < k
        invariant
            j <= k,
            6 * k <= 48,
            v@ == rrcurve_moves(a@, j as nat),
        decreases k - j,
    {
        let i = 6 * j;
        v.push(Move { dx: a[i] as i16, dy: a[i + 1] as i16, emit: Some(PointKind::FirstCubicControl) });
        v.push(Move { dx: a[i + 2] as i16, dy: a[i + 3] as i16, emit: Some(PointKind::SecondCubicControl) });
        v.push(Move { dx: a[i + 4] as i16, dy: a[i + 5] as i16, emit: Some(PointKind::OnCurve) });
        j = j + 1;
    }
    v
}

/// Appends the moves of `hv_curve(a, i, last, vertical)`.
fn push_hv_curve(v: &mut Vec<Move>, a: &[i32; 48], i: usize, last: i32, vertical: bool)
    requires
        i + 4 <= 48,
    ensures
        final(v)@ == old(v)@ + hv_curve(a@, i as int, last, vertical),
{
    if vertical {
        v.push(Move { dx: 0, dy: a[i] as i16, emit: Some(PointKind::FirstCubicControl) });
        v.push(Move { dx: a[i + 1] as i16, dy: a[i + 2] as i16, emit: Some(PointKind::SecondCubicControl) });
        v.push(Move { dx: a[i + 3] as i16, dy: last as i16, emit: Some(PointKind::OnCurve) });
    } else {
        v.push(Move { dx: a[i] as i16, dy: 0, emit: Some(PointKind::FirstCubicControl) });
        v.push(Move { dx: a[i + 1] as i16, dy: a[i + 2] as i16, emit: Some(PointKind::SecondCubicControl) });
        v.push(Move { dx: last as i16, dy: a[i + 3] as i16, emit: Some(PointKind::OnCurve) });
    }
    assert(final(v)@ =~= old(v)@ + hv_curve(a@, i as int, last, vertical));
}

fn vh_moves_exec(a: &[i32; 48], n: usize, k: usize, vertical_first: bool) -> (v: Vec<Move>)
    requires
        4 * k <= n <= 48,
    ensures
        v@ == vh_moves(a@, n as int, k as nat, vertical_first),
{
    let mut v = Vec::new();
    let mut j: usize = 0;
    while j < k
        invariant
            j <= k,
            4 * k <= n <= 48,
            v@ == vh_moves(a@, n as int, j as nat, vertical_first),
        decreases k - j,
    {
        let i = 4 * j;
        let last = if i + 5 == n {
            a[n - 1]
        } else {
            0
        };
        push_hv_curve(&mut v, a, i, last, (j % 2 == 0) == vertical_first);
        j = j + 1;
    }
    v
}

fn vvhh_moves_exec(a: &[i32; 48], first: usize, k: usize, vertical: bool) -> (v: Vec<Move>)
    requires
        first + 4 * k <= 48,
    ensures
        v@ == vvhh_moves(a@, first as int, k as nat, vertical),
{
    let mut v = Vec::new();
    let mut j: usize = 0;
    while j < k
        invariant
            j <= k,
            first + 4 * k <= 48,
            v@ == vvhh_moves(a@, first as int, j as nat, vertical),
        decreases k - j,
    {
        let ghost old_v = v@;
        let i = first + 4 * j;
        if vertical {
            v.push(Move { dx: 0, dy: a[i] as i16, emit: Some(PointKind::FirstCubicControl) });
            v.push(Move { dx: a[i + 1] as i16, dy: a[i + 2] as i16, emit: Some(PointKind::SecondCubicControl) });
            v.push(Move { dx: 0, dy: a[i + 3] as i16, emit: Some(PointKind::OnCurve) });
        } else {
            v.push(Move { dx: a[i] as i16, dy: 0, emit: Some(PointKind::FirstCubicControl) });
            v.push(Move { dx: a[i + 1] as i16, dy: a[i + 2] as i16, emit: Some(PointKind::SecondCubicControl) });
            v.push(Move { dx: a[i + 3] as i16, dy: 0, emit: Some(PointKind::OnCurve) });
        }
        assert(v@ =~= vvhh_moves(a@, first as int, (j + 1) as nat, vertical));
        j = j + 1;
    }
    v
}

/// The moves of a drawing operator (see `draw_moves`).
fn draw_moves_exec(b0: u8, a: &[i32; 48], n: u8) -> (r: Option<Vec<Move>>)
    requires
        is_draw_op(b0),
        n <= 48,
    ensures
        match r {
            Some(v) => draw_moves(b0, a@, n as int) == Some(v@),
            None => draw_moves(b0, a@, n as int) is None,
        },
{
    let n = n as usize;
    if b0 == 5 {
        if n % 2 != 0 {
            None
        } else {
            Some(rline_moves_exec(a, n / 2))
        }
    } else if b0 == 6 || b0 == 7 {
        Some(hvline_moves_exec(a, n, b0 == 6))
    } else if b0 == 8 {
        if n % 6 != 0 {
            None
        } else {
            Some(rrcurve_moves_exec(a, n / 6))
        }
    } else if b0 == 30 || b0 == 31 {
        Some(vh_moves_exec(a, n, n / 4, b0 == 30))
    } else {
        let first: usize = if n % 2 == 0 {
            0
        } else {
            1
        };
        if (n - first) % 4 != 0 {
            return None;
        }
        let mut v = Vec::new();
        if n % 2 != 0 {
            if b0 == 26 {
                v.push(Move { dx: a[0] as i16, dy: 0, emit: None });
            } else {
                v.push(Move { dx: 0, dy: a[0] as i16, emit: None });
            }
        }
        let ghost pre = v@;
        let mut rest = vvhh_moves_exec(a, first, (n - first) / 4, b0 == 26);
        v.append(&mut rest);
        assert(v@ =~= pre + vvhh_moves(a@, first as int, ((n - first) / 4) as nat, b0 == 26));
        Some(v)
    }
}

/// The CharString interpreter (see `Cs`).
struct CharStringInterpreter {
    pos: usize,
    end: usize,
    array: [i32; 48],
    size: u8,
    start: Point2DI16,
    cur: Point2DI16,
    index_in_contour: u16,
    hint_count: u16,
}

impl CharStringInterpreter {
    spec fn state(&self) -> Cs {
        Cs {
            pos: self.pos as int,
            end: self.end as int,
            stack: self.array@,
            size: self.size as nat,
            start: self.start,
            cur: self.cur,
            index: self.index_in_contour as int,
            hints: self.hint_count as nat,
        }
    }

    spec fn wf(&self, len: int) -> bool {
        &&& self.size <= 48
        &&& self.pos <= self.end <= len
    }

    /// Moves the pen (see `apply_move`).
    fn apply_move(&mut self, m: Move, out: &mut Vec<Point>) -> (r: Result<(), FontError>)
        ensures
            match apply_move(old(self).state(), m) {
                Ok((st2, pts)) => r is Ok && final(self).state() == st2 && final(out)@ == old(out)@
                    + pts,
                Err(e) => r == Err::<(), FontError>(e) && final(out)@ == old(out)@,
            },
            final(self).pos == old(self).pos,
            final(self).end == old(self).end,
            final(self).size == old(self).size,
    {
        let nx = self.cur.x as i32 + m.dx as i32;
        let ny = self.cur.y as i32 + m.dy as i32;
        if nx < -0x8000 || nx > 0x7fff || ny < -0x8000 || ny > 0x7fff {
            return Err(FontError::Failed);
        }
        let np = Point2DI16 { x: nx as i16, y: ny as i16 };
        match m.emit {
            None => {
                self.cur = np;
                assert(out@ =~= out@ + Seq::<Point>::empty());
                Ok(())
            },
            Some(kind) => {
                if self.index_in_contour == 0xffff {
                    return Err(FontError::Failed);
                }
                out.push(Point { position: np, index_in_contour: self.index_in_contour, kind });
                self.cur = np;
                self.index_in_contour = self.index_in_contour + 1;
                Ok(())
            },
        }
    }

    /// Applies moves in order (see `apply_moves`).
    fn apply_moves(&mut self, ms: &Vec<Move>, out: &mut Vec<Point>) -> (r: Result<(), FontError>)
        ensures
            final(out)@ == old(out)@ + apply_moves(old(self).state(), ms@).0,
            match apply_moves(old(self).state(), ms@).1 {
                Ok(st2) => r is Ok && final(self).state() == st2,
                Err(e) => r == Err::<(), FontError>(e),
            },
            final(self).pos == old(self).pos,
            final(self).end == old(self).end,
            final(self).size == old(self).size,
    {
        let ghost st0 = self.state();
        let ghost base = out@;
        let mut i: usize = 0;
        assert(ms@.take(0) =~= Seq::<Move>::empty());
        assert(base =~= base + Seq::<Point>::empty());
        while i < ms.len()
            invariant
                i <= ms.len(),
                out@ == base + apply_moves(st0, ms@.take(i as int)).0,
                apply_moves(st0, ms@.take(i as int)).1 == Ok::<Cs, FontError>(self.state()),
                self.pos == old(self).pos,
                self.end == old(self).end,
                self.size == old(self).size,
                st0 == old(self).state(),
                base == old(out)@,
            decreases ms.len() - i,
        {
            assert(ms@.take(i + 1).drop_last() =~= ms@.take(i as int));
            assert(ms@.take(i + 1).last() == ms@[i as int]);
            let ghost before = out@;
            match self.apply_move(ms[i], out) {
                Ok(_) => {
                    assert(out@ =~= base + apply_moves(st0, ms@.take(i + 1)).0);
                },
                Err(e) => {
                    proof {
                        lemma_moves_stop(st0, ms@, (i + 1) as nat);
                    }
                    return Err(e);
                },
            }
            i = i + 1;
        }
        assert(ms@.take(ms@.len() as int) =~= ms@);
        Ok(())
    }

    /// Pushes an operand (see `push_spec`).
    fn push(&mut self, v: i32) -> (r: Result<(), FontError>)
        requires
            old(self).size <= 48,
        ensures
            match push_spec(old(self).state(), v, old(self).pos as int) {
                Ok((st2, _)) => r is Ok && final(self).state() == st2,
                Err(e) => r == Err::<(), FontError>(e),
            },
            final(self).pos == old(self).pos,
            final(self).end == old(self).end,
            final(self).size <= 48,
    {
        if (self.size as usize) < 48 {
            self.array[self.size as usize] = v;
            self.size = self.size + 1;
            Ok(())
        } else {
            Err(FontError::CffStackOverflow)
        }
    }
}

/// Once applying moves fails, applying more moves changes nothing.
proof fn lemma_moves_stop(st: Cs, ms: Seq<Move>, k: nat)
    requires
        k <= ms.len(),
        apply_moves(st, ms.take(k as int)).1 is Err,
    ensures
        apply_moves(st, ms) == apply_moves(st, ms.take(k as int)),
    decreases ms.len() - k,
{
    if k < ms.len() {
        assert(ms.take(k + 1 as int).drop_last() =~= ms.take(k as int));
        lemma_moves_stop(st, ms, k + 1);
    } else {
        assert(ms.take(k as int) =~= ms);
    }
}

/// Reads the operand encoded by `b0` and the bytes at `p` (see `operand_spec`).
fn read_operand(bytes: &[u8], b0: u8, p: usize, end: usize) -> (r: Result<(i32, usize), FontError>)
    requires
        end <= bytes@.len(),
        p <= end,
        b0 == 28 || b0 >= 32,
    ensures
        match r {
            Ok((v, p2)) => operand_spec(bytes@, b0, p as int, end as int) == Ok::<(i32, int), FontError>(
                (v, p2 as int),
            ) && p <= p2 <= end,
            Err(e) => operand_spec(bytes@, b0, p as int, end as int) == Err::<(i32, int), FontError>(e),
        },
{
    if 32 <= b0 && b0 <= 246 {
        Ok((b0 as i32 - 139, p))
    } else if 247 <= b0 && b0 <= 254 {
        if p >= end {
            return Err(FontError::UnexpectedEof);
        }
        let b1 = bytes[p] as i32;
        if b0 <= 250 {
            Ok(((b0 as i32 - 247) * 256 + b1 + 108, p + 1))
        } else {
            Ok(((b0 as i32 - 251) * -256 - b1 - 108, p + 1))
        }
    } else if b0 == 255 {
        if end - p < 4 {
            return Err(FontError::UnexpectedEof);
        }
        let v = i32_at(bytes, p)?;
        Ok((v >> 16u32, p + 4))
    } else {
        if end - p < 2 {
            return Err(FontError::UnexpectedEof);
        }
        let v = i16_at(bytes, p)?;
        Ok((v as i32, p + 2))
    }
}

impl CharStringInterpreter {
    /// Interprets the operator or operand at the current position (see `cs_step`). Returns
    /// whether the CharString goes on.
    #[verifier::rlimit(60)]
    fn step(&mut self, bytes: &[u8], out: &mut Vec<Point>) -> (r: Result<bool, FontError>)
        requires
            old(self).wf(bytes@.len() as int),
        ensures
            final(self).wf(bytes@.len() as int),
            final(self).end == old(self).end,
            match cs_step(bytes@, old(self).state()) {
                Ok((Some(st2), pts)) => r == Ok::<bool, FontError>(true) && final(self).state() == st2
                    && final(out)@ == old(out)@ + pts && final(self).pos > old(self).pos,
                Ok((None, pts)) => r == Ok::<bool, FontError>(false) && final(self).state() == old(
                    self,
                ).state() && final(out)@ == old(out)@ + pts,
                Err(e) => r == Err::<bool, FontError>(e) && final(out)@ == old(out)@,
            },
    {
        if self.pos >= self.end {
            assert(out@ =~= out@ + Seq::<Point>::empty());
            return Ok(false);
        }
        let b0 = bytes[self.pos];
        let p = self.pos + 1;
        let ghost st = self.state();
        if b0 == 28 || b0 >= 32 {
            let (v, p2) = read_operand(bytes, b0, p, self.end)?;
            self.push(v)?;
            self.pos = p2;
            assert(out@ =~= out@ + Seq::<Point>::empty());
            return Ok(true);
        }
        if b0 == 5 || b0 == 6 || b0 == 7 || b0 == 8 || b0 == 26 || b0 == 27 || b0 == 30 || b0 == 31 {
            let ms = match draw_moves_exec(b0, &self.array, self.size) {
                None => {
                    return Err(FontError::Failed);
                },
                Some(ms) => ms,
            };
            let mut pts = Vec::new();
            self.apply_moves(&ms, &mut pts)?;
            assert(pts@ =~= apply_moves(st, ms@).0);
            out.append(&mut pts);
            self.pos = p;
            self.size = 0;
            return Ok(true);
        }
        if b0 == 4 || b0 == 21 || b0 == 22 {
            let dx: i16 = if b0 == 4 {
                0
            } else {
                self.array[0] as i16
            };
            let dy: i16 = if b0 == 4 {
                self.array[0] as i16
            } else if b0 == 21 {
                self.array[1] as i16
            } else {
                0
            };
            let mut pts = Vec::new();
            if self.index_in_contour != 0 {
                pts.push(Point { position: self.start, index_in_contour: self.index_in_contour, kind: PointKind::OnCurve });
            }
            assert(pts@ =~= close_pts(st));
            let saved_index = self.index_in_contour;
            self.index_in_contour = 0;
            let res = self.apply_move(Move { dx, dy, emit: Some(PointKind::OnCurve) }, &mut pts);
            if let Err(e) = res {
                self.index_in_contour = saved_index;
                return Err(e);
            }
            self.start = self.cur;
            self.size = 0;
            self.pos = p;
            out.append(&mut pts);
            return Ok(true);
        }
        if b0 == 14 {
            assert(out@ =~= out@ + Seq::<Point>::empty());
            return Ok(false);
        }
        if b0 == 1 || b0 == 18 || b0 == 3 || b0 == 23 || b0 == 19 {
            let hints: u32 = self.hint_count as u32 + self.size as u32 / 2;
            if hints > 0xffff {
                return Err(FontError::Failed);
            }
            let mut p2 = p;
            if b0 == 19 {
                let skip = (hints as usize + 7) / 8;
                if skip > self.end - p {
                    return Err(FontError::UnexpectedEof);
                }
                p2 = p + skip;
            }
            self.pos = p2;
            self.size = 0;
            self.hint_count = hints as u16;
            assert(out@ =~= out@ + Seq::<Point>::empty());
            return Ok(true);
        }
        if b0 == 12 && p >= self.end {
            return Err(FontError::UnexpectedEof);
        }
        Err(FontError::CffUnimplementedOperator)
    }

    /// Runs the interpreter to the end of the CharString (see `cs_run`).
    fn run(&mut self, bytes: &[u8], out: &mut Vec<Point>) -> (r: Result<(), FontError>)
        requires
            old(self).wf(bytes@.len() as int),
        ensures
            final(out)@ == old(out)@ + cs_run(bytes@, old(self).state()).0,
            match cs_run(bytes@, old(self).state()).1 {
                Ok(st) => r is Ok && final(self).state() == st,
                Err(e) => r == Err::<(), FontError>(e),
            },
    {
        let ghost st0 = self.state();
        let ghost base = out@;
        loop
            invariant
                self.wf(bytes@.len() as int),
                base + cs_run(bytes@, st0).0 == out@ + cs_run(bytes@, self.state()).0,
                cs_run(bytes@, st0).1 == cs_run(bytes@, self.state()).1,
                st0 == old(self).state(),
                base == old(out)@,
            decreases self.end - self.pos,
        {
            let ghost cur = self.state();
            let ghost before = out@;
            let res = self.step(bytes, out);
            match res {
                Ok(true) => {
                    assert(before + cs_run(bytes@, cur).0 =~= out@ + cs_run(bytes@, self.state()).0);
                },
                Ok(false) => {
                    assert(base + cs_run(bytes@, st0).0 =~= out@);
                    return Ok(());
                },
                Err(e) => {
                    assert(base + cs_run(bytes@, st0).0 =~= out@);
                    return Err(e);
                },
            }
        }
    }
}

/// The interpreter state at the start of a CharString: an empty stack of 48 zeroed slots, the
/// pen at the origin and no contour open.
pub open spec fn initial_cs(start: int, end: int) -> Cs {
    Cs {
        pos: start,
        end,
        stack: Seq::new(48, |i: int| 0i32),
        size: 0,
        start: Point2DI16 { x: 0, y: 0 },
        cur: Point2DI16 { x: 0, y: 0 },
        index: 0,
        hints: 0,
    }
}

/// What interpreting the CharString at `start..end` gives: the points emitted (also those
/// before an error), with the open contour closed at the end, and whether it succeeded.
pub open spec fn charstring_spec(s: Seq<u8>, start: int, end: int) -> (Seq<Point>, Result<(), FontError>) {
    let (pts, r) = cs_run(s, initial_cs(start, end));
    match r {
        Err(e) => (pts, Err(e)),
        Ok(st) => (pts + close_pts(st), Ok(())),
    }
}

/// Interprets the CharString at `start..end`, appending its points to `out` (see
/// `charstring_spec`).
fn charstring_points(bytes: &[u8], start: usize, end: usize, out: &mut Vec<Point>) -> (r: Result<(), FontError>)
    requires
        start <= end <= bytes@.len(),
    ensures
        final(out)@ == old(out)@ + charstring_spec(bytes@, start as int, end as int).0,
        r == charstring_spec(bytes@, start as int, end as int).1,
{
    let mut interp = CharStringInterpreter {
        pos: start,
        end: end,
        array: [0i32; 48],
        size: 0,
        start: Point2DI16 { x: 0, y: 0 },
        cur: Point2DI16 { x: 0, y: 0 },
        index_in_contour: 0,
        hint_count: 0,
    };
    assert(interp.array@ =~= Seq::new(48, |i: int| 0i32));
    assert(interp.state() == initial_cs(start as int, end as int));
    let ghost base = out@;
    interp.run(bytes, out)?;
    if interp.index_in_contour != 0 {
        out.push(Point { position: interp.start, index_in_contour: interp.index_in_contour, kind: PointKind::OnCurve });
    }
    assert(out@ =~= base + charstring_spec(bytes@, start as int, end as int).0);
    Ok(())
}

/// What interpreting the CharString of a glyph gives: the points emitted (also those before an
/// error) and whether it succeeded. The CharString is the glyph's element of the CharStrings
/// INDEX; one past the INDEX's end is `UnexpectedEof`.
pub open spec fn cff_points_spec(s: Seq<u8>, char_strings: u32, glyph_id: u16) -> (Seq<Point>, Result<
    (),
    FontError,
>) {
    if char_strings > s.len() {
        (Seq::empty(), Err(FontError::UnexpectedEof))
    } else {
        match find_spec(s, char_strings as int, glyph_id) {
            Err(e) => (Seq::empty(), Err(e)),
            Ok((None, _)) => (Seq::empty(), Err(FontError::UnexpectedEof)),
            Ok((Some(len), p)) => if p + len > s.len() {
                (Seq::empty(), Err(FontError::Failed))
            } else {
                charstring_spec(s, p, p + len)
            },
        }
    }
}

/// The smaller of two values.
pub open spec fn min_i32(a: i32, b: i32) -> i32 {
    if a <= b {
        a
    } else {
        b
    }
}

/// The larger of two values.
pub open spec fn max_i32(a: i32, b: i32) -> i32 {
    if a >= b {
        a
    } else {
        b
    }
}

/// The smallest bounds that hold the origin and every point.
pub open spec fn bounds_of(pts: Seq<Point>) -> GlyphBounds
    decreases pts.len(),
{
    if pts.len() == 0 {
        GlyphBounds { left: 0, bottom: 0, right: 0, top: 0 }
    } else {
        let b = bounds_of(pts.drop_last());
        let q = pts.last().position;
        GlyphBounds {
            left: min_i32(b.left, q.x as i32),
            bottom: min_i32(b.bottom, q.y as i32),
            right: max_i32(b.right, q.x as i32),
            top: max_i32(b.top, q.y as i32),
        }
    }
}

impl<'a> CffTable<'a> {
    /// Appends the points of a glyph to `out`, also when interpreting its CharString fails
    /// midway (see `cff_points_spec`).
    pub fn push_points(&self, glyph_id: u16, out: &mut Vec<Point>) -> (r: Result<(), FontError>)
        ensures
            final(out)@ == old(out)@ + cff_points_spec(self.table.bytes@, self.char_strings, glyph_id).0,
            r == cff_points_spec(self.table.bytes@, self.char_strings, glyph_id).1,
    {
        let bytes = self.table.bytes;
        let ghost base = out@;
        assert(base =~= base + Seq::<Point>::empty());
        if self.char_strings as usize > bytes.len() {
            return Err(FontError::UnexpectedEof);
        }
        let (len, p) = find_in_index(bytes, self.char_strings as usize, glyph_id)?;
        let len = match len {
            None => {
                return Err(FontError::UnexpectedEof);
            },
            Some(len) => len,
        };
        if len as usize > bytes.len() - p {
            return Err(FontError::Failed);
        }
        charstring_points(bytes, p, p + len as usize, out)
    }

    /// Returns the points of the outline of a glyph, contour by contour.
    pub fn for_each_point(&self, glyph_id: u16) -> (r: Result<Vec<Point>, FontError>)
        ensures
            match r {
                Ok(v) => cff_points_spec(self.table.bytes@, self.char_strings, glyph_id) == (
                v@,
                Ok::<(), FontError>(()),
                ),
                Err(e) => cff_points_spec(self.table.bytes@, self.char_strings, glyph_id).1 == Err::<
                    (),
                    FontError,
                >(e),
            },
    {
        let mut points = Vec::new();
        self.push_points(glyph_id, &mut points)?;
        assert(points@ =~= cff_points_spec(self.table.bytes@, self.char_strings, glyph_id).0);
        Ok(points)
    }

    /// Returns the bounds of a glyph: the smallest that hold the origin and every point of its
    /// outline. Points decoded before an error count; the error itself is ignored, except
    /// `Failed`.
    pub fn glyph_bounds(&self, glyph_id: u16) -> (r: Result<GlyphBounds, FontError>)
        ensures
            ({
                let (pts, st) = cff_points_spec(self.table.bytes@, self.char_strings, glyph_id);
                if st == Err::<(), FontError>(FontError::Failed) {
                    r == Err::<GlyphBounds, FontError>(FontError::Failed)
                } else {
                    r == Ok::<GlyphBounds, FontError>(bounds_of(pts))
                }
            }),
    {
        let mut points = Vec::new();
        let status = self.push_points(glyph_id, &mut points);
        if let Err(FontError::Failed) = status {
            return Err(FontError::Failed);
        }
        let mut bounds = GlyphBounds::zero();
        let mut i: usize = 0;
        assert(points@.take(0) =~= Seq::<Point>::empty());
        while i < points.len()
            invariant
                i <= points.len(),
                bounds == bounds_of(points@.take(i as int)),
            decreases points.len() - i,
        {
            assert(points@.take(i + 1).drop_last() =~= points@.take(i as int));
            let q = points[i].position;
            let x = q.x as i32;
            let y = q.y as i32;
            if x < bounds.left {
                bounds.left = x;
            }
            if y < bounds.bottom {
                bounds.bottom = y;
            }
            if x > bounds.right {
                bounds.right = x;
            }
            if y > bounds.top {
                bounds.top = y;
            }
            i = i + 1;
        }
        assert(points@.take(points@.len() as int) =~= points@);
        assert(points@ =~= cff_points_spec(self.table.bytes@, self.char_strings, glyph_id).0);
        Ok(bounds)
    }
}

/// Moving the pen keeps the points indexed and the next index continuing them.
proof fn lemma_apply_move_indices(st: Cs, m: Move, out: Seq<Point>)
    requires
        indices_ok(out),
        continues(out, st.index),
        0 <= st.index <= 0xffff,
    ensures
        apply_move(st, m) matches Ok((st2, pts)) ==> indices_ok(out + pts) && continues(
            out + pts,
            st2.index,
        ) && 0 <= st2.index <= 0xffff,
{
    if let Ok((st2, pts)) = apply_move(st, m) {
        if m.emit is Some {
            lemma_indices_push(out, pts[0]);
            assert(out + pts =~= out.push(pts[0]));
        } else {
            assert(out + pts =~= out);
        }
    }
}

/// Moving the pen repeatedly keeps the points indexed.
proof fn lemma_apply_moves_indices(st: Cs, ms: Seq<Move>, out: Seq<Point>)
    requires
        indices_ok(out),
        continues(out, st.index),
        0 <= st.index <= 0xffff,
    ensures
        indices_ok(out + apply_moves(st, ms).0),
        apply_moves(st, ms).1 matches Ok(st2) ==> continues(out + apply_moves(st, ms).0, st2.index)
            && 0 <= st2.index <= 0xffff,
    decreases ms.len(),
{
    if ms.len() == 0 {
        assert(out + Seq::<Point>::empty() =~= out);
    } else {
        lemma_apply_moves_indices(st, ms.drop_last(), out);
        let (o1, r) = apply_moves(st, ms.drop_last());
        if let Ok(st1) = r {
            lemma_apply_move_indices(st1, ms.last(), out + o1);
            if let Ok((st2, pts)) = apply_move(st1, ms.last()) {
                assert(out + (o1 + pts) =~= (out + o1) + pts);
            }
        }
    }
}

/// Closing the open contour keeps the points indexed.
proof fn lemma_close_pts_indices(st: Cs, out: Seq<Point>)
    requires
        indices_ok(out),
        continues(out, st.index),
        0 <= st.index <= 0xffff,
    ensures
        indices_ok(out + close_pts(st)),
{
    if st.index == 0 {
        assert(out + close_pts(st) =~= out);
    } else {
        lemma_indices_push(out, close_pts(st)[0]);
        assert(out + close_pts(st) =~= out.push(close_pts(st)[0]));
    }
}

/// Interpreting one operator keeps the points indexed.
proof fn lemma_cs_step_indices(s: Seq<u8>, st: Cs, out: Seq<Point>)
    requires
        indices_ok(out),
        continues(out, st.index),
        0 <= st.index <= 0xffff,
    ensures
        cs_step(s, st) matches Ok((next, pts)) ==> indices_ok(out + pts) && (next matches Some(
            st2,
        ) ==> continues(out + pts, st2.index) && 0 <= st2.index <= 0xffff) && (next is None
            ==> pts.len() == 0),
{
    if let Ok((next, pts)) = cs_step(s, st) {
        if st.pos < st.end {
            let b0 = s[st.pos];
            if b0 == 28 || b0 >= 32 {
                assert(out + pts =~= out);
            } else if is_draw_op(b0) {
                let ms = draw_moves(b0, st.stack, st.size as int)->Some_0;
                lemma_apply_moves_indices(st, ms, out);
            } else if b0 == 4 || b0 == 21 || b0 == 22 {
                lemma_close_pts_indices(st, out);
                let c = close_pts(st);
                let dx: i16 = if b0 == 4 {
                    0
                } else {
                    d16(st.stack[0])
                };
                let dy: i16 = if b0 == 4 {
                    d16(st.stack[0])
                } else if b0 == 21 {
                    d16(st.stack[1])
                } else {
                    0
                };
                let st0 = Cs { index: 0, ..st };
                lemma_apply_move_indices(st0, mv(dx, dy, PointKind::OnCurve), out + c);
                let (st2, p2) = apply_move(st0, mv(dx, dy, PointKind::OnCurve))->Ok_0;
                assert(pts == c + p2);
                assert(out + (c + p2) =~= (out + c) + p2);
            } else {
                assert(out + pts =~= out);
            }
        } else {
            assert(out + pts =~= out);
        }
    }
}

/// Interpreting a CharString keeps the points indexed.
proof fn lemma_cs_run_indices(s: Seq<u8>, st: Cs, out: Seq<Point>)
    requires
        indices_ok(out),
        continues(out, st.index),
        0 <= st.index <= 0xffff,
    ensures
        indices_ok(out + cs_run(s, st).0),
        cs_run(s, st).1 matches Ok(st2) ==> continues(out + cs_run(s, st).0, st2.index) && 0
            <= st2.index <= 0xffff,
    decreases st.end - st.pos,
{
    lemma_cs_step_indices(s, st, out);
    match cs_step(s, st) {
        Err(_) => {
            assert(out + Seq::<Point>::empty() =~= out);
        },
        Ok((None, pts)) => {
            assert(out + pts =~= out);
        },
        Ok((Some(st2), pts)) => {
            lemma_cs_step_advances(s, st);
            lemma_cs_run_indices(s, st2, out + pts);
            let (more, r) = cs_run(s, st2);
            assert(out + (pts + more) =~= (out + pts) + more);
        },
    }
}

/// The points of a CFF glyph come contour by contour (see `indices_ok`), also those drawn
/// before an error.
pub proof fn lemma_cff_points_indexed(s: Seq<u8>, char_strings: u32, glyph_id: u16)
    ensures
        indices_ok(cff_points_spec(s, char_strings, glyph_id).0),
{
    let e = Seq::<Point>::empty();
    if char_strings <= s.len() {
        if let Ok((Some(len), p)) = find_spec(s, char_strings as int, glyph_id) {
            if p + len <= s.len() {
                let st0 = initial_cs(p, p + len);
                lemma_cs_run_indices(s, st0, e);
                let (pts, r) = cs_run(s, st0);
                assert(e + pts =~= pts);
                if let Ok(st) = r {
                    lemma_close_pts_indices(st, pts);
                }
            }
        }
    }
}

} // verus!
