//! TrueType glyph outlines (the `glyf` table).
//!
//! A simple glyph stores its points as run-length coded flags followed by delta-coded X and Y
//! coordinates; consecutive off-curve points imply an on-curve point midway between them. The
//! decoder below turns that into a list of points, contour by contour, with the implied points
//! made explicit and each contour closed by repeating its first on-curve point.
//!
//! Arithmetic that would leave the range of the 16-bit coordinates and counters of the format
//! fails with `FontError::Failed`.

use vstd::prelude::*;

use crate::error::FontError;
use crate::geometry::Point2DI16;
use crate::otf::head::HeadTable;
use crate::otf::loca::{location_spec, LocaTable};
use crate::otf::FontTable;
use crate::outline::GlyphBounds;
use crate::util::{be_i16, be_u16, fits, i16_at, i8_at, i8_of, u16_at, u8_at};

verus! {

pub const ON_CURVE: u8 = 1;
pub const X_SHORT_VECTOR: u8 = 2;
pub const Y_SHORT_VECTOR: u8 = 4;
pub const REPEAT: u8 = 8;
pub const THIS_X_IS_SAME: u8 = 16;
pub const THIS_Y_IS_SAME: u8 = 32;

/// A point of a glyph outline.
#[derive(Clone, Copy, PartialEq, Eq, Debug, Structural)]
pub struct Point {
    /// Where the point is located in glyph space.
    pub position: Point2DI16,
    /// The index of the point in this contour. A value of 0 here indicates that a new contour
    /// begins.
    pub index_in_contour: u16,
    /// The kind of point this is.
    pub kind: PointKind,
}

/// The type of point.
#[derive(Clone, Copy, PartialEq, Eq, Debug, Structural)]
pub enum PointKind {
    /// The point is on the curve.
    OnCurve,
    /// The point is a quadratic control point.
    QuadControl,
    /// The point is the first cubic control point.
    FirstCubicControl,
    /// The point is the second cubic control point.
    SecondCubicControl,
}

#[derive(Clone, Copy, Debug)]
pub struct GlyfTable<'a> {
    pub table: FontTable<'a>,
}

/// True when flag byte `f` has all the bits of `bit` set.
pub open spec fn flag_set(f: u8, bit: u8) -> bool {
    f & bit == bit
}

/// True when `v` is a value of `i16`.
pub open spec fn in_i16(v: int) -> bool {
    -0x8000 <= v <= 0x7fff
}

/// Division by two rounding toward zero.
pub open spec fn half(v: int) -> int {
    if v >= 0 {
        v / 2
    } else {
        -((-v) / 2)
    }
}

/// A point of a contour.
pub open spec fn pt(position: Point2DI16, index: int, kind: PointKind) -> Point {
    Point { position, index_in_contour: index as u16, kind }
}

/// The run-length decoder of the flags of a simple glyph: the position of the next unread
/// byte, the flag byte in force and how many more points repeat it.
#[derive(Clone, Copy, PartialEq, Eq, Debug, Structural)]
pub struct FlagParser {
    pub next: usize,
    pub current: u8,
    pub repeats_left: u8,
}

/// One step of the flag decoder: use up a repeat, or read the next flag byte (and its repeat
/// count when it has the `REPEAT` bit).
pub open spec fn flag_next(s: Seq<u8>, p: FlagParser) -> Result<FlagParser, FontError> {
    if p.repeats_left > 0 {
        Ok(FlagParser { next: p.next, current: p.current, repeats_left: (p.repeats_left - 1) as u8 })
    } else if !fits(s, p.next as int, 1) {
        Err(FontError::UnexpectedEof)
    } else if flag_set(s[p.next as int], REPEAT) {
        if !fits(s, p.next + 1, 1) {
            Err(FontError::UnexpectedEof)
        } else {
            Ok(
                FlagParser {
                    next: (p.next + 2) as usize,
                    current: s[p.next as int],
                    repeats_left: s[p.next + 1],
                },
            )
        }
    } else {
        Ok(FlagParser { next: (p.next + 1) as usize, current: s[p.next as int], repeats_left: 0 })
    }
}

/// Reads one coordinate delta at `pos` under flag `f`: a byte whose sign the `same` bit gives
/// when the `short` bit is set, nothing (a zero delta) when only the `same` bit is set, and a
/// big-endian `i16` otherwise. Gives the delta and the position after it.
pub open spec fn delta_spec(s: Seq<u8>, pos: int, f: u8, short: u8, same: u8) -> Result<
    (int, int),
    FontError,
> {
    if flag_set(f, short) {
        if !fits(s, pos, 1) {
            Err(FontError::UnexpectedEof)
        } else if flag_set(f, same) {
            Ok((s[pos] as int, pos + 1))
        } else {
            Ok((-(s[pos] as int), pos + 1))
        }
    } else if !flag_set(f, same) {
        if !fits(s, pos, 2) {
            Err(FontError::UnexpectedEof)
        } else {
            Ok((be_i16(s, pos) as int, pos + 2))
        }
    } else {
        Ok((0, pos))
    }
}

/// The state of the decoder of a simple glyph between points.
#[derive(Clone, Copy, PartialEq, Eq, Debug, Structural)]
pub struct SimpleDecoder {
    pub flags: FlagParser,
    pub x_pos: usize,
    pub y_pos: usize,
    pub position: Point2DI16,
    pub point_index: u16,
    pub first_on_curve: Option<Point2DI16>,
    pub initial_off_curve: Option<Point2DI16>,
    pub last_off_curve: bool,
    pub index_in_contour: u16,
}

/// Decodes one point: its flag, its deltas, the implied on-curve point before it when it
/// follows another off-curve point, and the point itself (held back when it is an off-curve
/// point that opens its contour). Gives the next state and the points emitted.
#[verifier::opaque]
pub open spec fn point_step(s: Seq<u8>, d: SimpleDecoder) -> Result<
    (SimpleDecoder, Seq<Point>),
    FontError,
> {
    let f = d.flags.current;
    match flag_next(s, d.flags) {
        Err(e) => Err(e),
        Ok(fp) => match delta_spec(s, d.x_pos as int, f, X_SHORT_VECTOR, THIS_X_IS_SAME) {
            Err(e) => Err(e),
            Ok((dx, xp)) => match delta_spec(s, d.y_pos as int, f, Y_SHORT_VECTOR, THIS_Y_IS_SAME) {
                Err(e) => Err(e),
                Ok((dy, yp)) => {
                    let on = flag_set(f, ON_CURVE);
                    let nx = d.position.x + dx;
                    let ny = d.position.y + dy;
                    let mid = Point2DI16 {
                        x: (d.position.x + half(dx)) as i16,
                        y: (d.position.y + half(dy)) as i16,
                    };
                    let np = Point2DI16 { x: nx as i16, y: ny as i16 };
                    let implied = d.last_off_curve && !on;
                    let first1 = if implied && d.first_on_curve is None {
                        Some(mid)
                    } else {
                        d.first_on_curve
                    };
                    let mid_pts = if implied {
                        seq![pt(mid, d.index_in_contour as int, PointKind::OnCurve)]
                    } else {
                        Seq::<Point>::empty()
                    };
                    let idx1 = if implied {
                        d.index_in_contour + 1
                    } else {
                        d.index_in_contour as int
                    };
                    let first2 = if on && first1 is None {
                        Some(np)
                    } else {
                        first1
                    };
                    let held = !on && first2 is None;
                    let kind = if on {
                        PointKind::OnCurve
                    } else {
                        PointKind::QuadControl
                    };
                    let pts = if held {
                        mid_pts
                    } else {
                        mid_pts.push(pt(np, idx1, kind))
                    };
                    let idx2 = if held {
                        idx1
                    } else {
                        idx1 + 1
                    };
                    if !in_i16(nx) || !in_i16(ny) || idx2 > 0xffff || d.point_index == 0xffff {
                        Err(FontError::Failed)
                    } else {
                        Ok(
                            (
                                SimpleDecoder {
                                    flags: fp,
                                    x_pos: xp as usize,
                                    y_pos: yp as usize,
                                    position: np,
                                    point_index: (d.point_index + 1) as u16,
                                    first_on_curve: first2,
                                    initial_off_curve: if held {
                                        Some(np)
                                    } else {
                                        d.initial_off_curve
                                    },
                                    last_off_curve: !on,
                                    index_in_contour: idx2 as u16,
                                },
                                pts,
                            ),
                        )
                    }
                },
            },
        },
    }
}

/// Each point of a simple glyph moves the pen by deltas read under the point's flag byte `f`:
/// across by an unsigned byte (flag 0x02), positive when flag 0x10 is set and negative
/// otherwise, by nothing when only flag 0x10 is set, and by a big-endian `i16` when neither is;
/// up likewise by flags 0x04 and 0x20. Each reading moves on past what it read. The point is
/// on the curve exactly when flag 0x01 is set, and the next flag byte repeats `f` for as many
/// points as the byte after it says when flag 0x08 is set.
pub proof fn lemma_point_coordinates(s: Seq<u8>, d: SimpleDecoder)
    requires
        s.len() <= usize::MAX,
    ensures
        point_step(s, d) matches Ok((d2, _)) ==> {
            let f = d.flags.current;
            let x = d.x_pos as int;
            let y = d.y_pos as int;
            let dx: int = if f & 0x02 == 0x02 {
                if f & 0x10 == 0x10 { s[x] as int } else { -(s[x] as int) }
            } else if f & 0x10 == 0x10 {
                0
            } else {
                be_i16(s, x) as int
            };
            let x_len: int = if f & 0x02 == 0x02 { 1 } else if f & 0x10 == 0x10 { 0 } else { 2 };
            let dy: int = if f & 0x04 == 0x04 {
                if f & 0x20 == 0x20 { s[y] as int } else { -(s[y] as int) }
            } else if f & 0x20 == 0x20 {
                0
            } else {
                be_i16(s, y) as int
            };
            let y_len: int = if f & 0x04 == 0x04 { 1 } else if f & 0x20 == 0x20 { 0 } else { 2 };
            &&& d2.position.x == d.position.x + dx
            &&& d2.position.y == d.position.y + dy
            &&& d2.x_pos == x + x_len
            &&& d2.y_pos == y + y_len
            &&& d2.last_off_curve == (f & 0x01 != 0x01)
            &&& d2.point_index == d.point_index + 1
            &&& d.flags.repeats_left > 0 ==> d2.flags.current == f && d2.flags.repeats_left
                == d.flags.repeats_left - 1
            &&& d.flags.repeats_left == 0 ==> d2.flags.current == s[d.flags.next as int] && (
            s[d.flags.next as int] & 0x08 == 0x08 ==> d2.flags.repeats_left == s[d.flags.next + 1]
                && d2.flags.next == d.flags.next + 2) && (s[d.flags.next as int] & 0x08 != 0x08
                ==> d2.flags.repeats_left == 0 && d2.flags.next == d.flags.next + 1)
        },
{
    reveal(point_step);
}

/// Decodes `k` points, stopping at the first error. Gives the points emitted and the state
/// reached, or the error.
pub open spec fn points_run(s: Seq<u8>, d: SimpleDecoder, k: nat) -> (Seq<Point>, Result<
    SimpleDecoder,
    FontError,
>)
    decreases k,
{
    if k == 0 {
        (Seq::empty(), Ok(d))
    } else {
        let (out, r) = points_run(s, d, (k - 1) as nat);
        match r {
            Err(e) => (out, Err(e)),
            Ok(d1) => match point_step(s, d1) {
                Err(e) => (out, Err(e)),
                Ok((d2, pts)) => (out + pts, Ok(d2)),
            },
        }
    }
}

/// The number of points of a contour ending at point `e`, or `Failed` when `e` lies before the
/// contour's first point or the count does not fit in 16 bits.
pub open spec fn contour_count(d: SimpleDecoder, e: u16) -> Result<nat, FontError> {
    if e < d.point_index || e - d.point_index + 1 > 0xffff {
        Err(FontError::Failed)
    } else {
        Ok((e - d.point_index + 1) as nat)
    }
}

/// The state at the start of a contour.
pub open spec fn contour_start(d: SimpleDecoder) -> SimpleDecoder {
    SimpleDecoder {
        first_on_curve: None,
        initial_off_curve: None,
        last_off_curve: false,
        index_in_contour: 0,
        ..d
    }
}

/// Closes a contour: emits the held-back initial off-curve point (after the on-curve point
/// implied between it and the last point, when that one is off-curve too), then the first
/// on-curve point again.
#[verifier::opaque]
pub open spec fn contour_close(d: SimpleDecoder) -> Result<(SimpleDecoder, Seq<Point>), FontError> {
    let i0 = d.index_in_contour as int;
    match d.initial_off_curve {
        None => {
            let closing = match d.first_on_curve {
                Some(f) => seq![pt(f, i0, PointKind::OnCurve)],
                None => Seq::<Point>::empty(),
            };
            Ok((d, closing))
        },
        Some(init) => {
            let ddx = init.x - d.position.x;
            let ddy = init.y - d.position.y;
            let mid = Point2DI16 {
                x: (d.position.x + half(ddx)) as i16,
                y: (d.position.y + half(ddy)) as i16,
            };
            let mid_pts = if d.last_off_curve {
                seq![pt(mid, i0, PointKind::OnCurve)]
            } else {
                Seq::<Point>::empty()
            };
            let i1 = if d.last_off_curve {
                i0 + 1
            } else {
                i0
            };
            let pts = mid_pts.push(pt(init, i1, PointKind::QuadControl));
            let i2 = i1 + 1;
            let closing = match d.first_on_curve {
                Some(f) => seq![pt(f, i2, PointKind::OnCurve)],
                None => Seq::<Point>::empty(),
            };
            if (d.last_off_curve && (!in_i16(ddx) || !in_i16(ddy))) || i2 > 0xffff {
                Err(FontError::Failed)
            } else {
                Ok((SimpleDecoder { index_in_contour: i2 as u16, ..d }, pts + closing))
            }
        },
    }
}

/// Decodes the first `k` contours, whose end points are stored from `ends` on. Gives the
/// points emitted and the state reached, or the error that stopped the decoding.
pub open spec fn contours_run(s: Seq<u8>, d: SimpleDecoder, ends: int, k: nat) -> (Seq<Point>, Result<
    SimpleDecoder,
    FontError,
>)
    decreases k,
{
    if k == 0 {
        (Seq::empty(), Ok(d))
    } else {
        let (out, r) = contours_run(s, d, ends, (k - 1) as nat);
        match r {
            Err(e) => (out, Err(e)),
            Ok(d1) => match contour_count(d1, be_u16(s, ends + 2 * (k - 1))) {
                Err(e) => (out, Err(e)),
                Ok(count) => {
                    let (out2, r2) = points_run(s, contour_start(d1), count);
                    match r2 {
                        Err(e) => (out + out2, Err(e)),
                        Ok(d3) => match contour_close(d3) {
                            Err(e) => (out + out2, Err(e)),
                            Ok((d4, pts)) => (out + out2 + pts, Ok(d4)),
                        },
                    }
                },
            },
        }
    }
}

/// The size of the X coordinates of a simple glyph whose flags start at `pos`, for `left`
/// more points, on top of `acc`; and where the flags end. `Failed` when the size does not fit
/// in 16 bits or a repeated flag runs past the last point.
pub open spec fn x_size_spec(s: Seq<u8>, pos: int, left: int, acc: int) -> Result<(int, int), FontError>
    decreases left,
{
    if left <= 0 {
        Ok((acc, pos))
    } else if !fits(s, pos, 1) {
        Err(FontError::UnexpectedEof)
    } else {
        let f = s[pos];
        let rep = flag_set(f, REPEAT);
        if rep && !fits(s, pos + 1, 1) {
            Err(FontError::UnexpectedEof)
        } else {
            let count: int = if rep {
                s[pos + 1] as int + 1
            } else {
                1
            };
            let next: int = if rep {
                pos + 2
            } else {
                pos + 1
            };
            let acc2 = if flag_set(f, X_SHORT_VECTOR) {
                acc + count
            } else if !flag_set(f, THIS_X_IS_SAME) {
                acc + 2 * count
            } else {
                acc
            };
            if acc2 > 0xffff || count > left {
                Err(FontError::Failed)
            } else {
                x_size_spec(s, next, left - count, acc2)
            }
        }
    }
}

/// The decoder state before the first point of a simple glyph.
pub open spec fn initial_decoder(fp: FlagParser, x_pos: int, y_pos: int) -> SimpleDecoder {
    SimpleDecoder {
        flags: fp,
        x_pos: x_pos as usize,
        y_pos: y_pos as usize,
        position: Point2DI16 { x: 0, y: 0 },
        point_index: 0,
        first_on_curve: None,
        initial_off_curve: None,
        last_off_curve: false,
        index_in_contour: 0,
    }
}

/// The points decoded and whether decoding succeeded.
pub open spec fn finish_run(run: (Seq<Point>, Result<SimpleDecoder, FontError>)) -> (Seq<Point>, Result<(), FontError>) {
    match run.1 {
        Err(e) => (run.0, Err(e)),
        Ok(_) => (run.0, Ok(())),
    }
}

/// What decoding the simple glyph at `start` gives: the points emitted (also those before an
/// error) and whether it succeeded.
///
/// The glyph is its contour count, four words of bounds, the end point of each contour, the
/// length and bytes of its instructions, the flags, the X coordinates and the Y coordinates.
#[verifier::opaque]
pub open spec fn simple_spec(s: Seq<u8>, start: int) -> (Seq<Point>, Result<(), FontError>) {
    if !fits(s, start, 2) {
        (Seq::empty(), Err(FontError::UnexpectedEof))
    } else {
        let nc = be_i16(s, start) as int;
        let ends = start + 10;
        if nc == 0 {
            (Seq::empty(), Ok(()))
        } else if !fits(s, start + 2, 8) {
            (Seq::empty(), Err(FontError::UnexpectedEof))
        } else if nc < 0 {
            (Seq::empty(), Err(FontError::Failed))
        } else if !fits(s, ends, 2 * nc) {
            (Seq::empty(), Err(FontError::UnexpectedEof))
        } else if be_u16(s, ends + 2 * (nc - 1)) == 0xffff {
            (Seq::empty(), Err(FontError::Failed))
        } else if !fits(s, ends + 2 * nc, 2) {
            (Seq::empty(), Err(FontError::UnexpectedEof))
        } else {
            let n = be_u16(s, ends + 2 * (nc - 1)) + 1;
            let flags_start = ends + 2 * nc + 2 + be_u16(s, ends + 2 * nc);
            if flags_start > s.len() {
                (Seq::empty(), Err(FontError::UnexpectedEof))
            } else {
                match x_size_spec(s, flags_start, n, 0) {
                    Err(e) => (Seq::empty(), Err(e)),
                    Ok((x_len, x_start)) => match flag_next(
                        s,
                        FlagParser { next: flags_start as usize, current: 0, repeats_left: 0 },
                    ) {
                        Err(e) => (Seq::empty(), Err(e)),
                        Ok(fp) => if x_start + x_len > s.len() {
                            (Seq::empty(), Err(FontError::UnexpectedEof))
                        } else {
                            finish_run(
                                contours_run(
                                    s,
                                    initial_decoder(fp, x_start, x_start + x_len),
                                    ends,
                                    nc as nat,
                                ),
                            )
                        },
                    },
                }
            }
        }
    }
}


impl FlagParser {
    /// Starts decoding the flags at `start` and reads the first one.
    fn new(bytes: &[u8], start: usize) -> (r: Result<FlagParser, FontError>)
        ensures
            r == flag_next(bytes@, FlagParser { next: start, current: 0, repeats_left: 0 }),
    {
        let mut parser = FlagParser { next: start, current: 0, repeats_left: 0 };
        parser.next(bytes)?;
        Ok(parser)
    }

    /// Moves on to the flag of the next point.
    fn next(&mut self, bytes: &[u8]) -> (r: Result<(), FontError>)
        ensures
            match r {
                Ok(_) => flag_next(bytes@, *old(self)) == Ok::<FlagParser, FontError>(*final(self)),
                Err(e) => flag_next(bytes@, *old(self)) == Err::<FlagParser, FontError>(e),
            },
    {
        if self.repeats_left > 0 {
            self.repeats_left = self.repeats_left - 1;
            return Ok(());
        }
        let current = u8_at(bytes, self.next)?;
        assert(self.next < bytes.len());
        if current & REPEAT == REPEAT {
            let repeats = u8_at(bytes, self.next + 1)?;
            self.next = self.next + 2;
            self.current = current;
            self.repeats_left = repeats;
        } else {
            self.next = self.next + 1;
            self.current = current;
            self.repeats_left = 0;
        }
        Ok(())
    }
}

/// Division by two rounding toward zero.
fn half_i32(v: i32) -> (r: i32)
    requires
        -0x10000 <= v <= 0x10000,
    ensures
        r == half(v as int),
{
    if v >= 0 {
        v / 2
    } else {
        -((-v) / 2)
    }
}

/// Reads one coordinate delta at `pos` under flag `f` (see `delta_spec`).
fn read_delta(bytes: &[u8], pos: usize, f: u8, short: u8, same: u8) -> (r: Result<(i32, usize), FontError>)
    ensures
        match r {
            Ok((d, p)) => delta_spec(bytes@, pos as int, f, short, same) == Ok::<(int, int), FontError>((d as int, p as int)),
            Err(e) => delta_spec(bytes@, pos as int, f, short, same) == Err::<(int, int), FontError>(e),
        },
{
    if f & short == short {
        let b = u8_at(bytes, pos)?;
        assert(pos < bytes.len());
        if f & same == same {
            Ok((b as i32, pos + 1))
        } else {
            Ok((-(b as i32), pos + 1))
        }
    } else if f & same != same {
        let v = i16_at(bytes, pos)?;
        assert(pos + 2 <= bytes.len());
        Ok((v as i32, pos + 2))
    } else {
        Ok((0, pos))
    }
}

impl SimpleDecoder {
    /// Decodes one point (see `point_step`), appending what it emits to `out`.
    fn step(&mut self, bytes: &[u8], out: &mut Vec<Point>) -> (r: Result<(), FontError>)
        ensures
            match point_step(bytes@, *old(self)) {
                Ok((d2, pts)) => r is Ok && *final(self) == d2 && final(out)@ == old(out)@ + pts,
                Err(e) => r == Err::<(), FontError>(e) && final(out)@ == old(out)@,
            },
    {
        reveal(point_step);
        let f = self.flags.current;
        let mut fp = self.flags;
        fp.next(bytes)?;
        let (dx, xp) = read_delta(bytes, self.x_pos, f, X_SHORT_VECTOR, THIS_X_IS_SAME)?;
        let (dy, yp) = read_delta(bytes, self.y_pos, f, Y_SHORT_VECTOR, THIS_Y_IS_SAME)?;
        let on = f & ON_CURVE == ON_CURVE;
        let px = self.position.x as i32;
        let py = self.position.y as i32;
        let nx = px + dx;
        let ny = py + dy;
        if nx < -0x8000 || nx > 0x7fff || ny < -0x8000 || ny > 0x7fff {
            return Err(FontError::Failed);
        }
        let np = Point2DI16 { x: nx as i16, y: ny as i16 };
        let implied = self.last_off_curve && !on;
        let idx0 = self.index_in_contour as u32;
        let hx = half_i32(dx);
        let hy = half_i32(dy);
        let mid = Point2DI16 { x: (px + hx) as i16, y: (py + hy) as i16 };
        let first1 = if implied && self.first_on_curve.is_none() {
            Some(mid)
        } else {
            self.first_on_curve
        };
        let idx1: u32 = if implied {
            idx0 + 1
        } else {
            idx0
        };
        let first2 = if on && first1.is_none() {
            Some(np)
        } else {
            first1
        };
        let held = !on && first2.is_none();
        let idx2: u32 = if held {
            idx1
        } else {
            idx1 + 1
        };
        if idx2 > 0xffff || self.point_index == 0xffff {
            return Err(FontError::Failed);
        }
        let kind = if on {
            PointKind::OnCurve
        } else {
            PointKind::QuadControl
        };
        if implied {
            out.push(Point { position: mid, index_in_contour: idx0 as u16, kind: PointKind::OnCurve });
        }
        if !held {
            out.push(Point { position: np, index_in_contour: idx1 as u16, kind });
        }
        if held {
            self.initial_off_curve = Some(np);
        }
        self.flags = fp;
        self.x_pos = xp;
        self.y_pos = yp;
        self.position = np;
        self.point_index = self.point_index + 1;
        self.first_on_curve = first2;
        self.last_off_curve = !on;
        self.index_in_contour = idx2 as u16;
        Ok(())
    }

    /// Closes the current contour (see `contour_close`), appending what it emits to `out`.
    fn close(&mut self, out: &mut Vec<Point>) -> (r: Result<(), FontError>)
        ensures
            match contour_close(*old(self)) {
                Ok((d2, pts)) => r is Ok && *final(self) == d2 && final(out)@ == old(out)@ + pts,
                Err(e) => r == Err::<(), FontError>(e) && final(out)@ == old(out)@,
            },
    {
        reveal(contour_close);
        let i0 = self.index_in_contour as u32;
        match self.initial_off_curve {
            None => {
                if let Some(f) = self.first_on_curve {
                    out.push(Point { position: f, index_in_contour: i0 as u16, kind: PointKind::OnCurve });
                }
                Ok(())
            },
            Some(init) => {
                let px = self.position.x as i32;
                let py = self.position.y as i32;
                let ddx = init.x as i32 - px;
                let ddy = init.y as i32 - py;
                if self.last_off_curve && (ddx < -0x8000 || ddx > 0x7fff || ddy < -0x8000 || ddy > 0x7fff) {
                    return Err(FontError::Failed);
                }
                let i1: u32 = if self.last_off_curve {
                    i0 + 1
                } else {
                    i0
                };
                let i2: u32 = i1 + 1;
                if i2 > 0xffff {
                    return Err(FontError::Failed);
                }
                let ghost old_out = out@;
                if self.last_off_curve {
                    let hx = half_i32(ddx);
                    let hy = half_i32(ddy);
                    let mid = Point2DI16 { x: (px + hx) as i16, y: (py + hy) as i16 };
                    out.push(Point { position: mid, index_in_contour: i0 as u16, kind: PointKind::OnCurve });
                }
                out.push(Point { position: init, index_in_contour: i1 as u16, kind: PointKind::QuadControl });
                if let Some(f) = self.first_on_curve {
                    out.push(Point { position: f, index_in_contour: i2 as u16, kind: PointKind::OnCurve });
                }
                self.index_in_contour = i2 as u16;
                Ok(())
            },
        }
    }
}

/// Given the position of the flags of a simple glyph, returns the size in bytes of its X
/// coordinates and where the flags end (see `x_size_spec`).
fn calculate_size_of_x_coordinates(bytes: &[u8], start: usize, number_of_points: u16)
        -> (r: Result<(u16, usize), FontError>)
    ensures
        match r {
            Ok((len, end)) => x_size_spec(bytes@, start as int, number_of_points as int, 0)
                == Ok::<(int, int), FontError>((len as int, end as int)),
            Err(e) => x_size_spec(bytes@, start as int, number_of_points as int, 0) == Err::<
                (int, int),
                FontError,
            >(e),
        },
{
    let mut x_coordinate_length: u32 = 0;
    let mut points_left: u32 = number_of_points as u32;
    let mut pos = start;
    while points_left > 0
        invariant
            x_size_spec(bytes@, start as int, number_of_points as int, 0) == x_size_spec(
                bytes@,
                pos as int,
                points_left as int,
                x_coordinate_length as int,
            ),
            x_coordinate_length <= 0xffff,
        decreases points_left,
    {
        let flags = u8_at(bytes, pos)?;
        assert(pos < bytes.len());
        let rep = flags & REPEAT == REPEAT;
        let repeat_count: u32 = if rep {
            u8_at(bytes, pos + 1)? as u32 + 1
        } else {
            1
        };
        let next = if rep {
            pos + 2
        } else {
            pos + 1
        };
        if flags & X_SHORT_VECTOR == X_SHORT_VECTOR {
            x_coordinate_length = x_coordinate_length + repeat_count;
        } else if flags & THIS_X_IS_SAME != THIS_X_IS_SAME {
            x_coordinate_length = x_coordinate_length + 2 * repeat_count;
        }
        if x_coordinate_length > 0xffff || repeat_count > points_left {
            return Err(FontError::Failed);
        }
        points_left = points_left - repeat_count;
        pos = next;
    }
    Ok((x_coordinate_length as u16, pos))
}

/// Decodes the simple glyph at `start`, appending its points to `out` (see `simple_spec`;
/// the points decoded before an error are appended too).
fn simple_glyph_points(bytes: &[u8], start: usize, out: &mut Vec<Point>) -> (r: Result<(), FontError>)
    ensures
        final(out)@ == old(out)@ + simple_spec(bytes@, start as int).0,
        r == simple_spec(bytes@, start as int).1,
{
    reveal(simple_spec);
    let ghost s = bytes@;
    let ghost base = out@;
    assert(base + Seq::<Point>::empty() == base);
    let number_of_contours = i16_at(bytes, start)?;
    if number_of_contours == 0 {
        return Ok(());
    }
    if start > bytes.len() || bytes.len() - start < 10 {
        return Err(FontError::UnexpectedEof);
    }
    if number_of_contours < 0 {
        return Err(FontError::Failed);
    }
    let ends = start + 10;
    let nc = number_of_contours as usize;
    if bytes.len() - ends < 2 * nc {
        return Err(FontError::UnexpectedEof);
    }
    let last = u16_at(bytes, ends + 2 * (nc - 1))?;
    if last == 0xffff {
        return Err(FontError::Failed);
    }
    let instruction_length = u16_at(bytes, ends + 2 * nc)?;
    let after_length = ends + 2 * nc + 2;
    if instruction_length as usize > bytes.len() - after_length {
        return Err(FontError::UnexpectedEof);
    }
    let flags_start = after_length + instruction_length as usize;
    let (x_len, x_start) = calculate_size_of_x_coordinates(bytes, flags_start, last + 1)?;
    let fp = FlagParser::new(bytes, flags_start)?;
    if x_start > bytes.len() || x_len as usize > bytes.len() - x_start {
        return Err(FontError::UnexpectedEof);
    }
    let mut dec = SimpleDecoder {
        flags: fp,
        x_pos: x_start,
        y_pos: x_start + x_len as usize,
        position: Point2DI16 { x: 0, y: 0 },
        point_index: 0,
        first_on_curve: None,
        initial_off_curve: None,
        last_off_curve: false,
        index_in_contour: 0,
    };
    let ghost d0 = dec;
    assert(d0 == initial_decoder(fp, x_start as int, x_start + x_len));
    assert(simple_spec(s, start as int) == finish_run(contours_run(s, d0, ends as int, nc as nat)));
    let mut k: usize = 0;
    while k < nc
        invariant
            k <= nc,
            nc == number_of_contours,
            ends == start + 10,
            ends + 2 * nc <= bytes.len(),
            s == bytes@,
            out@ == base + contours_run(s, d0, ends as int, k as nat).0,
            contours_run(s, d0, ends as int, k as nat).1 == Ok::<SimpleDecoder, FontError>(dec),
            simple_spec(s, start as int) == finish_run(contours_run(s, d0, ends as int, nc as nat)),
            base == old(out)@,
        decreases nc - k,
    {
        let ghost out_k = out@;
        let ghost run_k = contours_run(s, d0, ends as int, k as nat);
        let end_point = u16_at(bytes, ends + 2 * k)?;
        if end_point < dec.point_index || end_point - dec.point_index >= 0xffff {
            assert(contours_run(s, d0, ends as int, (k + 1) as nat).1 == Err::<SimpleDecoder, FontError>(FontError::Failed));
            proof { lemma_contours_stop(s, d0, ends as int, (k + 1) as nat, nc as nat); }
            return Err(FontError::Failed);
        }
        let count: u32 = (end_point - dec.point_index) as u32 + 1;
        assert(contour_count(dec, end_point) == Ok::<nat, FontError>(count as nat));
        dec.first_on_curve = None;
        dec.initial_off_curve = None;
        dec.last_off_curve = false;
        dec.index_in_contour = 0;
        let ghost dc = dec;
        assert(dc == contour_start(run_k.1->Ok_0));
        let mut j: u32 = 0;
        while j < count
            invariant
                j <= count,
                s == bytes@,
                k < nc,
                out_k == base + run_k.0,
                run_k == contours_run(s, d0, ends as int, k as nat),
                run_k.1 is Ok,
                contour_count(run_k.1->Ok_0, be_u16(s, ends + 2 * k)) == Ok::<nat, FontError>(count as nat),
                dc == contour_start(run_k.1->Ok_0),
                simple_spec(s, start as int) == finish_run(contours_run(s, d0, ends as int, nc as nat)),
                base == old(out)@,
                out@ == out_k + points_run(s, dc, j as nat).0,
                points_run(s, dc, j as nat).1 == Ok::<SimpleDecoder, FontError>(dec),
            decreases count - j,
        {
            let ghost out_j = out@;
            let res = dec.step(bytes, out);
            match res {
                Ok(_) => {
                    assert(out@ == out_k + points_run(s, dc, (j + 1) as nat).0);
                },
                Err(e) => {
                    assert(out@ == out_k + points_run(s, dc, (j + 1) as nat).0);
                    proof { lemma_points_stop(s, dc, (j + 1) as nat, count as nat); }
                    assert(out@ == base + contours_run(s, d0, ends as int, (k + 1) as nat).0);
                    assert(contours_run(s, d0, ends as int, (k + 1) as nat).1 == Err::<SimpleDecoder, FontError>(e));
                    proof { lemma_contours_stop(s, d0, ends as int, (k + 1) as nat, nc as nat); }
                    return Err(e);
                },
            }
            j = j + 1;
        }
        let ghost out_c = out@;
        let res = dec.close(out);
        match res {
            Ok(_) => {
                assert(out@ == base + contours_run(s, d0, ends as int, (k + 1) as nat).0);
            },
            Err(e) => {
                assert(out@ == base + contours_run(s, d0, ends as int, (k + 1) as nat).0);
                proof { lemma_contours_stop(s, d0, ends as int, (k + 1) as nat, nc as nat); }
                return Err(e);
            },
        }
        k = k + 1;
    }
    Ok(())
}

/// Once decoding stops at an error, decoding more points changes nothing.
proof fn lemma_points_stop(s: Seq<u8>, d: SimpleDecoder, k: nat, n: nat)
    requires
        k <= n,
        points_run(s, d, k).1 is Err,
    ensures
        points_run(s, d, n) == points_run(s, d, k),
    decreases n - k,
{
    if k < n {
        lemma_points_stop(s, d, k, (n - 1) as nat);
    }
}

/// Once decoding stops at an error, decoding more contours changes nothing.
proof fn lemma_contours_stop(s: Seq<u8>, d: SimpleDecoder, ends: int, k: nat, n: nat)
    requires
        k <= n,
        contours_run(s, d, ends, k).1 is Err,
    ensures
        contours_run(s, d, ends, n) == contours_run(s, d, ends, k),
    decreases n - k,
{
    if k < n {
        lemma_contours_stop(s, d, ends, k, (n - 1) as nat);
    }
}

pub const ARG_1_AND_2_ARE_WORDS: u16 = 1;
pub const ARGS_ARE_XY_VALUES: u16 = 2;
pub const ROUND_XY_TO_GRID: u16 = 4;
pub const WE_HAVE_A_SCALE: u16 = 8;
pub const MORE_COMPONENTS: u16 = 32;
pub const WE_HAVE_AN_X_AND_Y_SCALE: u16 = 64;
pub const WE_HAVE_A_TWO_BY_TWO: u16 = 128;

/// True when the composite flags `f` have all the bits of `bit` set.
pub open spec fn flag16_set(f: u16, bit: u16) -> bool {
    f & bit == bit
}

/// A fixed-point number with 14 fractional bits.
#[derive(Copy, Clone, Debug, PartialEq, Eq, Structural)]
pub struct F2Dot14(pub i16);

/// The product of a 2.14 fixed-point number and an integer, rounded down and truncated to 16
/// bits.
pub open spec fn f2dot14_mul(a: i16, b: i16) -> i16 {
    (((a * b) as i32) >> 14u32) as i16
}

impl F2Dot14 {
    /// Multiplies an integer by this number (see `f2dot14_mul`).
    pub fn mul(self, other: i16) -> (r: i16)
        ensures
            r == f2dot14_mul(self.0, other),
    {
        let a = self.0 as i32;
        let b = other as i32;
        assert(-0x4000_0000 <= a * b <= 0x4000_0000) by (nonlinear_arith)
            requires
                -0x8000 <= a <= 0x7fff,
                -0x8000 <= b <= 0x7fff,
        ;
        let p: i32 = a * b;
        (p >> 14u32) as i16
    }
}

/// The affine transform of a component of a composite glyph.
#[derive(Copy, Clone, Debug, PartialEq, Eq, Structural)]
pub struct Mat3x2 {
    pub m00: F2Dot14,
    pub m01: F2Dot14,
    pub m02: i16,
    pub m10: F2Dot14,
    pub m11: F2Dot14,
    pub m12: i16,
}

/// The identity transform.
pub open spec fn identity_spec() -> Mat3x2 {
    Mat3x2 {
        m00: F2Dot14(0x4000),
        m01: F2Dot14(0),
        m02: 0,
        m10: F2Dot14(0),
        m11: F2Dot14(0x4000),
        m12: 0,
    }
}

/// A point moved by a transform, or `None` when a sum leaves the range of `i16`.
pub open spec fn transform_point(m: Mat3x2, p: Point) -> Option<Point> {
    let x1 = f2dot14_mul(m.m00.0, p.position.x) + f2dot14_mul(m.m01.0, p.position.y);
    let x2 = x1 + m.m02;
    let y1 = f2dot14_mul(m.m10.0, p.position.x) + f2dot14_mul(m.m11.0, p.position.y);
    let y2 = y1 + m.m12;
    if !in_i16(x1) || !in_i16(x2) || !in_i16(y1) || !in_i16(y2) {
        None
    } else {
        Some(
            Point {
                position: Point2DI16 { x: x2 as i16, y: y2 as i16 },
                index_in_contour: p.index_in_contour,
                kind: p.kind,
            },
        )
    }
}

/// A transform with no scale and no rotation moves a point by its offsets: `m02` across and
/// `m12` up, keeping its index and kind, and fails exactly when the point would leave the range
/// of `i16`.
pub proof fn lemma_translation(m: Mat3x2, p: Point)
    requires
        m.m00.0 == 0x4000 && m.m11.0 == 0x4000 && m.m01.0 == 0 && m.m10.0 == 0,
    ensures
        transform_point(m, p) == if in_i16(p.position.x + m.m02) && in_i16(p.position.y + m.m12) {
            Some(
                Point {
                    position: Point2DI16 {
                        x: (p.position.x + m.m02) as i16,
                        y: (p.position.y + m.m12) as i16,
                    },
                    ..p
                },
            )
        } else {
            None::<Point>
        },
{
    let x = p.position.x;
    let y = p.position.y;
    assert((((0x4000i16 * x) as i32) >> 14u32) as i16 == x) by (bit_vector);
    assert((((0x4000i16 * y) as i32) >> 14u32) as i16 == y) by (bit_vector);
    assert((((0i16 * x) as i32) >> 14u32) as i16 == 0) by (bit_vector);
    assert((((0i16 * y) as i32) >> 14u32) as i16 == 0) by (bit_vector);
}

/// The points moved by a transform, or `None` when one of them cannot be.
pub open spec fn transform_all(m: Mat3x2, pts: Seq<Point>) -> Option<Seq<Point>>
    decreases pts.len(),
{
    if pts.len() == 0 {
        Some(Seq::empty())
    } else {
        match transform_all(m, pts.drop_last()) {
            None => None,
            Some(t) => match transform_point(m, pts.last()) {
                None => None,
                Some(q) => Some(t.push(q)),
            },
        }
    }
}

impl Mat3x2 {
    pub fn identity() -> (r: Mat3x2)
        ensures
            r == identity_spec(),
    {
        Mat3x2 {
            m00: F2Dot14(0x4000),
            m01: F2Dot14(0),
            m02: 0,
            m10: F2Dot14(0),
            m11: F2Dot14(0x4000),
            m12: 0,
        }
    }

    /// Moves a point (see `transform_point`).
    pub fn transform(&self, point: &Point) -> (r: Option<Point>)
        ensures
            r == transform_point(*self, *point),
    {
        let p = point.position;
        let x1 = self.m00.mul(p.x) as i32 + self.m01.mul(p.y) as i32;
        let x2 = x1 + self.m02 as i32;
        let y1 = self.m10.mul(p.x) as i32 + self.m11.mul(p.y) as i32;
        let y2 = y1 + self.m12 as i32;
        if x1 < -0x8000 || x1 > 0x7fff || x2 < -0x8000 || x2 > 0x7fff || y1 < -0x8000 || y1
            > 0x7fff || y2 < -0x8000 || y2 > 0x7fff {
            return None;
        }
        Some(
            Point {
                position: Point2DI16 { x: x2 as i16, y: y2 as i16 },
                index_in_contour: point.index_in_contour,
                kind: point.kind,
            },
        )
    }
}

/// The component record of a composite glyph at `pos`: the component's glyph ID, its
/// transform, whether more components follow, and where the record ends.
#[verifier::opaque]
pub open spec fn component_spec(s: Seq<u8>, pos: int) -> Result<(u16, Mat3x2, bool, int), FontError> {
    if !fits(s, pos, 4) {
        Err(FontError::UnexpectedEof)
    } else {
        let flags = be_u16(s, pos);
        let glyph_index = be_u16(s, pos + 2);
        let words = flag16_set(flags, ARG_1_AND_2_ARE_WORDS);
        if (words && !fits(s, pos + 4, 4)) || (!words && !fits(s, pos + 4, 2)) {
            Err(FontError::UnexpectedEof)
        } else {
            let arg0: i16 = if words {
                be_i16(s, pos + 4)
            } else {
                i8_of(s[pos + 4]) as i16
            };
            let arg1: i16 = if words {
                be_i16(s, pos + 6)
            } else {
                i8_of(s[pos + 5]) as i16
            };
            let p: int = if words {
                pos + 8
            } else {
                pos + 6
            };
            let m0 = if flag16_set(flags, ARGS_ARE_XY_VALUES) {
                Mat3x2 { m02: arg0, m12: arg1, ..identity_spec() }
            } else {
                identity_spec()
            };
            let more = flag16_set(flags, MORE_COMPONENTS);
            if flag16_set(flags, WE_HAVE_A_SCALE) {
                if !fits(s, p, 2) {
                    Err(FontError::UnexpectedEof)
                } else {
                    let scale = F2Dot14(be_i16(s, p));
                    Ok((glyph_index, Mat3x2 { m00: scale, m11: scale, ..m0 }, more, p + 2))
                }
            } else if flag16_set(flags, WE_HAVE_AN_X_AND_Y_SCALE) {
                if !fits(s, p, 4) {
                    Err(FontError::UnexpectedEof)
                } else {
                    Ok(
                        (
                            glyph_index,
                            Mat3x2 {
                                m00: F2Dot14(be_i16(s, p)),
                                m11: F2Dot14(be_i16(s, p + 2)),
                                ..m0
                            },
                            more,
                            p + 4,
                        ),
                    )
                }
            } else if flag16_set(flags, WE_HAVE_A_TWO_BY_TWO) {
                if !fits(s, p, 8) {
                    Err(FontError::UnexpectedEof)
                } else {
                    Ok(
                        (
                            glyph_index,
                            Mat3x2 {
                                m00: F2Dot14(be_i16(s, p)),
                                m01: F2Dot14(be_i16(s, p + 2)),
                                m10: F2Dot14(be_i16(s, p + 4)),
                                m11: F2Dot14(be_i16(s, p + 6)),
                                ..m0
                            },
                            more,
                            p + 8,
                        ),
                    )
                }
            } else {
                Ok((glyph_index, m0, more, p))
            }
        }
    }
}

/// A component record is its flags (a big-endian `u16` at `pos`), its glyph ID (the `u16`
/// after them), two arguments (`i16`s when flag 0x0001 is set, else `i8`s), then a scale (flag
/// 0x0008, one 2.14 value), an x and a y scale (flag 0x0040) or a two-by-two matrix (flag
/// 0x0080), the first of these flags winning. The arguments are the x and the y offset, in that
/// order, when flag 0x0002 is set, and no offset otherwise; a matrix entry not given is that of
/// the identity. Reading succeeds exactly when the record lies within the bytes, and flag 0x0020
/// says whether more components follow.
pub proof fn lemma_component_record(s: Seq<u8>, pos: int)
    requires
        0 <= pos,
    ensures
        ({
            let flags = be_u16(s, pos);
            let words = flags & 0x0001 == 0x0001;
            let p = pos + 4 + if words { 4int } else { 2int };
            let scale = flags & 0x0008 == 0x0008;
            let xy_scale = !scale && flags & 0x0040 == 0x0040;
            let two_by_two = !scale && !xy_scale && flags & 0x0080 == 0x0080;
            let end = p + if scale { 2int } else if xy_scale { 4int } else if two_by_two { 8int } else { 0int };
            &&& pos + 4 <= s.len() ==> (component_spec(s, pos) is Ok <==> end <= s.len())
            &&& pos + 4 > s.len() ==> component_spec(s, pos) is Err
            &&& component_spec(s, pos) matches Ok((g, m, more, next)) ==> {
                &&& g == be_u16(s, pos + 2)
                &&& next == end
                &&& more == (flags & 0x0020 == 0x0020)
                &&& (flags & 0x0002 == 0x0002 && words) ==> m.m02 == be_i16(s, pos + 4) && m.m12
                    == be_i16(s, pos + 6)
                &&& (flags & 0x0002 == 0x0002 && !words) ==> m.m02 == i8_of(s[pos + 4]) as i16
                    && m.m12 == i8_of(s[pos + 5]) as i16
                &&& flags & 0x0002 != 0x0002 ==> m.m02 == 0 && m.m12 == 0
                &&& scale ==> m.m00.0 == be_i16(s, p) && m.m11.0 == be_i16(s, p) && m.m01.0 == 0
                    && m.m10.0 == 0
                &&& xy_scale ==> m.m00.0 == be_i16(s, p) && m.m11.0 == be_i16(s, p + 2) && m.m01.0
                    == 0 && m.m10.0 == 0
                &&& two_by_two ==> m.m00.0 == be_i16(s, p) && m.m01.0 == be_i16(s, p + 2) && m.m10.0
                    == be_i16(s, p + 4) && m.m11.0 == be_i16(s, p + 6)
                &&& (!scale && !xy_scale && !two_by_two) ==> m.m00.0 == 0x4000 && m.m11.0 == 0x4000
                    && m.m01.0 == 0 && m.m10.0 == 0
            }
        }),
{
    reveal(component_spec);
}

/// The points a component adds: the points of the simple glyph it refers to, moved by its
/// transform. Decoding errors of the component other than `Failed` are ignored (the points
/// decoded before them are kept); `Failed`, or a point that cannot be moved, fails.
#[verifier::opaque]
pub open spec fn component_points(s: Seq<u8>, loca: Seq<u8>, format: i16, glyph_index: u16, m: Mat3x2) -> Result<
    Seq<Point>,
    FontError,
> {
    match location_spec(loca, format, glyph_index) {
        Err(e) => Err(e),
        Ok(None) => Ok(Seq::empty()),
        Ok(Some(offset)) => if offset > s.len() {
            Err(FontError::UnexpectedEof)
        } else {
            let (pts, st) = simple_spec(s, offset as int);
            if st == Err::<(), FontError>(FontError::Failed) {
                Err(FontError::Failed)
            } else {
                match transform_all(m, pts) {
                    None => Err(FontError::Failed),
                    Some(t) => Ok(t),
                }
            }
        },
    }
}

/// A component record takes at least six bytes, all within the data.
pub proof fn lemma_component_advances(s: Seq<u8>, pos: int)
    ensures
        component_spec(s, pos) matches Ok((_, _, _, next)) ==> pos + 6 <= next <= s.len(),
{
    reveal(component_spec);
}

/// The points of the components of a composite glyph from the record at `pos` on, after the
/// points `out` gathered so far; also the points gathered before an error.
pub open spec fn composite_run(s: Seq<u8>, loca: Seq<u8>, format: i16, pos: int, out: Seq<Point>) -> (Seq<
    Point,
>, Result<(), FontError>)
    decreases s.len() - pos,
{
    match component_spec(s, pos) {
        Err(e) => (out, Err(e)),
        Ok((glyph_index, m, more, next)) => match component_points(s, loca, format, glyph_index, m) {
            Err(e) => (out, Err(e)),
            Ok(pts) => if !more {
                (out + pts, Ok(()))
            } else {
                proof {
                    lemma_component_advances(s, pos);
                }
                composite_run(s, loca, format, next, out + pts)
            },
        },
    }
}

/// The points of a glyph's outline, in order, as they are decoded (also those decoded before
/// an error), and whether decoding succeeded. A glyph with no outline has none; a negative
/// contour count marks a composite glyph, whose header is followed by its component records.
pub open spec fn glyph_points_partial(s: Seq<u8>, loca: Seq<u8>, format: i16, glyph_id: u16) -> (Seq<
    Point,
>, Result<(), FontError>) {
    match location_spec(loca, format, glyph_id) {
        Err(e) => (Seq::empty(), Err(e)),
        Ok(None) => (Seq::empty(), Ok(())),
        Ok(Some(offset)) => if offset > s.len() || !fits(s, offset as int, 2) {
            (Seq::empty(), Err(FontError::UnexpectedEof))
        } else if be_i16(s, offset as int) >= 0 {
            simple_spec(s, offset as int)
        } else if !fits(s, offset as int, 10) {
            (Seq::empty(), Err(FontError::UnexpectedEof))
        } else {
            composite_run(s, loca, format, offset + 10, Seq::empty())
        },
    }
}

/// What `for_each_point` gives: the points of the glyph's outline, in order, when decoding
/// succeeds (see `glyph_points_partial`).
pub open spec fn glyph_points_spec(s: Seq<u8>, loca: Seq<u8>, format: i16, glyph_id: u16) -> Result<
    Seq<Point>,
    FontError,
> {
    let (pts, st) = glyph_points_partial(s, loca, format, glyph_id);
    match st {
        Err(e) => Err(e),
        Ok(_) => Ok(pts),
    }
}

/// What `glyph_bounds` gives: the four words after the contour count, or zero bounds for a
/// glyph with no outline.
pub open spec fn glyph_bounds_spec(s: Seq<u8>, loca: Seq<u8>, format: i16, glyph_id: u16) -> Result<
    GlyphBounds,
    FontError,
> {
    match location_spec(loca, format, glyph_id) {
        Err(e) => Err(e),
        Ok(None) => Ok(GlyphBounds { left: 0, bottom: 0, right: 0, top: 0 }),
        Ok(Some(offset)) => if offset > s.len() || !fits(s, offset as int, 10) {
            Err(FontError::UnexpectedEof)
        } else {
            Ok(
                GlyphBounds {
                    left: be_i16(s, offset + 2) as i32,
                    bottom: be_i16(s, offset + 4) as i32,
                    right: be_i16(s, offset + 6) as i32,
                    top: be_i16(s, offset + 8) as i32,
                },
            )
        },
    }
}

/// Reads the component record at `pos` (see `component_spec`).
fn read_component(bytes: &[u8], pos: usize) -> (r: Result<(u16, Mat3x2, bool, usize), FontError>)
    ensures
        match r {
            Ok((g, m, more, next)) => component_spec(bytes@, pos as int) == Ok::<
                (u16, Mat3x2, bool, int),
                FontError,
            >((g, m, more, next as int)),
            Err(e) => component_spec(bytes@, pos as int) == Err::<(u16, Mat3x2, bool, int), FontError>(e),
        },
{
    reveal(component_spec);
    let flags = u16_at(bytes, pos)?;
    assert(pos + 2 <= bytes.len());
    let glyph_index = u16_at(bytes, pos + 2)?;
    assert(pos + 4 <= bytes.len());
    let words = flags & ARG_1_AND_2_ARE_WORDS == ARG_1_AND_2_ARE_WORDS;
    let (arg0, arg1, p) = if words {
        let a0 = i16_at(bytes, pos + 4)?;
        assert(pos + 6 <= bytes.len());
        let a1 = i16_at(bytes, pos + 6)?;
        assert(pos + 8 <= bytes.len());
        (a0, a1, pos + 8)
    } else {
        let a0 = i8_at(bytes, pos + 4)?;
        assert(pos + 5 <= bytes.len());
        let a1 = i8_at(bytes, pos + 5)?;
        assert(pos + 6 <= bytes.len());
        (a0 as i16, a1 as i16, pos + 6)
    };
    let mut transform = Mat3x2::identity();
    if flags & ARGS_ARE_XY_VALUES == ARGS_ARE_XY_VALUES {
        transform.m02 = arg0;
        transform.m12 = arg1;
    }
    let more = flags & MORE_COMPONENTS == MORE_COMPONENTS;
    if flags & WE_HAVE_A_SCALE == WE_HAVE_A_SCALE {
        let scale = F2Dot14(i16_at(bytes, p)?);
        assert(p + 2 <= bytes.len());
        transform.m00 = scale;
        transform.m11 = scale;
        Ok((glyph_index, transform, more, p + 2))
    } else if flags & WE_HAVE_AN_X_AND_Y_SCALE == WE_HAVE_AN_X_AND_Y_SCALE {
        let m00 = i16_at(bytes, p)?;
        assert(p + 2 <= bytes.len());
        let m11 = i16_at(bytes, p + 2)?;
        assert(p + 4 <= bytes.len());
        transform.m00 = F2Dot14(m00);
        transform.m11 = F2Dot14(m11);
        Ok((glyph_index, transform, more, p + 4))
    } else if flags & WE_HAVE_A_TWO_BY_TWO == WE_HAVE_A_TWO_BY_TWO {
        let m00 = i16_at(bytes, p)?;
        assert(p + 2 <= bytes.len());
        let m01 = i16_at(bytes, p + 2)?;
        assert(p + 4 <= bytes.len());
        let m10 = i16_at(bytes, p + 4)?;
        assert(p + 6 <= bytes.len());
        let m11 = i16_at(bytes, p + 6)?;
        assert(p + 8 <= bytes.len());
        transform.m00 = F2Dot14(m00);
        transform.m01 = F2Dot14(m01);
        transform.m10 = F2Dot14(m10);
        transform.m11 = F2Dot14(m11);
        Ok((glyph_index, transform, more, p + 8))
    } else {
        Ok((glyph_index, transform, more, p))
    }
}

/// Appends the points of `pts` moved by `m` to `out`, or fails with `Failed` when one cannot
/// be moved (see `transform_all`).
fn push_transformed(m: &Mat3x2, pts: &Vec<Point>, out: &mut Vec<Point>) -> (r: Result<(), FontError>)
    ensures
        match transform_all(*m, pts@) {
            Some(t) => r is Ok && final(out)@ == old(out)@ + t,
            None => r == Err::<(), FontError>(FontError::Failed),
        },
{
    let ghost base = out@;
    let ghost mut t: Seq<Point> = Seq::empty();
    let mut i: usize = 0;
    assert(pts@.take(0) =~= Seq::<Point>::empty());
    while i < pts.len()
        invariant
            i <= pts.len(),
            out@ == base + t,
            transform_all(*m, pts@.take(i as int)) == Some(t),
        decreases pts.len() - i,
    {
        assert(pts@.take(i + 1).drop_last() =~= pts@.take(i as int));
        assert(pts@.take(i + 1).last() == pts@[i as int]);
        match m.transform(&pts[i]) {
            None => {
                proof { lemma_transform_stop(*m, pts@, (i + 1) as nat); }
                return Err(FontError::Failed);
            },
            Some(q) => {
                out.push(q);
                proof {
                    t = t.push(q);
                }
                assert(out@ =~= base + t);
            },
        }
        i = i + 1;
    }
    assert(pts@.take(pts@.len() as int) =~= pts@);
    Ok(())
}

/// When some prefix of the points cannot be moved, neither can all of them.
proof fn lemma_transform_stop(m: Mat3x2, pts: Seq<Point>, k: nat)
    requires
        k <= pts.len(),
        transform_all(m, pts.take(k as int)) is None,
    ensures
        transform_all(m, pts) is None,
    decreases pts.len() - k,
{
    if k < pts.len() {
        assert(pts.take(k + 1 as int).drop_last() =~= pts.take(k as int));
        lemma_transform_stop(m, pts, k + 1);
    } else {
        assert(pts.take(k as int) =~= pts);
    }
}

impl<'a> GlyfTable<'a> {
    pub fn new(table: FontTable<'a>) -> (r: GlyfTable<'a>)
        ensures
            r.table == table,
    {
        GlyfTable { table: table }
    }

    /// Appends the points the component `glyph_index` adds under transform `m` (see
    /// `component_points`).
    fn push_component(
        &self,
        head_table: &HeadTable,
        loca_table: &LocaTable,
        glyph_index: u16,
        m: &Mat3x2,
        out: &mut Vec<Point>,
    ) -> (r: Result<(), FontError>)
        ensures
            match component_points(
                self.table.bytes@,
                loca_table.table.bytes@,
                head_table.index_to_loc_format,
                glyph_index,
                *m,
            ) {
                Ok(pts) => r is Ok && final(out)@ == old(out)@ + pts,
                Err(e) => r == Err::<(), FontError>(e) && final(out)@ == old(out)@,
            },
    {
        reveal(component_points);
        let bytes = self.table.bytes;
        match loca_table.location_of(head_table, glyph_index)? {
            None => {
                assert(out@ =~= out@ + Seq::<Point>::empty());
                Ok(())
            },
            Some(offset) => {
                if offset as usize > bytes.len() {
                    return Err(FontError::UnexpectedEof);
                }
                let mut component = Vec::new();
                let status = simple_glyph_points(bytes, offset as usize, &mut component);
                assert(component@ =~= simple_spec(bytes@, offset as int).0);
                match status {
                    Err(FontError::Failed) => Err(FontError::Failed),
                    _ => {
                        let mut moved = Vec::new();
                        push_transformed(m, &component, &mut moved)?;
                        out.append(&mut moved);
                        Ok(())
                    },
                }
            },
        }
    }

    /// Appends the points of the outline of a glyph to `out`, also when decoding fails midway
    /// (see `glyph_points_partial`).
    pub fn push_points(&self, head_table: &HeadTable, loca_table: &LocaTable, glyph_id: u16, out: &mut Vec<Point>) -> (r: Result<(), FontError>)
        ensures
            final(out)@ == old(out)@ + glyph_points_partial(
                self.table.bytes@,
                loca_table.table.bytes@,
                head_table.index_to_loc_format,
                glyph_id,
            ).0,
            r == glyph_points_partial(
                self.table.bytes@,
                loca_table.table.bytes@,
                head_table.index_to_loc_format,
                glyph_id,
            ).1,
    {
        let ghost base = out@;
        assert(base =~= base + Seq::<Point>::empty());
        let bytes = self.table.bytes;
        let offset = match loca_table.location_of(head_table, glyph_id)? {
            None => {
                return Ok(());
            },
            Some(offset) => offset as usize,
        };
        if offset > bytes.len() {
            return Err(FontError::UnexpectedEof);
        }
        let number_of_contours = i16_at(bytes, offset)?;
        if number_of_contours >= 0 {
            simple_glyph_points(bytes, offset, out)
        } else {
            if bytes.len() - offset < 10 {
                return Err(FontError::UnexpectedEof);
            }
            let mut points = Vec::new();
            let status = self.for_each_point_in_composite_glyph(head_table, loca_table, offset + 10, &mut points);
            out.append(&mut points);
            status
        }
    }

    /// Returns the points of the outline of a glyph, contour by contour (see
    /// `glyph_points_spec`).
    pub fn for_each_point(&self, head_table: &HeadTable, loca_table: &LocaTable, glyph_id: u16)
        -> (r: Result<Vec<Point>, FontError>)
        ensures
            match r {
                Ok(v) => glyph_points_spec(
                    self.table.bytes@,
                    loca_table.table.bytes@,
                    head_table.index_to_loc_format,
                    glyph_id,
                ) == Ok::<Seq<Point>, FontError>(v@),
                Err(e) => glyph_points_spec(
                    self.table.bytes@,
                    loca_table.table.bytes@,
                    head_table.index_to_loc_format,
                    glyph_id,
                ) == Err::<Seq<Point>, FontError>(e),
            },
    {
        let mut points = Vec::new();
        self.push_points(head_table, loca_table, glyph_id, &mut points)?;
        assert(points@ =~= glyph_points_partial(
            self.table.bytes@,
            loca_table.table.bytes@,
            head_table.index_to_loc_format,
            glyph_id,
        ).0);
        Ok(points)
    }

    /// Gathers the points of the components of a composite glyph whose first component record
    /// is at `start` (see `composite_run`).
    fn for_each_point_in_composite_glyph(
        &self,
        head_table: &HeadTable,
        loca_table: &LocaTable,
        start: usize,
        out: &mut Vec<Point>,
    ) -> (r: Result<(), FontError>)
        ensures
            final(out)@ == composite_run(
                self.table.bytes@,
                loca_table.table.bytes@,
                head_table.index_to_loc_format,
                start as int,
                old(out)@,
            ).0,
            r == composite_run(
                self.table.bytes@,
                loca_table.table.bytes@,
                head_table.index_to_loc_format,
                start as int,
                old(out)@,
            ).1,
    {
        let bytes = self.table.bytes;
        let ghost s = bytes@;
        let ghost ls = loca_table.table.bytes@;
        let ghost fmt = head_table.index_to_loc_format;
        let ghost goal = composite_run(s, ls, fmt, start as int, out@);
        let mut pos = start;
        loop
            invariant
                bytes@ == s,
                ls == loca_table.table.bytes@,
                fmt == head_table.index_to_loc_format,
                goal == composite_run(s, ls, fmt, pos as int, out@),
                goal == composite_run(s, ls, fmt, start as int, old(out)@),
                bytes == self.table.bytes,
            decreases s.len() - pos,
        {
            let (glyph_index, transform, more, next) = read_component(bytes, pos)?;
            proof {
                lemma_component_advances(s, pos as int);
            }
            self.push_component(head_table, loca_table, glyph_index, &transform, out)?;
            if !more {
                return Ok(());
            }
            pos = next;
        }
    }

    /// Returns the bounds of a glyph (see `glyph_bounds_spec`).
    pub fn glyph_bounds(&self, head_table: &HeadTable, loca_table: &LocaTable, glyph_id: u16)
        -> (r: Result<GlyphBounds, FontError>)
        ensures
            r == glyph_bounds_spec(
                self.table.bytes@,
                loca_table.table.bytes@,
                head_table.index_to_loc_format,
                glyph_id,
            ),
    {
        let bytes = self.table.bytes;
        let offset = match loca_table.location_of(head_table, glyph_id)? {
            None => {
                return Ok(GlyphBounds { left: 0, bottom: 0, right: 0, top: 0 });
            },
            Some(offset) => offset as usize,
        };
        if offset > bytes.len() || bytes.len() - offset < 10 {
            return Err(FontError::UnexpectedEof);
        }
        let x_min = i16_at(bytes, offset + 2)?;
        let y_min = i16_at(bytes, offset + 4)?;
        let x_max = i16_at(bytes, offset + 6)?;
        let y_max = i16_at(bytes, offset + 8)?;
        Ok(GlyphBounds { left: x_min as i32, bottom: y_min as i32, right: x_max as i32, top: y_max as i32 })
    }
}

/// True when point `i` starts a contour (index 0) or follows the point before it in its
/// contour (index one more).
pub open spec fn index_ok_at(pts: Seq<Point>, i: int) -> bool {
    pts[i].index_in_contour == 0 || (i > 0 && pts[i].index_in_contour == pts[i
        - 1].index_in_contour + 1)
}

/// True when every point starts a contour or follows the point before it in its contour.
pub open spec fn indices_ok(pts: Seq<Point>) -> bool {
    forall|i: int| 0 <= i < pts.len() ==> #[trigger] index_ok_at(pts, i)
}

/// True when a point with index `idx` may follow the points `out`.
pub open spec fn continues(out: Seq<Point>, idx: int) -> bool {
    idx == 0 || (out.len() > 0 && idx == out.last().index_in_contour + 1)
}

/// Indexed runs of points stay indexed when put one after the other.
pub proof fn lemma_indices_concat(a: Seq<Point>, b: Seq<Point>)
    requires
        indices_ok(a),
        indices_ok(b),
    ensures
        indices_ok(a + b),
{
    assert forall|i: int| 0 <= i < (a + b).len() implies #[trigger] index_ok_at(a + b, i) by {
        if i < a.len() {
            assert(index_ok_at(a, i));
            assert((a + b)[i] == a[i]);
            if i > 0 {
                assert((a + b)[i - 1] == a[i - 1]);
            }
        } else {
            assert(index_ok_at(b, i - a.len()));
            assert((a + b)[i] == b[i - a.len()]);
            if i > a.len() {
                assert((a + b)[i - 1] == b[i - 1 - a.len()]);
            }
        }
    }
}

/// Appending a point whose index continues the run keeps the run indexed.
pub proof fn lemma_indices_push(out: Seq<Point>, p: Point)
    requires
        indices_ok(out),
        continues(out, p.index_in_contour as int),
    ensures
        indices_ok(out.push(p)),
{
    assert forall|i: int| 0 <= i < out.push(p).len() implies #[trigger] index_ok_at(out.push(p), i) by {
        if i < out.len() {
            assert(index_ok_at(out, i));
            assert(out.push(p)[i] == out[i]);
            if i > 0 {
                assert(out.push(p)[i - 1] == out[i - 1]);
            }
        } else {
            assert(out.push(p)[i] == p);
            if i > 0 {
                assert(out.push(p)[i - 1] == out.last());
            }
        }
    }
}

/// Decoding a point keeps the points indexed and the next index continuing them.
proof fn lemma_point_step_indices(s: Seq<u8>, d: SimpleDecoder, out: Seq<Point>)
    requires
        indices_ok(out),
        continues(out, d.index_in_contour as int),
    ensures
        point_step(s, d) matches Ok((d2, pts)) ==> indices_ok(out + pts) && continues(
            out + pts,
            d2.index_in_contour as int,
        ),
{
    reveal(point_step);
    if let Ok((d2, pts)) = point_step(s, d) {
        let f = d.flags.current;
        let on = flag_set(f, ON_CURVE);
        let implied = d.last_off_curve && !on;
        if implied {
            let q = pts[0];
            assert(q.index_in_contour == d.index_in_contour);
            lemma_indices_push(out, q);
            if pts.len() == 2 {
                assert(pts[1].index_in_contour == d.index_in_contour + 1);
                lemma_indices_push(out.push(q), pts[1]);
                assert(out + pts =~= out.push(q).push(pts[1]));
            } else {
                assert(out + pts =~= out.push(q));
            }
        } else if pts.len() == 1 {
            lemma_indices_push(out, pts[0]);
            assert(out + pts =~= out.push(pts[0]));
        } else {
            assert(out + pts =~= out);
        }
    }
}

/// Decoding points keeps them indexed.
proof fn lemma_points_run_indices(s: Seq<u8>, d: SimpleDecoder, k: nat, out: Seq<Point>)
    requires
        indices_ok(out),
        continues(out, d.index_in_contour as int),
    ensures
        indices_ok(out + points_run(s, d, k).0),
        points_run(s, d, k).1 matches Ok(d2) ==> continues(
            out + points_run(s, d, k).0,
            d2.index_in_contour as int,
        ),
    decreases k,
{
    if k == 0 {
        assert(out + Seq::<Point>::empty() =~= out);
    } else {
        lemma_points_run_indices(s, d, (k - 1) as nat, out);
        let (o1, r) = points_run(s, d, (k - 1) as nat);
        if let Ok(d1) = r {
            lemma_point_step_indices(s, d1, out + o1);
            if let Ok((d2, pts)) = point_step(s, d1) {
                assert(out + (o1 + pts) =~= (out + o1) + pts);
            }
        }
    }
}

/// Closing a contour keeps the points indexed.
proof fn lemma_close_indices(d: SimpleDecoder, out: Seq<Point>)
    requires
        indices_ok(out),
        continues(out, d.index_in_contour as int),
    ensures
        contour_close(d) matches Ok((d2, pts)) ==> indices_ok(out + pts),
{
    reveal(contour_close);
    if let Ok((d2, pts)) = contour_close(d) {
        lemma_indices_chain(out, pts);
    }
}

/// Appending points that count up from an index continuing the run keeps the run indexed.
proof fn lemma_indices_chain(out: Seq<Point>, pts: Seq<Point>)
    requires
        indices_ok(out),
        pts.len() > 0 ==> continues(out, pts[0].index_in_contour as int),
        forall|j: int| 0 < j < pts.len() ==> #[trigger] pts[j].index_in_contour == pts[j - 1].index_in_contour + 1,
    ensures
        indices_ok(out + pts),
    decreases pts.len(),
{
    if pts.len() == 0 {
        assert(out + pts =~= out);
    } else {
        let init = pts.drop_last();
        assert forall|j: int| 0 < j < init.len() implies #[trigger] init[j].index_in_contour == init[j - 1].index_in_contour + 1 by {
            assert(init[j] == pts[j] && init[j - 1] == pts[j - 1]);
        }
        lemma_indices_chain(out, init);
        if pts.len() >= 2 {
            assert((out + init).last() == pts[pts.len() - 2]);
            assert(pts.last().index_in_contour == pts[pts.len() - 2].index_in_contour + 1);
        } else {
            assert(out + init =~= out);
        }
        lemma_indices_push(out + init, pts.last());
        assert(out + pts =~= (out + init).push(pts.last()));
    }
}

/// Decoding contours keeps the points indexed.
proof fn lemma_contours_run_indices(s: Seq<u8>, d: SimpleDecoder, ends: int, k: nat, out: Seq<Point>)
    requires
        indices_ok(out),
    ensures
        indices_ok(out + contours_run(s, d, ends, k).0),
    decreases k,
{
    if k == 0 {
        assert(out + Seq::<Point>::empty() =~= out);
    } else {
        lemma_contours_run_indices(s, d, ends, (k - 1) as nat, out);
        let (o1, r) = contours_run(s, d, ends, (k - 1) as nat);
        if let Ok(d1) = r {
            if let Ok(count) = contour_count(d1, be_u16(s, ends + 2 * (k - 1))) {
                let dc = contour_start(d1);
                lemma_points_run_indices(s, dc, count, out + o1);
                let (o2, r2) = points_run(s, dc, count);
                assert(out + (o1 + o2) =~= (out + o1) + o2);
                if let Ok(d3) = r2 {
                    lemma_close_indices(d3, out + o1 + o2);
                    if let Ok((d4, pts)) = contour_close(d3) {
                        assert(out + (o1 + o2 + pts) =~= (out + o1 + o2) + pts);
                    }
                }
            }
        }
    }
}

/// The points of a simple glyph are indexed by contour.
proof fn lemma_simple_indices(s: Seq<u8>, start: int)
    ensures
        indices_ok(simple_spec(s, start).0),
{
    reveal(simple_spec);
    let e = Seq::<Point>::empty();
    if fits(s, start, 2) && be_i16(s, start) as int > 0 && fits(s, start + 2, 8) && fits(
        s,
        start + 10,
        2 * be_i16(s, start) as int,
    ) {
        let nc = be_i16(s, start) as int;
        let ends = start + 10;
        let flags_start = ends + 2 * nc + 2 + be_u16(s, ends + 2 * nc);
        let n = be_u16(s, ends + 2 * (nc - 1)) + 1;
        if let Ok((x_len, x_start)) = x_size_spec(s, flags_start, n, 0) {
            if let Ok(fp) = flag_next(s, FlagParser { next: flags_start as usize, current: 0, repeats_left: 0 }) {
                lemma_contours_run_indices(s, initial_decoder(fp, x_start, x_start + x_len), ends, nc as nat, e);
                assert(e + contours_run(s, initial_decoder(fp, x_start, x_start + x_len), ends, nc as nat).0
                    =~= contours_run(s, initial_decoder(fp, x_start, x_start + x_len), ends, nc as nat).0);
            }
        }
    }
}

/// Moving points keeps their order and indices.
proof fn lemma_transform_indices(m: Mat3x2, pts: Seq<Point>)
    ensures
        transform_all(m, pts) matches Some(t) ==> t.len() == pts.len() && forall|i: int|
            0 <= i < pts.len() ==> (#[trigger] t[i]).index_in_contour == pts[i].index_in_contour,
    decreases pts.len(),
{
    if pts.len() > 0 {
        lemma_transform_indices(m, pts.drop_last());
    }
}

/// The points of a composite glyph are indexed by contour.
proof fn lemma_composite_indices(s: Seq<u8>, loca: Seq<u8>, format: i16, pos: int, out: Seq<Point>)
    requires
        indices_ok(out),
    ensures
        indices_ok(composite_run(s, loca, format, pos, out).0),
    decreases s.len() - pos,
{
    if let Ok((glyph_index, m, more, next)) = component_spec(s, pos) {
        if let Ok(pts) = component_points(s, loca, format, glyph_index, m) {
            reveal(component_points);
            if let Ok(Some(offset)) = location_spec(loca, format, glyph_index) {
                if offset <= s.len() {
                    let (raw, st) = simple_spec(s, offset as int);
                    lemma_simple_indices(s, offset as int);
                    lemma_transform_indices(m, raw);
                    assert forall|i: int| 0 <= i < pts.len() implies #[trigger] index_ok_at(pts, i) by {
                        assert(index_ok_at(raw, i));
                    }
                }
            } else {
                assert(indices_ok(pts));
            }
            lemma_indices_concat(out, pts);
            if more {
                lemma_component_advances(s, pos);
                lemma_composite_indices(s, loca, format, next, out + pts);
            }
        }
    }
}

/// The points of a glyph come contour by contour: each point has index 0 in its contour,
/// which starts a new contour, or the index of the point before it plus one. This holds of the
/// points decoded before an error too.
pub proof fn lemma_glyph_points_indexed(s: Seq<u8>, loca: Seq<u8>, format: i16, glyph_id: u16)
    ensures
        indices_ok(glyph_points_partial(s, loca, format, glyph_id).0),
{
    let e = Seq::<Point>::empty();
    if let Ok(Some(offset)) = location_spec(loca, format, glyph_id) {
        if offset <= s.len() && fits(s, offset as int, 2) {
            if be_i16(s, offset as int) >= 0 {
                lemma_simple_indices(s, offset as int);
            } else if fits(s, offset as int, 10) {
                lemma_composite_indices(s, loca, format, offset + 10, e);
            }
        }
    }
}

} // verus!
