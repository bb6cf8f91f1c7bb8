//! Glyph bounds and the packing of glyph outlines into vertex and index lists.

use vstd::prelude::*;

use crate::error::FontError;
use crate::font::{font_bounds_spec, font_points_partial, Font};
use crate::geometry::{Point2DI16, Size2DI32};
use crate::otf::glyf::{Point, PointKind};

verus! {

/// The boundaries of a glyph in font units.
#[derive(Copy, Clone, Debug, PartialEq, Eq, Structural)]
pub struct GlyphBounds {
    pub left: i32,
    pub bottom: i32,
    pub right: i32,
    pub top: i32,
}

impl GlyphBounds {
    /// Bounds with every edge at zero.
    pub fn zero() -> (r: GlyphBounds)
        ensures
            r == (GlyphBounds { left: 0, bottom: 0, right: 0, top: 0 }),
    {
        GlyphBounds { left: 0, bottom: 0, right: 0, top: 0 }
    }
}

impl GlyphBounds {
    /// Returns the total size of the glyph in font units.
    pub fn size(&self) -> (r: Size2DI32)
        requires
            i32::MIN <= self.right - self.left <= i32::MAX,
            i32::MIN <= self.top - self.bottom <= i32::MAX,
        ensures
            r.width == self.right - self.left,
            r.height == self.top - self.bottom,
    {
        Size2DI32 { width: self.right - self.left, height: self.top - self.bottom }
    }
}

/// The boundaries of the glyph, rounded out to the nearest pixel.
#[derive(Copy, Clone, Debug, PartialEq, Eq, Structural)]
pub struct GlyphPixelBounds {
    pub left: i32,
    pub bottom: i32,
    pub right: i32,
    pub top: i32,
}

impl GlyphPixelBounds {
    /// Returns the total size of the glyph in whole pixels.
    pub fn size(&self) -> (r: Size2DI32)
        requires
            i32::MIN <= self.right - self.left <= i32::MAX,
            i32::MIN <= self.top - self.bottom <= i32::MAX,
        ensures
            r.width == self.right - self.left,
            r.height == self.top - self.bottom,
    {
        Size2DI32 { width: self.right - self.left, height: self.top - self.bottom }
    }
}

/// A point of an outline, tagged with the glyph it belongs to.
#[derive(Copy, Clone, Debug, PartialEq, Eq, Structural)]
pub struct Vertex {
    pub x: i16,
    pub y: i16,
    pub glyph_index: u16,
}

/// Where the outline of a glyph lies in the vertex and index lists.
#[derive(Copy, Clone, Debug, PartialEq, Eq, Structural)]
pub struct GlyphDescriptor {
    pub bounds: GlyphBounds,
    pub units_per_em: u32,
    pub start_point: u32,
    pub start_index: u32,
    pub glyph_id: u16,
}

impl GlyphDescriptor {
    /// The position of the glyph's first index in the index list.
    pub fn start_index(&self) -> (r: u32)
        ensures
            r == self.start_index,
    {
        self.start_index
    }
}

/// The vertex that opens the vertex list, so that index 0 is never a point of a path.
pub open spec fn dummy_vertex() -> Vertex {
    Vertex { x: 0, y: 0, glyph_index: 0 }
}

/// Packs up outlines for glyphs: a vertex list, an index list with four indices per segment
/// (its endpoints, and its control points or zero for a line), and a descriptor per glyph.
pub struct OutlineBuilder {
    pub vertices: Vec<Vertex>,
    pub indices: Vec<u32>,
    pub descriptors: Vec<GlyphDescriptor>,
}

/// A helper object to construct a single path: where its vertices and indices start, where
/// its vertices end, how many points it has and which glyph it is.
#[derive(Copy, Clone, Debug, PartialEq, Eq, Structural)]
pub struct PathBuilder {
    pub vbo_start_index: u32,
    pub vbo_end_index: u32,
    pub ibo_start_index: u32,
    pub point_index_in_path: u16,
    pub glyph_index: u16,
}

impl OutlineBuilder {
    /// Creates a new empty set of outlines.
    pub fn new() -> (r: OutlineBuilder)
        ensures
            r.vertices@ == seq![dummy_vertex()],
            r.indices@ == Seq::<u32>::empty(),
            r.descriptors@ == Seq::<GlyphDescriptor>::empty(),
    {
        OutlineBuilder {
            vertices: vec![Vertex { x: 0, y: 0, glyph_index: 0 }],
            indices: Vec::new(),
            descriptors: Vec::new(),
        }
    }

    /// Begins a new path after what the builder holds.
    pub fn create_path(&self) -> (r: PathBuilder)
        ensures
            r.vbo_start_index == self.vertices@.len() as u32,
            r.vbo_end_index == self.vertices@.len() as u32,
            r.ibo_start_index == self.indices@.len() as u32,
            r.point_index_in_path == 0,
            r.glyph_index == self.descriptors@.len() as u16,
    {
        PathBuilder {
            vbo_start_index: self.vertices.len() as u32,
            vbo_end_index: self.vertices.len() as u32,
            ibo_start_index: self.indices.len() as u32,
            point_index_in_path: 0,
            glyph_index: self.descriptors.len() as u16,
        }
    }
}

impl OutlineBuilder {
    /// Finishes the outlines for upload: the vertex and index lists are handed back for the
    /// GPU, and what is kept of the glyphs is their descriptors and the number of indices.
    pub fn create_buffers(self) -> (r: (Outlines, Vec<Vertex>, Vec<u32>))
        ensures
            r.0.descriptors@ == self.descriptors@,
            r.0.indices_count == self.indices@.len(),
            r.1@ == self.vertices@,
            r.2@ == self.indices@,
    {
        let indices_count = self.indices.len();
        (Outlines { descriptors: self.descriptors, indices_count: indices_count }, self.vertices, self.indices)
    }
}

/// Resolution-independent glyph outlines, as uploaded: the descriptor of each glyph and the
/// number of indices.
pub struct Outlines {
    pub descriptors: Vec<GlyphDescriptor>,
    pub indices_count: usize,
}

impl Outlines {
    /// Returns the descriptor of the glyph with the given index, if there is one.
    pub fn descriptor(&self, glyph_index: u16) -> (r: Option<&GlyphDescriptor>)
        ensures
            glyph_index < self.descriptors@.len() ==> r == Some(&self.descriptors@[glyph_index as int]),
            glyph_index >= self.descriptors@.len() ==> r is None,
    {
        if (glyph_index as usize) < self.descriptors.len() {
            Some(&self.descriptors[glyph_index as usize])
        } else {
            None
        }
    }

    /// Returns the number of indices.
    pub fn indices_count(&self) -> (r: usize)
        ensures
            r == self.indices_count,
    {
        self.indices_count
    }

    /// Returns the glyph rectangle in font units.
    pub fn glyph_bounds(&self, glyph_index: u32) -> (r: GlyphBounds)
        requires
            glyph_index < self.descriptors@.len(),
        ensures
            r == self.descriptors@[glyph_index as int].bounds,
    {
        self.descriptors[glyph_index as usize].bounds
    }

    /// Returns the ID of the glyph with the given index.
    pub fn glyph_id(&self, glyph_index: u16) -> (r: u16)
        requires
            glyph_index < self.descriptors@.len(),
        ensures
            r == self.descriptors@[glyph_index as int].glyph_id,
    {
        self.descriptors[glyph_index as usize].glyph_id
    }

    /// Returns the units per em for the glyph with the given index.
    pub fn glyph_units_per_em(&self, glyph_index: u16) -> (r: u32)
        requires
            glyph_index < self.descriptors@.len(),
        ensures
            r == self.descriptors@[glyph_index as int].units_per_em,
    {
        self.descriptors[glyph_index as usize].units_per_em
    }
}

/// The vertex of a point of the path.
pub open spec fn vertex_of(p: PathBuilder, point: Point2DI16) -> Vertex {
    Vertex { x: point.x, y: point.y, glyph_index: p.glyph_index }
}

/// The path after one more point.
pub open spec fn advanced(p: PathBuilder, n: int) -> PathBuilder {
    PathBuilder {
        vbo_end_index: (p.vbo_end_index + n) as u32,
        point_index_in_path: (p.point_index_in_path + n) as u16,
        ..p
    }
}

/// True when `n` more points fit in the path's counters.
pub open spec fn room_for(p: PathBuilder, n: int) -> bool {
    p.point_index_in_path + n <= u16::MAX && p.vbo_end_index + n <= u32::MAX
}

impl PathBuilder {
    fn add_point(&mut self, outline_builder: &mut OutlineBuilder, point: &Point2DI16)
        requires
            room_for(*old(self), 1),
        ensures
            final(outline_builder).vertices@ == old(outline_builder).vertices@.push(
                vertex_of(*old(self), *point),
            ),
            final(outline_builder).indices@ == old(outline_builder).indices@,
            final(outline_builder).descriptors@ == old(outline_builder).descriptors@,
            *final(self) == advanced(*old(self), 1),
    {
        outline_builder.vertices.push(Vertex { x: point.x, y: point.y, glyph_index: self.glyph_index });
        self.point_index_in_path = self.point_index_in_path + 1;
        self.vbo_end_index = self.vbo_end_index + 1;
    }

    /// Moves the pen to the given point.
    pub fn move_to(&mut self, outline_builder: &mut OutlineBuilder, point: &Point2DI16)
        requires
            room_for(*old(self), 1),
        ensures
            final(outline_builder).vertices@ == old(outline_builder).vertices@.push(
                vertex_of(*old(self), *point),
            ),
            final(outline_builder).indices@ == old(outline_builder).indices@,
            final(outline_builder).descriptors@ == old(outline_builder).descriptors@,
            *final(self) == advanced(*old(self), 1),
    {
        self.add_point(outline_builder, point)
    }

    /// Draws a straight line to the given point. A `move_to` must come first.
    pub fn line_to(&mut self, outline_builder: &mut OutlineBuilder, point: &Point2DI16)
        requires
            old(self).point_index_in_path != 0,
            old(self).vbo_end_index >= 1,
            room_for(*old(self), 1),
        ensures
            final(outline_builder).vertices@ == old(outline_builder).vertices@.push(
                vertex_of(*old(self), *point),
            ),
            final(outline_builder).indices@ == old(outline_builder).indices@ + seq![
                (old(self).vbo_end_index - 1) as u32,
                0u32,
                0u32,
                old(self).vbo_end_index,
            ],
            final(outline_builder).descriptors@ == old(outline_builder).descriptors@,
            *final(self) == advanced(*old(self), 1),
    {
        self.add_point(outline_builder, point);
        let e = self.vbo_end_index;
        outline_builder.indices.push(e - 2);
        outline_builder.indices.push(0);
        outline_builder.indices.push(0);
        outline_builder.indices.push(e - 1);
    }

    /// Draws a quadratic Bézier curve to the given point. A `move_to` must come first.
    pub fn quad_curve_to(&mut self, outline_builder: &mut OutlineBuilder, p1: &Point2DI16, p2: &Point2DI16)
        requires
            old(self).point_index_in_path != 0,
            old(self).vbo_end_index >= 1,
            room_for(*old(self), 2),
        ensures
            final(outline_builder).vertices@ == old(outline_builder).vertices@.push(
                vertex_of(*old(self), *p1),
            ).push(vertex_of(*old(self), *p2)),
            final(outline_builder).indices@ == old(outline_builder).indices@ + seq![
                (old(self).vbo_end_index - 1) as u32,
                old(self).vbo_end_index,
                old(self).vbo_end_index,
                (old(self).vbo_end_index + 1) as u32,
            ],
            final(outline_builder).descriptors@ == old(outline_builder).descriptors@,
            *final(self) == advanced(*old(self), 2),
    {
        self.add_point(outline_builder, p1);
        self.add_point(outline_builder, p2);
        let e = self.vbo_end_index;
        outline_builder.indices.push(e - 3);
        outline_builder.indices.push(e - 2);
        outline_builder.indices.push(e - 2);
        outline_builder.indices.push(e - 1);
    }

    /// Draws a cubic Bézier curve to the given point. A `move_to` must come first.
    pub fn cubic_curve_to(
        &mut self,
        outline_builder: &mut OutlineBuilder,
        p1: &Point2DI16,
        p2: &Point2DI16,
        p3: &Point2DI16,
    )
        requires
            old(self).point_index_in_path != 0,
            old(self).vbo_end_index >= 1,
            room_for(*old(self), 3),
        ensures
            final(outline_builder).vertices@ == old(outline_builder).vertices@.push(
                vertex_of(*old(self), *p1),
            ).push(vertex_of(*old(self), *p2)).push(vertex_of(*old(self), *p3)),
            final(outline_builder).indices@ == old(outline_builder).indices@ + seq![
                (old(self).vbo_end_index - 1) as u32,
                old(self).vbo_end_index,
                (old(self).vbo_end_index + 1) as u32,
                (old(self).vbo_end_index + 2) as u32,
            ],
            final(outline_builder).descriptors@ == old(outline_builder).descriptors@,
            *final(self) == advanced(*old(self), 3),
    {
        self.add_point(outline_builder, p1);
        self.add_point(outline_builder, p2);
        self.add_point(outline_builder, p3);
        let e = self.vbo_end_index;
        outline_builder.indices.push(e - 4);
        outline_builder.indices.push(e - 3);
        outline_builder.indices.push(e - 2);
        outline_builder.indices.push(e - 1);
    }

    /// Finishes the path: records the glyph's descriptor.
    pub fn finish(self, outline_builder: &mut OutlineBuilder, bounds: &GlyphBounds, units_per_em: u32, glyph_id: u16)
        ensures
            final(outline_builder).vertices@ == old(outline_builder).vertices@,
            final(outline_builder).indices@ == old(outline_builder).indices@,
            final(outline_builder).descriptors@ == old(outline_builder).descriptors@.push(
                GlyphDescriptor {
                    bounds: *bounds,
                    units_per_em,
                    start_point: self.vbo_start_index,
                    start_index: self.ibo_start_index,
                    glyph_id,
                },
            ),
    {
        outline_builder.descriptors.push(
            GlyphDescriptor {
                bounds: *bounds,
                units_per_em: units_per_em,
                start_point: self.vbo_start_index,
                start_index: self.ibo_start_index,
                glyph_id: glyph_id,
            },
        );
    }
}

/// Where turning the points of a glyph into a path stands: the pending points (three slots)
/// and how many are pending, the kind of the last point, the path, and the vertex and index
/// lists.
pub struct OutlineTrace {
    pub control_points: Seq<Point2DI16>,
    pub count: int,
    pub last_kind: PointKind,
    pub path: PathBuilder,
    pub vertices: Seq<Vertex>,
    pub indices: Seq<u32>,
}

/// The trace after the path gains the points `qs`, with `idx` appended to the index list.
pub open spec fn with_points(t: OutlineTrace, qs: Seq<Point2DI16>, idx: Seq<u32>) -> OutlineTrace {
    OutlineTrace {
        path: advanced(t.path, qs.len() as int),
        vertices: t.vertices + qs.map_values(|q: Point2DI16| vertex_of(t.path, q)),
        indices: t.indices + idx,
        ..t
    }
}

/// Draws a segment through the points `qs` (one for a line, two for a quadratic curve, three
/// for a cubic one), or `None` when no `move_to` came first or the counters overflow.
pub open spec fn segment(t: OutlineTrace, qs: Seq<Point2DI16>) -> Option<OutlineTrace> {
    let e = t.path.vbo_end_index as int;
    if t.path.point_index_in_path == 0 || e < 1 || !room_for(t.path, qs.len() as int) {
        None
    } else if qs.len() == 1 {
        Some(with_points(t, qs, seq![(e - 1) as u32, 0u32, 0u32, e as u32]))
    } else if qs.len() == 2 {
        Some(with_points(t, qs, seq![(e - 1) as u32, e as u32, e as u32, (e + 1) as u32]))
    } else {
        Some(with_points(t, qs, seq![(e - 1) as u32, e as u32, (e + 1) as u32, (e + 2) as u32]))
    }
}

/// Takes one point of a glyph: it becomes pending; the first point of a contour moves the
/// pen to the first pending point; an on-curve point draws, through the pending points, the
/// segment the last point's kind calls for (nothing after a first cubic control point). Either
/// clears the pending points. `None` when a fourth point would be pending or a segment cannot
/// be drawn.
pub open spec fn outline_step(t: OutlineTrace, p: Point) -> Option<OutlineTrace> {
    if t.count >= 3 {
        None
    } else {
        let cps = t.control_points.update(t.count, p.position);
        let next = if p.index_in_contour == 0 {
            if !room_for(t.path, 1) {
                None
            } else {
                Some(with_points(t, seq![cps[0]], Seq::empty()))
            }
        } else if p.kind == PointKind::OnCurve {
            match t.last_kind {
                PointKind::FirstCubicControl => Some(t),
                PointKind::SecondCubicControl => segment(t, seq![cps[0], cps[1], cps[2]]),
                PointKind::QuadControl => segment(t, seq![cps[0], cps[1]]),
                PointKind::OnCurve => segment(t, seq![cps[0]]),
            }
        } else {
            Some(t)
        };
        match next {
            None => None,
            Some(t2) => Some(
                OutlineTrace {
                    control_points: cps,
                    count: if p.index_in_contour == 0 || p.kind == PointKind::OnCurve {
                        0
                    } else {
                        t.count + 1
                    },
                    last_kind: p.kind,
                    ..t2
                },
            ),
        }
    }
}

/// Takes the points in order (see `outline_step`).
pub open spec fn outline_run(t: OutlineTrace, pts: Seq<Point>) -> Option<OutlineTrace>
    decreases pts.len(),
{
    if pts.len() == 0 {
        Some(t)
    } else {
        match outline_run(t, pts.drop_last()) {
            None => None,
            Some(t1) => outline_step(t1, pts.last()),
        }
    }
}

/// The trace before the first point of a glyph added to `ob`.
pub open spec fn initial_trace(ob: OutlineBuilder) -> OutlineTrace {
    OutlineTrace {
        control_points: seq![Point2DI16 { x: 0, y: 0 }, Point2DI16 { x: 0, y: 0 }, Point2DI16 { x: 0, y: 0 }],
        count: 0,
        last_kind: PointKind::OnCurve,
        path: PathBuilder {
            vbo_start_index: ob.vertices@.len() as u32,
            vbo_end_index: ob.vertices@.len() as u32,
            ibo_start_index: ob.indices@.len() as u32,
            point_index_in_path: 0,
            glyph_index: ob.descriptors@.len() as u16,
        },
        vertices: ob.vertices@,
        indices: ob.indices@,
    }
}

impl OutlineBuilder {
    /// Adds a new glyph to the outline builder: the path through its points, then its
    /// descriptor. Returns the glyph's index among the descriptors.
    pub fn add_glyph(&mut self, font: &Font, glyph_id: u16) -> (r: Result<u16, FontError>)
        ensures
            ({
                let (pts, st) = font_points_partial(*font, glyph_id);
                match outline_run(initial_trace(*old(self)), pts) {
                    None => r == Err::<u16, FontError>(FontError::Failed),
                    Some(t) => final(self).vertices@ == t.vertices && final(self).indices@
                        == t.indices && match st {
                        Err(e) => r == Err::<u16, FontError>(e) && final(self).descriptors@
                            == old(self).descriptors@,
                        Ok(_) => match font_bounds_spec(*font, glyph_id) {
                            Err(e) => r == Err::<u16, FontError>(e) && final(self).descriptors@
                                == old(self).descriptors@,
                            Ok(b) => r == Ok::<u16, FontError>(old(self).descriptors@.len() as u16)
                                && final(self).descriptors@ == old(self).descriptors@.push(
                                GlyphDescriptor {
                                    bounds: b,
                                    units_per_em: font.head.units_per_em as u32,
                                    start_point: t.path.vbo_start_index,
                                    start_index: t.path.ibo_start_index,
                                    glyph_id,
                                },
                            ),
                        },
                    },
                }
            }),
    {
        let glyph_index = self.descriptors.len() as u16;
        let mut path = self.create_path();
        let ghost t0 = initial_trace(*self);
        let mut points = Vec::new();
        let status = font.push_points(glyph_id, &mut points);
        assert(points@ =~= font_points_partial(*font, glyph_id).0);
        let zero = Point2DI16 { x: 0, y: 0 };
        let mut control_points: [Point2DI16; 3] = [zero, zero, zero];
        let mut count: usize = 0;
        let mut last_kind = PointKind::OnCurve;
        let mut i: usize = 0;
        assert(points@.take(0) =~= Seq::<Point>::empty());
        assert(control_points@ =~= t0.control_points);
        while i < points.len()
            invariant
                i <= points.len(),
                outline_run(t0, points@.take(i as int)) == Some(
                    OutlineTrace {
                        control_points: control_points@,
                        count: count as int,
                        last_kind,
                        path,
                        vertices: self.vertices@,
                        indices: self.indices@,
                    },
                ),
                self.descriptors@ == old(self).descriptors@,
                t0 == initial_trace(*old(self)),
                path.vbo_start_index == t0.path.vbo_start_index,
                path.ibo_start_index == t0.path.ibo_start_index,
                path.glyph_index == t0.path.glyph_index,
                control_points@.len() == 3,
                font_points_partial(*font, glyph_id) == (points@, status),
            decreases points.len() - i,
        {
            assert(points@.take(i + 1).drop_last() =~= points@.take(i as int));
            let point = points[i];
            if count >= 3 {
                proof {
                    lemma_outline_stop(t0, points@, (i + 1) as nat);
                }
                return Err(FontError::Failed);
            }
            let ghost vs = self.vertices@;
            let ghost is = self.indices@;
            let ghost t = OutlineTrace {
                control_points: control_points@,
                count: count as int,
                last_kind,
                path,
                vertices: vs,
                indices: is,
            };
            control_points[count] = point.position;
            let cps = control_points;
            if point.index_in_contour == 0 {
                if path.point_index_in_path == u16::MAX || path.vbo_end_index == u32::MAX {
                    proof {
                        lemma_outline_stop(t0, points@, (i + 1) as nat);
                    }
                    return Err(FontError::Failed);
                }
                path.move_to(self, &cps[0]);
                assert(self.vertices@ =~= with_points(t, seq![cps[0]], Seq::empty()).vertices);
                assert(self.indices@ =~= with_points(t, seq![cps[0]], Seq::empty()).indices);
                count = 0;
            } else if point.kind == PointKind::OnCurve {
                let e = path.vbo_end_index;
                let pip = path.point_index_in_path;
                match last_kind {
                    PointKind::FirstCubicControl => {},
                    PointKind::SecondCubicControl => {
                        if pip == 0 || e < 1 || pip > u16::MAX - 3 || e > u32::MAX - 3 {
                            proof {
                                lemma_outline_stop(t0, points@, (i + 1) as nat);
                            }
                            return Err(FontError::Failed);
                        }
                        path.cubic_curve_to(self, &cps[0], &cps[1], &cps[2]);
                        assert(self.vertices@ =~= with_points(t, seq![cps[0], cps[1], cps[2]], Seq::empty()).vertices);
                    },
                    PointKind::QuadControl => {
                        if pip == 0 || e < 1 || pip > u16::MAX - 2 || e > u32::MAX - 2 {
                            proof {
                                lemma_outline_stop(t0, points@, (i + 1) as nat);
                            }
                            return Err(FontError::Failed);
                        }
                        path.quad_curve_to(self, &cps[0], &cps[1]);
                        assert(self.vertices@ =~= with_points(t, seq![cps[0], cps[1]], Seq::empty()).vertices);
                    },
                    PointKind::OnCurve => {
                        if pip == 0 || e < 1 || pip > u16::MAX - 1 || e > u32::MAX - 1 {
                            proof {
                                lemma_outline_stop(t0, points@, (i + 1) as nat);
                            }
                            return Err(FontError::Failed);
                        }
                        path.line_to(self, &cps[0]);
                        assert(self.vertices@ =~= with_points(t, seq![cps[0]], Seq::empty()).vertices);
                    },
                }
                count = 0;
            } else {
                count = count + 1;
            }
            last_kind = point.kind;
            i = i + 1;
        }
        assert(points@.take(points@.len() as int) =~= points@);
        status?;
        let bounds = font.glyph_bounds(glyph_id)?;
        path.finish(self, &bounds, font.units_per_em() as u32, glyph_id);
        Ok(glyph_index)
    }
}

/// Once taking points fails, taking more fails too.
proof fn lemma_outline_stop(t: OutlineTrace, pts: Seq<Point>, k: nat)
    requires
        k <= pts.len(),
        outline_run(t, pts.take(k as int)) is None,
    ensures
        outline_run(t, pts) is None,
    decreases pts.len() - k,
{
    if k < pts.len() {
        assert(pts.take(k + 1 as int).drop_last() =~= pts.take(k as int));
        lemma_outline_stop(t, pts, k + 1);
    } else {
        assert(pts.take(k as int) =~= pts);
    }
}

} // verus!
