//! Glyph outlines packed as triangles for the GPU: each on-curve point that continues a
//! contour closes a triangle with the point or control point before it.

use vstd::prelude::*;

use crate::font::Font;
use crate::otf::glyf::{glyph_bounds_spec, glyph_points_partial};
use crate::otf::glyf::{Point, PointKind};
pub use crate::outline::{GlyphBounds, GlyphDescriptor, Vertex};
use crate::outline::dummy_vertex;

verus! {

pub struct GlyphBufferBuilder {
    pub vertices: Vec<Vertex>,
    pub indices: Vec<u32>,
    pub descriptors: Vec<GlyphDescriptor>,
}

/// The indices an on-curve point at `point_index` adds when it continues a contour: a line
/// from the point before it (with zero for the missing control point), or a curve through the
/// control point before it.
pub open spec fn triangle_indices(point_index: int, last_on_curve: bool) -> Seq<u32> {
    if last_on_curve {
        seq![(point_index - 1) as u32, 0u32, point_index as u32]
    } else {
        seq![(point_index - 2) as u32, (point_index - 1) as u32, point_index as u32]
    }
}

/// Where packing the points of a glyph stands: the index of the next point, whether the last
/// point was on the curve, and the vertex and index lists.
pub struct BufferTrace {
    pub point_index: int,
    pub last_on_curve: bool,
    pub vertices: Seq<Vertex>,
    pub indices: Seq<u32>,
}

/// Packs one point of glyph `glyph_index`, or `None` when an index would leave `u32`.
pub open spec fn buffer_step(t: BufferTrace, p: Point, glyph_index: u16) -> Option<BufferTrace> {
    let on = p.kind == PointKind::OnCurve;
    let adds = !(p.index_in_contour == 0) && on;
    if t.point_index + 1 > u32::MAX || (adds && t.point_index < 2 && !t.last_on_curve) || (adds
        && t.point_index < 1) {
        None
    } else {
        Some(
            BufferTrace {
                point_index: t.point_index + 1,
                last_on_curve: on,
                vertices: t.vertices.push(
                    Vertex { x: p.position.x, y: p.position.y, glyph_index },
                ),
                indices: if adds {
                    t.indices + triangle_indices(t.point_index, t.last_on_curve)
                } else {
                    t.indices
                },
            },
        )
    }
}

/// Packs the points in order (see `buffer_step`).
pub open spec fn buffer_run(t: BufferTrace, pts: Seq<Point>, glyph_index: u16) -> Option<BufferTrace>
    decreases pts.len(),
{
    if pts.len() == 0 {
        Some(t)
    } else {
        match buffer_run(t, pts.drop_last(), glyph_index) {
            None => None,
            Some(t1) => buffer_step(t1, pts.last(), glyph_index),
        }
    }
}

/// Once packing fails, packing more fails too.
proof fn lemma_buffer_stop(t: BufferTrace, pts: Seq<Point>, k: nat, g: u16)
    requires
        k <= pts.len(),
        buffer_run(t, pts.take(k as int), g) is None,
    ensures
        buffer_run(t, pts, g) is None,
    decreases pts.len() - k,
{
    if k < pts.len() {
        assert(pts.take(k + 1 as int).drop_last() =~= pts.take(k as int));
        lemma_buffer_stop(t, pts, k + 1, g);
    } else {
        assert(pts.take(k as int) =~= pts);
    }
}

impl GlyphBufferBuilder {
    pub fn new() -> (r: GlyphBufferBuilder)
        ensures
            r.vertices@ == seq![dummy_vertex()],
            r.indices@ == Seq::<u32>::empty(),
            r.descriptors@ == Seq::<GlyphDescriptor>::empty(),
    {
        GlyphBufferBuilder {
            vertices: vec![Vertex { x: 0, y: 0, glyph_index: 0 }],
            indices: Vec::new(),
            descriptors: Vec::new(),
        }
    }

    /// Returns the glyph rectangle in units.
    pub fn glyph_bounds(&self, glyph_index: u32) -> (r: GlyphBounds)
        requires
            glyph_index < self.descriptors@.len(),
        ensures
            r == self.descriptors@[glyph_index as int].bounds,
    {
        self.descriptors[glyph_index as usize].bounds
    }

    /// Adds the points of a glyph of a font with TrueType outlines, then its descriptor. Fails
    /// when the font has no `glyf` or `loca` table, when decoding the glyph fails (after
    /// packing the points decoded before the error) or when its bounds cannot be read.
    pub fn add_glyph(&mut self, font: &Font, glyph_id: u16) -> (r: Result<(), ()>)
        ensures
            (font.glyf is None || font.loca is None) ==> r is Err && final(self).vertices@
                == old(self).vertices@ && final(self).indices@ == old(self).indices@
                && final(self).descriptors@ == old(self).descriptors@,
            font.glyf is Some && font.loca is Some ==> ({
                let s = font.glyf->Some_0.table.bytes@;
                let ls = font.loca->Some_0.table.bytes@;
                let fmt = font.head.index_to_loc_format;
                let (pts, st) = glyph_points_partial(s, ls, fmt, glyph_id);
                let t0 = BufferTrace {
                    point_index: old(self).vertices@.len() as u32 as int,
                    last_on_curve: true,
                    vertices: old(self).vertices@,
                    indices: old(self).indices@,
                };
                match buffer_run(t0, pts, old(self).descriptors@.len() as u16) {
                    None => r is Err,
                    Some(t) => final(self).vertices@ == t.vertices && final(self).indices@
                        == t.indices && if st is Err {
                        r is Err && final(self).descriptors@ == old(self).descriptors@
                    } else {
                        match glyph_bounds_spec(s, ls, fmt, glyph_id) {
                            Err(_) => r is Err && final(self).descriptors@ == old(
                                self,
                            ).descriptors@,
                            Ok(b) => r is Ok && final(self).descriptors@ == old(
                                self,
                            ).descriptors@.push(
                                GlyphDescriptor {
                                    bounds: b,
                                    units_per_em: font.head.units_per_em as u32,
                                    start_point: old(self).vertices@.len() as u32,
                                    start_index: old(self).indices@.len() as u32,
                                    glyph_id,
                                },
                            ),
                        }
                    },
                }
            }),
    {
        let glyph_index = self.descriptors.len() as u16;
        let start_point = self.vertices.len() as u32;
        let start_index = self.indices.len() as u32;
        let glyf = match font.glyf {
            Some(g) => g,
            None => {
                return Err(());
            },
        };
        let loca = match font.loca {
            Some(ref l) => l,
            None => {
                return Err(());
            },
        };
        let ghost s = glyf.table.bytes@;
        let ghost ls = loca.table.bytes@;
        let ghost fmt = font.head.index_to_loc_format;
        let mut points = Vec::new();
        let status = glyf.push_points(&font.head, loca, glyph_id, &mut points);
        assert(points@ =~= glyph_points_partial(s, ls, fmt, glyph_id).0);
        let ghost t0 = BufferTrace {
            point_index: start_point as int,
            last_on_curve: true,
            vertices: self.vertices@,
            indices: self.indices@,
        };
        let mut point_index: u32 = start_point;
        let mut last_point_on_curve = true;
        let mut i: usize = 0;
        assert(points@.take(0) =~= Seq::<Point>::empty());
        while i < points.len()
            invariant
                i <= points.len(),
                buffer_run(t0, points@.take(i as int), glyph_index) == Some(
                    BufferTrace {
                        point_index: point_index as int,
                        last_on_curve: last_point_on_curve,
                        vertices: self.vertices@,
                        indices: self.indices@,
                    },
                ),
                self.descriptors@ == old(self).descriptors@,
                glyph_points_partial(s, ls, fmt, glyph_id) == (points@, status),
                font.glyf is Some && font.loca is Some,
                s == font.glyf->Some_0.table.bytes@,
                ls == font.loca->Some_0.table.bytes@,
                fmt == font.head.index_to_loc_format,
                glyph_index == old(self).descriptors@.len() as u16,
                t0.vertices == old(self).vertices@,
                t0.indices == old(self).indices@,
                t0.point_index == old(self).vertices@.len() as u32 as int,
                t0.last_on_curve,
            decreases points.len() - i,
        {
            assert(points@.take(i + 1).drop_last() =~= points@.take(i as int));
            let point = points[i];
            let on_curve = point.kind == PointKind::OnCurve;
            let adds = !(point.index_in_contour == 0) && on_curve;
            if point_index == u32::MAX || (adds && point_index < 2 && !last_point_on_curve) || (
            adds && point_index < 1) {
                proof {
                    lemma_buffer_stop(t0, points@, (i + 1) as nat, glyph_index);
                }
                return Err(());
            }
            self.vertices.push(Vertex { x: point.position.x, y: point.position.y, glyph_index: glyph_index });
            if adds {
                let ghost before = self.indices@;
                if last_point_on_curve {
                    self.indices.push(point_index - 1);
                    self.indices.push(0);
                    self.indices.push(point_index);
                } else {
                    self.indices.push(point_index - 2);
                    self.indices.push(point_index - 1);
                    self.indices.push(point_index);
                }
                assert(self.indices@ =~= before + triangle_indices(point_index as int, last_point_on_curve));
            }
            point_index = point_index + 1;
            last_point_on_curve = on_curve;
            i = i + 1;
        }
        assert(points@.take(points@.len() as int) =~= points@);
        if status.is_err() {
            return Err(());
        }
        let bounds = match glyf.glyph_bounds(&font.head, loca, glyph_id) {
            Ok(b) => b,
            Err(_) => {
                return Err(());
            },
        };
        self.descriptors.push(
            GlyphDescriptor {
                bounds: bounds,
                units_per_em: font.head.units_per_em as u32,
                start_point: start_point,
                start_index: start_index,
                glyph_id: glyph_id,
            },
        );
        Ok(())
    }
}

} // verus!
