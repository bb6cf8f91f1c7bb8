//! Glyph outlines packed as point coordinates and two-bit point operations.
//!
//! Each point of an outline gives its coordinates and an operation: 0 for the first point of a
//! contour, 1 for an on-curve point and 2 for a control point. The operations are packed four
//! to a byte, the first in the lowest bits.

use vstd::prelude::*;

use crate::otf::glyf::{glyph_points_partial, GlyfTable, Point, PointKind};
use crate::otf::head::HeadTable;
use crate::otf::loca::LocaTable;

verus! {

/// Glyph outlines as a coordinate list and a packed operation list.
pub struct GlyphBuffers {
    pub coordinates: Vec<(i16, i16)>,
    pub operations: Vec<u8>,
    pub descriptors: Vec<GlyphDescriptor>,
}

/// Where the outline of a glyph lies in the buffers, and its bounds.
#[derive(Clone, Copy, Debug, PartialEq, Eq, Structural)]
pub struct GlyphDescriptor {
    pub left: i16,
    pub bottom: i16,
    pub width: i16,
    pub height: i16,
    pub units_per_em: u16,
    pub point_count: u16,
    pub index_of_first_point: u32,
}

/// The operation of a point: 0 for the first point of a contour, 1 for an on-curve point and 2
/// for a control point.
pub open spec fn point_operation(p: Point) -> u8 {
    if p.index_in_contour == 0 {
        0
    } else if p.kind == PointKind::OnCurve {
        1
    } else {
        2
    }
}

/// Where packing points stands: the index of the next point, the byte of operations being
/// filled, and the coordinate and operation lists.
pub struct OperationTrace {
    pub point_index: int,
    pub pending: u8,
    pub coordinates: Seq<(i16, i16)>,
    pub operations: Seq<u8>,
}

/// Packs one point: its coordinates are appended and its operation is or-ed into the pending
/// byte at the point's slot; when the point fills the last slot of a byte, the point's own
/// operation is appended to the operation list, and the pending byte is kept as it is.
pub open spec fn operation_step(t: OperationTrace, p: Point) -> OperationTrace {
    let op = point_operation(p);
    let shift = ((t.point_index % 4) * 2) as u8;
    let next = t.point_index + 1;
    OperationTrace {
        point_index: next,
        pending: t.pending | (op << shift),
        coordinates: t.coordinates.push((p.position.x, p.position.y)),
        operations: if next % 4 == 0 {
            t.operations.push(op)
        } else {
            t.operations
        },
    }
}

/// Packs the points in order (see `operation_step`).
pub open spec fn operation_run(t: OperationTrace, pts: Seq<Point>) -> OperationTrace
    decreases pts.len(),
{
    if pts.len() == 0 {
        t
    } else {
        operation_step(operation_run(t, pts.drop_last()), pts.last())
    }
}

/// Where packing starts for buffers holding `coordinates` and `operations`: at point index
/// half the number of coordinates, taking back the last operation byte when that index is not
/// a multiple of four.
pub open spec fn operation_start(coordinates: Seq<(i16, i16)>, operations: Seq<u8>) -> OperationTrace {
    let point_index: int = coordinates.len() as int / 2;
    if point_index % 4 == 0 {
        OperationTrace { point_index, pending: 0, coordinates, operations }
    } else {
        OperationTrace {
            point_index,
            pending: operations.last(),
            coordinates,
            operations: operations.drop_last(),
        }
    }
}

impl GlyphBuffers {
    /// Creates empty buffers.
    pub fn new() -> (r: GlyphBuffers)
        ensures
            r.coordinates@ == Seq::<(i16, i16)>::empty(),
            r.operations@ == Seq::<u8>::empty(),
            r.descriptors@ == Seq::<GlyphDescriptor>::empty(),
    {
        GlyphBuffers { coordinates: Vec::new(), operations: Vec::new(), descriptors: Vec::new() }
    }

    /// Appends the points of glyph `glyph_id`: their coordinates, and their operations (see
    /// `operation_step`); a pending byte of operations is appended at the end. When decoding
    /// the glyph fails midway, the points decoded before the error are packed and the pending
    /// byte is not appended. Glyph IDs past 65535 name no glyph and fail at once.
    pub fn add_glyph(
        &mut self,
        glyph_id: u32,
        head_table: &HeadTable,
        loca_table: &LocaTable,
        glyf_table: &GlyfTable,
    ) -> (r: Result<(), ()>)
        requires
            (old(self).coordinates@.len() / 2) % 4 != 0 ==> old(self).operations@.len() > 0,
        ensures
            final(self).descriptors@ == old(self).descriptors@,
            glyph_id > 0xffff ==> r is Err && final(self).coordinates@ == old(self).coordinates@
                && final(self).operations@ == old(self).operations@,
            glyph_id <= 0xffff ==> ({
                let (pts, st) = glyph_points_partial(
                    glyf_table.table.bytes@,
                    loca_table.table.bytes@,
                    head_table.index_to_loc_format,
                    glyph_id as u16,
                );
                let t = operation_run(
                    operation_start(old(self).coordinates@, old(self).operations@),
                    pts,
                );
                &&& final(self).coordinates@ == t.coordinates
                &&& st is Err ==> r is Err && final(self).operations@ == t.operations
                &&& st is Ok ==> r is Ok && final(self).operations@ == if t.point_index % 4 != 0 {
                    t.operations.push(t.pending)
                } else {
                    t.operations
                }
            }),
    {
        if glyph_id > 0xffff {
            return Err(());
        }
        let ghost t0 = operation_start(self.coordinates@, self.operations@);
        let mut point_index: usize = self.coordinates.len() / 2;
        let mut operations: u8 = if point_index % 4 == 0 {
            0
        } else {
            match self.operations.pop() {
                Some(last) => last,
                None => 0,
            }
        };
        let mut points = Vec::new();
        let status = glyf_table.push_points(head_table, loca_table, glyph_id as u16, &mut points);
        assert(points@ =~= glyph_points_partial(
            glyf_table.table.bytes@,
            loca_table.table.bytes@,
            head_table.index_to_loc_format,
            glyph_id as u16,
        ).0);
        let mut i: usize = 0;
        assert(points@.take(0) =~= Seq::<Point>::empty());
        while i < points.len()
            invariant
                i <= points@.len(),
                operation_run(t0, points@.take(i as int)) == (OperationTrace {
                    point_index: point_index as int,
                    pending: operations,
                    coordinates: self.coordinates@,
                    operations: self.operations@,
                }),
                t0.point_index + i == point_index,
                self.coordinates@.len() == t0.coordinates.len() + i,
                t0.point_index <= t0.coordinates.len(),
                self.descriptors@ == old(self).descriptors@,
            decreases points@.len() - i,
        {
            assert(points@.take(i + 1).drop_last() =~= points@.take(i as int));
            let point = points[i];
            self.coordinates.push((point.position.x, point.position.y));
            let operation: u8 = if point.index_in_contour == 0 {
                0
            } else if point.kind == PointKind::OnCurve {
                1
            } else {
                2
            };
            let pushed = self.coordinates.len();
            assert(point_index < pushed);
            let shift: u8 = ((point_index % 4) * 2) as u8;
            operations = operations | (operation << shift);
            point_index = point_index + 1;
            if point_index % 4 == 0 {
                self.operations.push(operation);
            }
            i = i + 1;
        }
        assert(points@.take(points@.len() as int) =~= points@);
        if status.is_err() {
            return Err(());
        }
        if point_index % 4 != 0 {
            self.operations.push(operations);
        }
        Ok(())
    }
}

} // verus!
