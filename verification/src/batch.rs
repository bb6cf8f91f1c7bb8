//! Batches of glyphs from a glyph buffer, placed in an atlas and drawn together.
//!
//! This module places the glyph images and works out which runs of the glyph buffer's indices
//! to draw; the pixel sizes of the glyphs at a point size are computed by the caller.

use vstd::prelude::*;

use crate::geometry::{Point2D, Size2D};
use crate::glyph_buffer::{GlyphBufferBuilder, GlyphDescriptor};
use crate::rect_packer::{pack_post, RectPacker};
use crate::runs::{join_index_spans, join_spans, runs_listed, span_view, spans_forward};

verus! {

/// Collects the glyphs of a batch: where each was placed in the atlas, and which glyphs of the
/// glyph buffer are to be drawn.
pub struct BatchBuilder {
    pub atlas: RectPacker,
    pub glyph_indices: Vec<u32>,
}

/// The runs of indices to draw for a batch.
pub struct Batch {
    /// The first index of each run.
    pub start_indices: Vec<usize>,
    /// The number of indices in each run.
    pub counts: Vec<usize>,
}

/// The order in which the glyphs of a batch are drawn.
pub open spec fn index_leq(a: u32, b: u32) -> bool {
    a <= b
}

/// The span of indices of glyph `g` in a glyph buffer whose descriptors are `descs` and whose
/// index list holds `index_count` indices: from the glyph's first index up to the next glyph's
/// first index, or to the end of the list for the last glyph.
pub open spec fn glyph_span(descs: Seq<GlyphDescriptor>, index_count: int, g: u32) -> (int, int) {
    (
        descs[g as int].start_index as int,
        if g + 1 < descs.len() {
            descs[g + 1].start_index as int
        } else {
            index_count
        },
    )
}

/// The spans of the glyphs `gs`, in order.
pub open spec fn glyph_spans(descs: Seq<GlyphDescriptor>, index_count: int, gs: Seq<u32>) -> Seq<
    (int, int),
> {
    gs.map_values(|g: u32| glyph_span(descs, index_count, g))
}

/// True when each glyph of `gs` has a descriptor and a span that runs forwards.
pub open spec fn glyphs_drawable(descs: Seq<GlyphDescriptor>, index_count: int, gs: Seq<u32>) -> bool {
    forall|i: int|
        0 <= i < gs.len() ==> (#[trigger] gs[i]) < descs.len() && glyph_span(descs, index_count, gs[i]).0
            <= glyph_span(descs, index_count, gs[i]).1
}

/// Sorts glyph indices in increasing order.
fn sort_glyph_indices(v: &Vec<u32>) -> (r: Vec<u32>)
    ensures
        r@ == v@.sort_by(|a: u32, b: u32| index_leq(a, b)),
{
    broadcast use vstd::seq_lib::group_to_multiset_ensures;

    let mut out: Vec<u32> = Vec::new();
    let mut k: usize = 0;
    while k < v.len()
        invariant
            k <= v@.len(),
            out@.to_multiset() == v@.take(k as int).to_multiset(),
            forall|a: int, b: int| 0 <= a < b < out@.len() ==> out@[a] <= out@[b],
        decreases v@.len() - k,
    {
        let x = v[k];
        // Insert after the elements no greater than `x`.
        let mut p: usize = 0;
        while p < out.len() && out[p] <= x
            invariant
                p <= out@.len(),
                forall|q: int| 0 <= q < p ==> out@[q] <= x,
            decreases out@.len() - p,
        {
            p = p + 1;
        }
        let ghost before = out@;
        out.insert(p, x);
        proof {
            assert(v@.take(k as int + 1) =~= v@.take(k as int).push(x));
            vstd::seq_lib::to_multiset_build(v@.take(k as int), x);
            vstd::seq_lib::to_multiset_insert(before, p as int, x);
            assert(out@ == before.insert(p as int, x));
            assert forall|a: int, b: int| 0 <= a < b < out@.len() implies out@[a] <= out@[b] by {
                if b < p {
                } else if b == p {
                    assert(out@[a] == before[a]);
                } else if a < p {
                    assert(out@[b] == before[b - 1]);
                    if p < before.len() {
                        assert(before[p as int] > x);
                    }
                } else if a == p {
                    assert(out@[b] == before[b - 1]);
                    assert(before[p as int] > x);
                } else {
                    assert(out@[a] == before[a - 1]);
                    assert(out@[b] == before[b - 1]);
                }
            }
        }
        k = k + 1;
    }
    proof {
        let leq = |a: u32, b: u32| index_leq(a, b);
        assert(v@.take(v@.len() as int) =~= v@);
        assert(vstd::relations::total_ordering(leq));
        assert(vstd::relations::sorted_by(out@, leq));
        v@.lemma_sort_by_ensures(leq);
        vstd::seq_lib::lemma_sorted_unique(out@, v@.sort_by(leq), leq);
    }
    out
}

/// The glyphs that a finished batch draws, and so its runs, depend only on which glyphs were
/// added (with repeats), not on the order in which they were added.
pub proof fn lemma_batch_order_independent(a: Seq<u32>, b: Seq<u32>)
    requires
        a.to_multiset() == b.to_multiset(),
    ensures
        a.sort_by(|x: u32, y: u32| index_leq(x, y)) == b.sort_by(|x: u32, y: u32| index_leq(x, y)),
{
    let leq = |x: u32, y: u32| index_leq(x, y);
    assert(vstd::relations::total_ordering(leq));
    a.lemma_sort_by_ensures(leq);
    b.lemma_sort_by_ensures(leq);
    vstd::seq_lib::lemma_sorted_unique(a.sort_by(leq), b.sort_by(leq), leq);
}

impl BatchBuilder {
    /// Starts a batch whose atlas is `available_width` pixels wide with shelves `shelf_height`
    /// pixels tall.
    pub fn new(available_width: u32, shelf_height: u32) -> (r: BatchBuilder)
        ensures
            r.atlas.wf(),
            r.atlas.width_spec() == available_width,
            r.atlas.shelf_height_spec() == shelf_height,
            r.atlas.shelf_count_spec() == 0,
            r.atlas.placed() == Seq::<crate::geometry::Rect>::empty(),
            r.glyph_indices@ == Seq::<u32>::empty(),
    {
        BatchBuilder { atlas: RectPacker::new(available_width, shelf_height), glyph_indices: Vec::new() }
    }

    /// Places the glyph with index `glyph_index` in the glyph buffer, `pixel_size` pixels large,
    /// into the atlas and adds it to the batch. Returns where it was placed, or an error if
    /// there is no space left for it.
    pub fn add_glyph(&mut self, pixel_size: &Size2D, glyph_index: u32) -> (r: Result<Point2D, ()>)
        requires
            old(self).atlas.wf(),
        ensures
            pack_post(old(self).atlas, *pixel_size, final(self).atlas, r),
            r is Ok ==> final(self).glyph_indices@ == old(self).glyph_indices@.push(glyph_index),
            r is Err ==> final(self).glyph_indices@ == old(self).glyph_indices@,
    {
        let origin = self.atlas.pack(pixel_size)?;
        self.glyph_indices.push(glyph_index);
        Ok(origin)
    }

    /// Finishes the batch: sorts its glyphs, then joins the spans of indices of the glyphs (in
    /// that order) that follow on from each other into runs.
    pub fn finish(&mut self, glyph_buffer_builder: &GlyphBufferBuilder) -> (r: Batch)
        requires
            glyphs_drawable(
                glyph_buffer_builder.descriptors@,
                glyph_buffer_builder.indices@.len() as int,
                old(self).glyph_indices@,
            ),
        ensures
            final(self).atlas == old(self).atlas,
            final(self).glyph_indices@ == old(self).glyph_indices@.sort_by(
                |a: u32, b: u32| index_leq(a, b),
            ),
            runs_listed(
                join_spans(
                    glyph_spans(
                        glyph_buffer_builder.descriptors@,
                        glyph_buffer_builder.indices@.len() as int,
                        final(self).glyph_indices@,
                    ),
                ),
                r.start_indices@,
                r.counts@,
            ),
    {
        let sorted = sort_glyph_indices(&self.glyph_indices);
        self.glyph_indices = sorted;
        let ghost descs = glyph_buffer_builder.descriptors@;
        let ghost count = glyph_buffer_builder.indices@.len() as int;
        let ghost gs = self.glyph_indices@;
        proof {
            let leq = |a: u32, b: u32| index_leq(a, b);
            old(self).glyph_indices@.lemma_sort_by_ensures(leq);
            assert forall|i: int| 0 <= i < gs.len() implies (#[trigger] gs[i]) < descs.len()
                && glyph_span(descs, count, gs[i]).0 <= glyph_span(descs, count, gs[i]).1 by {
                assert(gs.contains(gs[i]));
                assert(old(self).glyph_indices@.contains(gs[i]));
                let j = choose|j: int|
                    0 <= j < old(self).glyph_indices@.len() && old(self).glyph_indices@[j] == gs[i];
                assert(old(self).glyph_indices@[j] == gs[i]);
            }
        }
        let mut spans: Vec<(usize, usize)> = Vec::new();
        let mut i: usize = 0;
        while i < self.glyph_indices.len()
            invariant
                gs == self.glyph_indices@,
                descs == glyph_buffer_builder.descriptors@,
                count == glyph_buffer_builder.indices@.len(),
                glyphs_drawable(descs, count, gs),
                i <= gs.len(),
                spans@.len() == i,
                span_view(spans@) == glyph_spans(descs, count, gs).take(i as int),
            decreases gs.len() - i,
        {
            let g = self.glyph_indices[i];
            assert(gs[i as int] == g);
            assert((g as usize) < glyph_buffer_builder.descriptors.len());
            let first_index = glyph_buffer_builder.descriptors[g as usize].start_index as usize;
            let last_index = if (g as usize) + 1 < glyph_buffer_builder.descriptors.len() {
                glyph_buffer_builder.descriptors[g as usize + 1].start_index as usize
            } else {
                glyph_buffer_builder.indices.len()
            };
            let ghost before = spans@;
            spans.push((first_index, last_index));
            proof {
                assert(spans@ == before.push((first_index, last_index)));
                assert forall|k: int| 0 <= k < i + 1 implies #[trigger] span_view(spans@)[k]
                    == glyph_spans(descs, count, gs)[k] by {
                    if k < i {
                        assert(span_view(spans@)[k] == span_view(before)[k]);
                        assert(span_view(before)[k] == glyph_spans(descs, count, gs).take(
                            i as int,
                        )[k]);
                    } else {
                        assert(span_view(spans@)[k] == (first_index as int, last_index as int));
                    }
                }
                assert(span_view(spans@) =~= glyph_spans(descs, count, gs).take(i as int + 1));
            }
            i = i + 1;
        }
        proof {
            assert(glyph_spans(descs, count, gs).take(gs.len() as int) =~= glyph_spans(
                descs,
                count,
                gs,
            ));
            assert forall|k: int| 0 <= k < gs.len() implies (#[trigger] glyph_spans(
                descs,
                count,
                gs,
            )[k]).0 <= glyph_spans(descs, count, gs)[k].1 by {
                assert(glyph_spans(descs, count, gs)[k] == glyph_span(descs, count, gs[k]));
            }
            assert(spans_forward(span_view(spans@)));
        }
        let (start_indices, counts) = join_index_spans(&spans);
        Batch { start_indices: start_indices, counts: counts }
    }
}

} // verus!
