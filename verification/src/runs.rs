//! Runs of outline indices to draw.
//!
//! Each glyph's outline takes a span of the index list, from its first index up to (not
//! including) its end. Drawing glyphs one span at a time would take a draw call each; spans that
//! follow on from one another are joined into a single run instead.

use vstd::prelude::*;

verus! {

/// The runs that the spans `spans` make, taken in order, as (first, end) pairs: a span that
/// starts where the current run ends extends it, and any other span starts a new run.
pub open spec fn join_spans(spans: Seq<(int, int)>) -> Seq<(int, int)>
    decreases spans.len(),
{
    if spans.len() == 0 {
        Seq::empty()
    } else {
        let prev = join_spans(spans.drop_last());
        let s = spans.last();
        if prev.len() > 0 && s.0 == prev.last().1 {
            prev.update(prev.len() - 1, (prev.last().0, s.1))
        } else {
            prev.push(s)
        }
    }
}

/// True when every span runs forwards.
pub open spec fn spans_forward(spans: Seq<(int, int)>) -> bool {
    forall|i: int| 0 <= i < spans.len() ==> (#[trigger] spans[i]).0 <= spans[i].1
}

/// The number of indices that the spans cover, span by span.
pub open spec fn span_total(spans: Seq<(int, int)>) -> int
    decreases spans.len(),
{
    if spans.len() == 0 {
        0
    } else {
        span_total(spans.drop_last()) + (spans.last().1 - spans.last().0)
    }
}

/// Spans of machine integers as spans of integers.
pub open spec fn span_view(spans: Seq<(usize, usize)>) -> Seq<(int, int)> {
    spans.map_values(|s: (usize, usize)| (s.0 as int, s.1 as int))
}

/// All runs but the last, which is still open.
pub open spec fn closed_runs(rs: Seq<(int, int)>) -> Seq<(int, int)> {
    if rs.len() == 0 {
        rs
    } else {
        rs.drop_last()
    }
}

/// True when the first indices and the counts of the runs `rs` are `starts` and `counts`.
pub open spec fn runs_listed(rs: Seq<(int, int)>, starts: Seq<usize>, counts: Seq<usize>) -> bool {
    &&& starts.len() == rs.len()
    &&& counts.len() == rs.len()
    &&& forall|k: int|
        0 <= k < rs.len() ==> #[trigger] starts[k] == rs[k].0 && counts[k] == rs[k].1 - rs[k].0
}

/// Joins the spans `spans`, in order, into runs: returns the first index and the number of
/// indices of each run.
pub fn join_index_spans(spans: &Vec<(usize, usize)>) -> (r: (Vec<usize>, Vec<usize>))
    requires
        spans_forward(span_view(spans@)),
    ensures
        runs_listed(join_spans(span_view(spans@)), r.0@, r.1@),
{
    let ghost sp = span_view(spans@);
    let mut counts: Vec<usize> = Vec::new();
    let mut start_indices: Vec<usize> = Vec::new();
    let mut current_range: Option<(usize, usize)> = None;
    let mut i: usize = 0;
    while i < spans.len()
        invariant
            sp == span_view(spans@),
            i <= spans@.len(),
            spans_forward(sp),
            spans_forward(join_spans(sp.take(i as int))),
            current_range is None <==> join_spans(sp.take(i as int)).len() == 0,
            current_range matches Some(cur) ==> (cur.0 as int, cur.1 as int) == join_spans(
                sp.take(i as int),
            ).last(),
            runs_listed(closed_runs(join_spans(sp.take(i as int))), start_indices@, counts@),
        decreases spans@.len() - i,
    {
        let (first_index, last_index) = spans[i];
        let ghost prev = join_spans(sp.take(i as int));
        proof {
            assert(sp.take(i as int + 1).drop_last() =~= sp.take(i as int));
            assert(sp.take(i as int + 1).last() == sp[i as int]);
            assert(sp[i as int] == (first_index as int, last_index as int));
        }
        match current_range {
            Some((current_first, current_last)) => {
                if first_index == current_last {
                    current_range = Some((current_first, last_index));
                    proof {
                        let next = join_spans(sp.take(i as int + 1));
                        assert(closed_runs(next) =~= closed_runs(prev));
                    }
                } else {
                    counts.push(current_last - current_first);
                    start_indices.push(current_first);
                    current_range = Some((first_index, last_index));
                    proof {
                        let next = join_spans(sp.take(i as int + 1));
                        assert(closed_runs(next) =~= closed_runs(prev).push(prev.last()));
                    }
                }
            },
            None => {
                current_range = Some((first_index, last_index));
                proof {
                    let next = join_spans(sp.take(i as int + 1));
                    assert(closed_runs(next) =~= Seq::<(int, int)>::empty());
                }
            },
        }
        i = i + 1;
    }
    proof {
        assert(sp.take(spans@.len() as int) =~= sp);
    }
    let ghost runs = join_spans(sp);
    if let Some((current_first, current_last)) = current_range {
        counts.push(current_last - current_first);
        start_indices.push(current_first);
        proof {
            assert(runs =~= closed_runs(runs).push(runs.last()));
        }
    }
    (start_indices, counts)
}

/// Joining spans into runs keeps every index: when each span runs forwards, so does each run,
/// and the runs cover as many indices as the spans do.
pub proof fn lemma_join_spans_total(spans: Seq<(int, int)>)
    requires
        spans_forward(spans),
    ensures
        spans_forward(join_spans(spans)),
        span_total(join_spans(spans)) == span_total(spans),
    decreases spans.len(),
{
    if spans.len() > 0 {
        let prev = join_spans(spans.drop_last());
        let s = spans.last();
        assert(spans_forward(spans.drop_last())) by {
            assert forall|i: int| 0 <= i < spans.drop_last().len() implies (
            #[trigger] spans.drop_last()[i]).0 <= spans.drop_last()[i].1 by {
                assert(spans.drop_last()[i] == spans[i]);
            }
        }
        lemma_join_spans_total(spans.drop_last());
        assert(s.0 <= s.1) by {
            assert(spans[spans.len() - 1] == s);
        }
        if prev.len() > 0 && s.0 == prev.last().1 {
            let next = prev.update(prev.len() - 1, (prev.last().0, s.1));
            assert(next.drop_last() =~= prev.drop_last());
        } else {
            assert(prev.push(s).drop_last() =~= prev);
        }
    }
}

/// Runs that follow one another never touch: each run ends somewhere other than where the next
/// one starts (else they would have been joined).
pub proof fn lemma_join_spans_separated(spans: Seq<(int, int)>)
    ensures
        forall|i: int|
            0 <= i < join_spans(spans).len() - 1 ==> (#[trigger] join_spans(spans)[i]).1
                != join_spans(spans)[i + 1].0,
    decreases spans.len(),
{
    if spans.len() > 0 {
        lemma_join_spans_separated(spans.drop_last());
        let prev = join_spans(spans.drop_last());
        let s = spans.last();
        let next = join_spans(spans);
        assert forall|i: int| 0 <= i < next.len() - 1 implies (#[trigger] next[i]).1 != next[i
            + 1].0 by {
            if i + 1 < prev.len() {
                assert(next[i] == prev[i]);
                if prev.len() > 0 && s.0 == prev.last().1 {
                    assert(next[i + 1].0 == prev[i + 1].0);
                } else {
                    assert(next[i + 1] == prev[i + 1]);
                }
            } else {
                assert(next[i] == prev[i]);
            }
        }
    }
}

} // verus!
