//! A shelf-based rectangle packer, used to place glyph images in an atlas.
//!
//! The atlas is a column of "shelves" of uniform height. Free space is kept as a list of
//! rectangles; a request takes the smallest free rectangle that fits (opening a new shelf when
//! none does) and cuts the rest of it into a rectangle below and a rectangle to the right.

use vstd::prelude::*;

use crate::geometry::{
    area, contained_in, intersects, is_empty, lemma_contained_no_intersect, max_x, max_y, Point2D, Rect,
    Size2D,
};

verus! {

/// True when the vertical extent of `r` lies within shelf number `s`.
pub open spec fn in_shelf(r: Rect, shelf_height: int, s: int) -> bool {
    s * shelf_height <= r.origin.y && max_y(r) <= s * shelf_height + shelf_height
}

/// True when `r` lies within one of the first `count` shelves.
pub open spec fn in_some_shelf(r: Rect, shelf_height: int, count: int) -> bool {
    exists|s: int| 0 <= s < count && #[trigger] in_shelf(r, shelf_height, s)
}

/// True when `r` lies within one of the first `count` shelves of an atlas `width` wide.
pub open spec fn within_shelves(r: Rect, width: int, shelf_height: int, count: int) -> bool {
    &&& max_x(r) <= width
    &&& max_y(r) <= count * shelf_height
    &&& exists|s: int| 0 <= s < count && #[trigger] in_shelf(r, shelf_height, s)
}

/// The object rectangle inside an allocated cell, which keeps a one-pixel border on each side.
pub open spec fn inner(cell: Rect) -> Rect {
    Rect {
        origin: Point2D { x: (cell.origin.x + 1) as u32, y: (cell.origin.y + 1) as u32 },
        size: Size2D { width: (cell.size.width - 2) as u32, height: (cell.size.height - 2) as u32 },
    }
}

/// The consistency of a packer's free list and allocated cells: every rectangle stays within
/// the shelves opened so far and within one shelf, free rectangles are non-empty, cells keep
/// room for their border, and no two of them overlap.
pub open spec fn packing_ok(
    free: Seq<Rect>,
    cells: Seq<Rect>,
    width: int,
    shelf_height: int,
    count: int,
) -> bool {
    &&& forall|i: int|
        0 <= i < free.len() ==> !is_empty(#[trigger] free[i]) && within_shelves(
            free[i],
            width,
            shelf_height,
            count,
        )
    &&& forall|i: int|
        0 <= i < cells.len() ==> (#[trigger] cells[i]).size.width >= 2 && cells[i].size.height
            >= 2 && within_shelves(cells[i], width, shelf_height, count)
    &&& forall|i: int, j: int|
        0 <= i < free.len() && 0 <= j < free.len() && i != j ==> !intersects(
            #[trigger] free[i],
            #[trigger] free[j],
        )
    &&& forall|i: int, j: int|
        0 <= i < cells.len() && 0 <= j < cells.len() && i != j ==> !intersects(
            #[trigger] cells[i],
            #[trigger] cells[j],
        )
    &&& forall|i: int, j: int|
        0 <= i < free.len() && 0 <= j < cells.len() ==> !intersects(
            #[trigger] free[i],
            #[trigger] cells[j],
        )
}

/// True when rectangle `r` fits an allocation of `w` by `h`.
pub open spec fn fits_alloc(r: Rect, w: int, h: int) -> bool {
    w <= r.size.width && h <= r.size.height
}

/// True when `free[i]` is the rectangle that a request of `w` by `h` takes: one of least area
/// among those that fit, and the first such.
pub open spec fn is_best_fit(free: Seq<Rect>, i: int, w: int, h: int) -> bool {
    &&& 0 <= i < free.len()
    &&& fits_alloc(free[i], w, h)
    &&& forall|j: int|
        0 <= j < free.len() && fits_alloc(#[trigger] free[j], w, h) ==> area(free[i]) <= area(
            free[j],
        )
    &&& forall|j: int|
        0 <= j < i && fits_alloc(#[trigger] free[j], w, h) ==> area(free[i]) < area(free[j])
}

/// True when some free rectangle fits a request of `w` by `h`.
pub open spec fn some_fit(free: Seq<Rect>, w: int, h: int) -> bool {
    exists|j: int| 0 <= j < free.len() && #[trigger] fits_alloc(free[j], w, h)
}

/// The free rectangles left when a cell of `w` by `h` is cut from the top-left of `c`: the part
/// below the cell (as wide as the cell) and the part to its right (as tall as `c`), each kept
/// only when non-empty.
pub open spec fn guillotine(c: Rect, w: int, h: int) -> Seq<Rect> {
    let below = Rect {
        origin: Point2D { x: c.origin.x, y: (c.origin.y + h) as u32 },
        size: Size2D { width: w as u32, height: (c.size.height - h) as u32 },
    };
    let right = Rect {
        origin: Point2D { x: (c.origin.x + w) as u32, y: c.origin.y },
        size: Size2D { width: (c.size.width - w) as u32, height: c.size.height },
    };
    let s1 = if is_empty(below) {
        Seq::<Rect>::empty()
    } else {
        seq![below]
    };
    if is_empty(right) {
        s1
    } else {
        s1.push(right)
    }
}

/// `s` without its element `i`, the last element taking its place.
pub open spec fn swap_removed(s: Seq<Rect>, i: int) -> Seq<Rect> {
    s.update(i, s.last()).drop_last()
}

/// Whether one more shelf fits below the open ones within `u32` coordinates.
pub open spec fn shelf_fits(p: RectPacker) -> bool {
    (p.shelf_count_spec() + 1) * p.shelf_height_spec() <= u32::MAX
}

/// What packing a rectangle of `size` into the packer `old` does, giving the packer `new` and
/// the result `r` (see `RectPacker::pack`).
pub open spec fn pack_post(old: RectPacker, size: Size2D, new: RectPacker, r: Result<Point2D, ()>) -> bool {
    &&& new.wf()
    &&& new.width_spec() == old.width_spec()
    &&& new.shelf_height_spec() == old.shelf_height_spec()
    &&& (size.height + 2 > old.shelf_height_spec() || size.width + 2 > old.width_spec()) ==> r is Err
        && new == old
    &&& (size.height + 2 <= old.shelf_height_spec() && size.width + 2 <= old.width_spec()
        && !some_fit(old.free_rects(), size.width + 2, size.height + 2) && !shelf_fits(old)) ==> r is Err
        && new == old
    &&& (size.height + 2 <= old.shelf_height_spec() && size.width + 2 <= old.width_spec() && (some_fit(
        old.free_rects(),
        size.width + 2,
        size.height + 2,
    ) || shelf_fits(old))) ==> (
    r matches Ok(p) && {
            let w = size.width + 2;
            let h = size.height + 2;
            let free = old.free_rects();
            let cell = Rect { origin: Point2D { x: (p.x - 1) as u32, y: (p.y - 1) as u32 }, size: Size2D { width: w as u32, height: h as u32 } };
            &&& 1 <= p.x && 1 <= p.y
            &&& new.cells() == old.cells().push(cell)
            &&& new.placed() == old.placed().push(
                Rect { origin: p, size: size },
            )
            &&& some_fit(free, w, h) ==> exists|i: int|
                #[trigger] is_best_fit(free, i, w, h) && p.x == free[i].origin.x + 1 && p.y
                    == free[i].origin.y + 1 && new.free_rects() == swap_removed(free, i)
                    + guillotine(free[i], w, h)
                    && new.shelf_count_spec() == old.shelf_count_spec()
            &&& !some_fit(free, w, h) ==> {
                let shelf = Rect {
                    origin: Point2D {
                        x: 0,
                        y: (old.shelf_count_spec() * old.shelf_height_spec()) as u32,
                    },
                    size: Size2D {
                        width: old.width_spec(),
                        height: old.shelf_height_spec(),
                    },
                };
                &&& p.x == 1
                &&& p.y == shelf.origin.y + 1
                &&& new.free_rects() == free + guillotine(shelf, w, h)
                &&& new.shelf_count_spec() == old.shelf_count_spec() + 1
            }
        })
}

pub struct RectPacker {
    free_rects: Vec<Rect>,
    available_width: u32,
    shelf_height: u32,
    shelf_count: u32,
    /// The amount of horizontal space allocated in the last shelf.
    width_of_last_shelf: u32,
    /// Every cell handed out so far, border included, in order.
    cells: Ghost<Seq<Rect>>,
}

impl RectPacker {
    /// The free rectangles, in list order.
    pub closed spec fn free_rects(&self) -> Seq<Rect> {
        self.free_rects@
    }

    /// The number of shelves opened so far.
    pub closed spec fn shelf_count_spec(&self) -> u32 {
        self.shelf_count
    }

    /// The width allocated so far on the last shelf.
    pub closed spec fn last_shelf_width(&self) -> u32 {
        self.width_of_last_shelf
    }

    /// The width of the atlas.
    pub closed spec fn width_spec(&self) -> u32 {
        self.available_width
    }

    /// The height of each shelf.
    pub closed spec fn shelf_height_spec(&self) -> u32 {
        self.shelf_height
    }

    /// The cells handed out so far, each with its one-pixel border, in order.
    pub closed spec fn cells(&self) -> Seq<Rect> {
        self.cells@
    }

    /// The rectangles of the objects placed so far: each at the position `pack` returned, with
    /// the size it was asked for.
    pub open spec fn placed(&self) -> Seq<Rect> {
        self.cells().map_values(|c: Rect| inner(c))
    }

    /// The packer's invariant.
    pub closed spec fn wf(&self) -> bool {
        &&& packing_ok(
            self.free_rects@,
            self.cells@,
            self.available_width as int,
            self.shelf_height as int,
            self.shelf_count as int,
        )
        &&& self.width_of_last_shelf <= self.available_width
        &&& self.shelf_count * self.shelf_height <= u32::MAX
    }

    /// Creates an empty packer for an atlas `available_width` wide with shelves
    /// `shelf_height` tall.
    pub fn new(available_width: u32, shelf_height: u32) -> (r: RectPacker)
        ensures
            r.wf(),
            r.width_spec() == available_width,
            r.shelf_height_spec() == shelf_height,
            r.shelf_count_spec() == 0,
            r.last_shelf_width() == 0,
            r.free_rects() == Seq::<Rect>::empty(),
            r.placed() == Seq::<Rect>::empty(),
    {
        let r = RectPacker {
            free_rects: Vec::new(),
            available_width: available_width,
            shelf_height: shelf_height,
            shelf_count: 0,
            width_of_last_shelf: 0,
            cells: Ghost(Seq::empty()),
        };
        assert(r.placed() =~= Seq::<Rect>::empty());
        r
    }

    /// Packs a rectangle of the given size.
    ///
    /// Returns the top-left position of the rectangle or an error if there is no space left.
    /// A one-pixel border is kept around every rectangle, so the cell taken is two pixels
    /// wider and taller than `size`; the request fails, leaving the packer as it was, when that
    /// is taller than a shelf or wider than the atlas, or when no free rectangle holds it and a
    /// new shelf would end past the last `u32` coordinate.
    pub fn pack(&mut self, size: &Size2D) -> (r: Result<Point2D, ()>)
        requires
            old(self).wf(),
        ensures
            pack_post(*old(self), *size, *final(self), r),
    {
        if size.height as u64 + 2 > self.shelf_height as u64 || size.width as u64 + 2
            > self.available_width as u64 {
            return Err(());
        }
        let aw: u32 = size.width + 2;
        let ah: u32 = size.height + 2;
        let ghost old_free = self.free_rects@;
        let ghost width = self.available_width as int;
        let ghost sh = self.shelf_height as int;

        // Find the smallest free rectangle that fits; the first one on ties.
        let mut best: Option<usize> = None;
        let mut best_area: u64 = 0;
        let mut i: usize = 0;
        while i < self.free_rects.len()
            invariant
                self.wf(),
                self.free_rects@ == old_free,
                width == self.available_width,
                sh == self.shelf_height,
                i <= old_free.len(),
                best matches Some(b) ==> b < i && is_best_fit(old_free.take(i as int), b as int, aw as int, ah as int)
                    && best_area == area(old_free[b as int]),
                best is None ==> !some_fit(old_free.take(i as int), aw as int, ah as int),
            decreases old_free.len() - i,
        {
            let rect = self.free_rects[i];
            assert(old_free.take(i as int + 1)[i as int] == rect);
            if aw <= rect.size.width && ah <= rect.size.height {
                proof {
                    vstd::arithmetic::mul::lemma_mul_upper_bound(
                        rect.size.width as int,
                        u32::MAX as int,
                        rect.size.height as int,
                        u32::MAX as int,
                    );
                }
                let a: u64 = rect.size.width as u64 * rect.size.height as u64;
                let better = match best {
                    None => true,
                    Some(_) => a < best_area,
                };
                if better {
                    best = Some(i);
                    best_area = a;
                }
            }
            proof {
                let t = old_free.take(i as int + 1);
                assert(t.take(i as int) =~= old_free.take(i as int));
                match best {
                    Some(b) => {
                        assert forall|j: int|
                            0 <= j < t.len() && fits_alloc(#[trigger] t[j], aw as int, ah as int) implies area(t[b as int])
                            <= area(t[j]) by {
                            if j < i {
                                assert(t[j] == old_free.take(i as int)[j]);
                            }
                        }
                        assert forall|j: int|
                            0 <= j < b && fits_alloc(#[trigger] t[j], aw as int, ah as int) implies area(t[b as int])
                            < area(t[j]) by {
                            assert(t[j] == old_free.take(i as int)[j]);
                        }
                    },
                    None => {
                        assert forall|j: int|
                            0 <= j < t.len() implies !fits_alloc(#[trigger] t[j], aw as int, ah as int) by {
                            if j < i {
                                assert(t[j] == old_free.take(i as int)[j]);
                                assert(!some_fit(old_free.take(i as int), aw as int, ah as int));
                            }
                        }
                    },
                }
            }
            i = i + 1;
        }
        assert(old_free.take(old_free.len() as int) =~= old_free);

        let ghost count0 = self.shelf_count as int;
        let chosen: Rect;
        match best {
            None => {
                proof {
                    vstd::arithmetic::mul::lemma_mul_upper_bound(
                        count0 + 1,
                        u32::MAX as int + 1,
                        sh,
                        u32::MAX as int,
                    );
                }
                let next_end: u64 = (self.shelf_count as u64 + 1) * (self.shelf_height as u64);
                if next_end > u32::MAX as u64 {
                    return Err(());
                }
                assert(sh * count0 <= u32::MAX && sh * count0 == count0 * sh) by (nonlinear_arith)
                    requires
                        (count0 + 1) * sh <= u32::MAX,
                        sh >= 0,
                        count0 >= 0,
                ;
                proof {
                    vstd::arithmetic::mul::lemma_mul_is_distributive_add_other_way(sh, count0, 1);
                }
                chosen = Rect {
                    origin: Point2D { x: 0, y: self.shelf_height * self.shelf_count },
                    size: Size2D { width: self.available_width, height: self.shelf_height },
                };
                proof {
                    lemma_open_shelf(self.free_rects@, self.cells@, width, sh, count0, chosen);
                    assert(count0 + 1 <= (count0 + 1) * sh) by (nonlinear_arith)
                        requires
                            sh >= 1,
                            count0 >= 0,
                    ;
                }
                self.shelf_count = self.shelf_count + 1;
                self.width_of_last_shelf = 0;
            },
            Some(index) => {
                chosen = self.free_rects[index];
                proof {
                    lemma_take_free(self.free_rects@, self.cells@, width, sh, count0, index as int);
                }
                self.free_rects.swap_remove(index);
            },
        }
        let ghost count1 = self.shelf_count as int;
        let ghost free1 = self.free_rects@;
        let ghost cells0 = self.cells@;
        assert(within_shelves(chosen, width, sh, count1));
        assert(fits_alloc(chosen, aw as int, ah as int));
        assert(count1 * sh <= (count0 + 1) * sh) by (nonlinear_arith)
            requires
                count1 <= count0 + 1,
                sh >= 0,
        ;
        assert(count1 >= 1) by {
            let s = choose|s: int| 0 <= s < count1 && #[trigger] in_shelf(chosen, sh, s);
        }
        assert(sh * (count1 - 1) <= sh * count1) by (nonlinear_arith)
            requires
                count1 >= 1,
                sh >= 0,
        ;
        assert(sh * count1 == count1 * sh) by (nonlinear_arith);

        // The allocated cell.
        let cell = Rect { origin: chosen.origin, size: Size2D { width: aw, height: ah } };
        proof {
            lemma_push_cell(free1, cells0, width, sh, count1, chosen, cell);
            self.cells@ = cells0.push(cell);
        }

        // Guillotine to bottom.
        let free_below = Rect {
            origin: Point2D { x: chosen.origin.x, y: chosen.origin.y + ah },
            size: Size2D { width: aw, height: chosen.size.height - ah },
        };
        if !(free_below.size.width == 0 || free_below.size.height == 0) {
            proof {
                lemma_push_free(self.free_rects@, self.cells@, width, sh, count1, chosen, free_below);
            }
            self.free_rects.push(free_below);
        }
        let ghost free2 = self.free_rects@;

        // Guillotine to right.
        let free_to_right = Rect {
            origin: Point2D { x: chosen.origin.x + aw, y: chosen.origin.y },
            size: Size2D { width: chosen.size.width - aw, height: chosen.size.height },
        };
        if !(free_to_right.size.width == 0 || free_to_right.size.height == 0) {
            proof {
                assert forall|k: int| 0 <= k < self.free_rects@.len() implies !intersects(#[trigger] self.free_rects@[k], free_to_right) by {
                    if k >= free1.len() {
                        assert(self.free_rects@[k] == free_below);
                    } else {
                        assert(self.free_rects@[k] == free1[k]);
                        assert(!intersects(free1[k], chosen));
                        lemma_contained_no_intersect(free_to_right, chosen, free1[k]);
                    }
                }
                lemma_push_free(self.free_rects@, self.cells@, width, sh, count1, chosen, free_to_right);
            }
            self.free_rects.push(free_to_right);
        }
        assert(self.free_rects@ =~= free1 + guillotine(chosen, aw as int, ah as int));

        // Update width of last shelf if necessary.
        let on_last_shelf = chosen.origin.y + chosen.size.height >= self.shelf_height * (self.shelf_count - 1);
        if on_last_shelf && self.width_of_last_shelf < chosen.origin.x + chosen.size.width {
            self.width_of_last_shelf = chosen.origin.x + chosen.size.width;
        }

        let object_origin = Point2D { x: chosen.origin.x + 1, y: chosen.origin.y + 1 };
        proof {
            assert(self.placed() =~= old(self).placed().push(Rect { origin: object_origin, size: *size }));
            match best {
                Some(b) => {
                    assert(is_best_fit(old_free, b as int, aw as int, ah as int));
                },
                None => {},
            }
        }
        Ok(object_origin)
    }

    /// The width of the atlas.
    pub fn available_width(&self) -> (r: u32)
        ensures
            r == self.width_spec(),
    {
        self.available_width
    }

    /// The height of each shelf.
    pub fn shelf_height(&self) -> (r: u32)
        ensures
            r == self.shelf_height_spec(),
    {
        self.shelf_height
    }

    /// The number of shelves opened so far.
    pub fn shelf_count(&self) -> (r: u32)
        ensures
            r == self.shelf_count_spec(),
    {
        self.shelf_count
    }

    /// The number of pixel columns in use, counting every full shelf as a full row of the
    /// atlas width and the last shelf as the width allocated on it so far.
    pub fn shelf_columns(&self) -> (r: u32)
        requires
            self.wf(),
            self.shelf_count_spec() * self.width_spec() <= u32::MAX,
        ensures
            self.shelf_count_spec() == 0 ==> r == self.last_shelf_width(),
            self.shelf_count_spec() > 0 ==> r == (self.shelf_count_spec() - 1) * self.width_spec()
                + self.last_shelf_width(),
    {
        if self.shelf_count == 0 {
            self.width_of_last_shelf
        } else {
            let full_shelf_count = self.shelf_count - 1;
            proof {
                let c = self.shelf_count as int;
                let w = self.available_width as int;
                assert((c - 1) * w + w == c * w) by (nonlinear_arith);
            }
            full_shelf_count * self.available_width + self.width_of_last_shelf
        }
    }
}

/// Opening a new shelf keeps the packing consistent, and the new shelf meets nothing.
proof fn lemma_open_shelf(
    free: Seq<Rect>,
    cells: Seq<Rect>,
    width: int,
    sh: int,
    count: int,
    shelf: Rect,
)
    requires
        packing_ok(free, cells, width, sh, count),
        0 <= count,
        0 <= sh,
        shelf.origin.x == 0,
        shelf.origin.y == count * sh,
        shelf.size.width == width,
        shelf.size.height == sh,
    ensures
        packing_ok(free, cells, width, sh, count + 1),
        within_shelves(shelf, width, sh, count + 1),
        forall|k: int| 0 <= k < free.len() ==> !intersects(shelf, #[trigger] free[k]),
        forall|k: int| 0 <= k < cells.len() ==> !intersects(shelf, #[trigger] cells[k]),
{
    assert(count * sh + sh == (count + 1) * sh) by (nonlinear_arith);
    assert(count * sh <= (count + 1) * sh) by (nonlinear_arith)
        requires
            0 <= sh,
    ;
    assert(in_shelf(shelf, sh, count));
    assert forall|k: int| 0 <= k < free.len() implies within_shelves(
        #[trigger] free[k],
        width,
        sh,
        count + 1,
    ) by {
        assert(within_shelves(free[k], width, sh, count));
        let s = choose|s: int| 0 <= s < count && #[trigger] in_shelf(free[k], sh, s);
        assert(in_shelf(free[k], sh, s));
    }
    assert forall|k: int| 0 <= k < cells.len() implies within_shelves(
        #[trigger] cells[k],
        width,
        sh,
        count + 1,
    ) by {
        assert(within_shelves(cells[k], width, sh, count));
        let s = choose|s: int| 0 <= s < count && #[trigger] in_shelf(cells[k], sh, s);
        assert(in_shelf(cells[k], sh, s));
    }
    assert forall|k: int| 0 <= k < free.len() implies !intersects(shelf, #[trigger] free[k]) by {
        assert(within_shelves(free[k], width, sh, count));
    }
    assert forall|k: int| 0 <= k < cells.len() implies !intersects(shelf, #[trigger] cells[k]) by {
        assert(within_shelves(cells[k], width, sh, count));
    }
}

/// Taking a free rectangle out of the list keeps the packing consistent, and the rectangle
/// taken meets nothing that remains.
proof fn lemma_take_free(
    free: Seq<Rect>,
    cells: Seq<Rect>,
    width: int,
    sh: int,
    count: int,
    i: int,
)
    requires
        packing_ok(free, cells, width, sh, count),
        0 <= i < free.len(),
    ensures
        packing_ok(swap_removed(free, i), cells, width, sh, count),
        within_shelves(free[i], width, sh, count),
        forall|k: int|
            0 <= k < swap_removed(free, i).len() ==> !intersects(
                free[i],
                #[trigger] swap_removed(free, i)[k],
            ),
        forall|k: int| 0 <= k < cells.len() ==> !intersects(free[i], #[trigger] cells[k]),
{
    let f = swap_removed(free, i);
    let n = free.len();
    assert forall|k: int| 0 <= k < f.len() implies #[trigger] f[k] == free[if k == i {
        n - 1
    } else {
        k
    }] by {}
    assert forall|k: int| 0 <= k < f.len() implies !is_empty(#[trigger] f[k]) && within_shelves(
        f[k],
        width,
        sh,
        count,
    ) by {
        let src = if k == i { n - 1 } else { k };
        assert(f[k] == free[src]);
    }
    assert forall|a: int, b: int|
        0 <= a < f.len() && 0 <= b < f.len() && a != b implies !intersects(
        #[trigger] f[a],
        #[trigger] f[b],
    ) by {
        let sa = if a == i { n - 1 } else { a };
        let sb = if b == i { n - 1 } else { b };
        assert(f[a] == free[sa]);
        assert(f[b] == free[sb]);
    }
    assert forall|a: int, b: int| 0 <= a < f.len() && 0 <= b < cells.len() implies !intersects(
        #[trigger] f[a],
        #[trigger] cells[b],
    ) by {
        let sa = if a == i { n - 1 } else { a };
        assert(f[a] == free[sa]);
    }
    assert forall|k: int| 0 <= k < f.len() implies !intersects(free[i], #[trigger] f[k]) by {
        let src = if k == i { n - 1 } else { k };
        assert(f[k] == free[src]);
        assert(src != i);
    }
}

/// Adding a cell cut from the top-left of a rectangle that meets nothing keeps the packing
/// consistent.
proof fn lemma_push_cell(
    free: Seq<Rect>,
    cells: Seq<Rect>,
    width: int,
    sh: int,
    count: int,
    c: Rect,
    cell: Rect,
)
    requires
        packing_ok(free, cells, width, sh, count),
        within_shelves(c, width, sh, count),
        forall|k: int| 0 <= k < free.len() ==> !intersects(c, #[trigger] free[k]),
        forall|k: int| 0 <= k < cells.len() ==> !intersects(c, #[trigger] cells[k]),
        cell.origin == c.origin,
        cell.size.width >= 2,
        cell.size.height >= 2,
        fits_alloc(c, cell.size.width as int, cell.size.height as int),
    ensures
        packing_ok(free, cells.push(cell), width, sh, count),
{
    let s = choose|s: int| 0 <= s < count && #[trigger] in_shelf(c, sh, s);
    assert(in_shelf(cell, sh, s));
    let cs = cells.push(cell);
    assert forall|k: int| 0 <= k < cs.len() implies (#[trigger] cs[k]).size.width >= 2
        && cs[k].size.height >= 2 && within_shelves(cs[k], width, sh, count) by {
        if k < cells.len() {
            assert(cs[k] == cells[k]);
        }
    }
    assert forall|a: int, b: int|
        0 <= a < cs.len() && 0 <= b < cs.len() && a != b implies !intersects(
        #[trigger] cs[a],
        #[trigger] cs[b],
    ) by {
        if a == cells.len() {
            lemma_contained_no_intersect(cell, c, cells[b]);
        } else if b == cells.len() {
            lemma_contained_no_intersect(cell, c, cells[a]);
        } else {
            assert(cs[a] == cells[a]);
            assert(cs[b] == cells[b]);
        }
    }
    assert forall|a: int, b: int| 0 <= a < free.len() && 0 <= b < cs.len() implies !intersects(
        #[trigger] free[a],
        #[trigger] cs[b],
    ) by {
        if b == cells.len() {
            lemma_contained_no_intersect(cell, c, free[a]);
        } else {
            assert(cs[b] == cells[b]);
        }
    }
}

/// Adding a non-empty free rectangle that lies within a rectangle `c` meeting no cell, and that
/// meets no free rectangle, keeps the packing consistent.
proof fn lemma_push_free(
    free: Seq<Rect>,
    cells: Seq<Rect>,
    width: int,
    sh: int,
    count: int,
    c: Rect,
    r: Rect,
)
    requires
        packing_ok(free, cells, width, sh, count),
        within_shelves(c, width, sh, count),
        contained_in(r, c),
        !is_empty(r),
        forall|k: int| 0 <= k < free.len() ==> !intersects(#[trigger] free[k], r),
        forall|k: int| 0 <= k < cells.len() ==> !intersects(#[trigger] cells[k], r),
    ensures
        packing_ok(free.push(r), cells, width, sh, count),
{
    let s = choose|s: int| 0 <= s < count && #[trigger] in_shelf(c, sh, s);
    assert(in_shelf(r, sh, s));
    let fs = free.push(r);
    assert forall|k: int| 0 <= k < fs.len() implies !is_empty(#[trigger] fs[k]) && within_shelves(
        fs[k],
        width,
        sh,
        count,
    ) by {
        if k < free.len() {
            assert(fs[k] == free[k]);
        }
    }
    assert forall|a: int, b: int|
        0 <= a < fs.len() && 0 <= b < fs.len() && a != b implies !intersects(
        #[trigger] fs[a],
        #[trigger] fs[b],
    ) by {
        if a < free.len() {
            assert(fs[a] == free[a]);
        }
        if b < free.len() {
            assert(fs[b] == free[b]);
        }
    }
    assert forall|a: int, b: int| 0 <= a < fs.len() && 0 <= b < cells.len() implies !intersects(
        #[trigger] fs[a],
        #[trigger] cells[b],
    ) by {
        if a < free.len() {
            assert(fs[a] == free[a]);
        }
    }
}

/// True when `r` with a one-pixel border around it lies within shelf number `s`.
pub open spec fn bordered_in_shelf(r: Rect, shelf_height: int, s: int) -> bool {
    s * shelf_height + 1 <= r.origin.y && max_y(r) + 1 <= s * shelf_height + shelf_height
}

/// True when `r` with a one-pixel border around it lies within one of the first `count` shelves.
pub open spec fn bordered_in_some_shelf(r: Rect, shelf_height: int, count: int) -> bool {
    exists|s: int| 0 <= s < count && #[trigger] bordered_in_shelf(r, shelf_height, s)
}

/// No two objects placed by a packer overlap, none extends past the atlas width, and each lies
/// within a single shelf; also with its one-pixel border, each lies within the width and within
/// one of the shelves opened so far, so that its offset from the top of its shelf is at least one
/// and leaves a pixel free below it.
pub proof fn lemma_placements_ok(p: &RectPacker)
    requires
        p.wf(),
    ensures
        forall|i: int, j: int|
            0 <= i < p.placed().len() && 0 <= j < p.placed().len() && i != j ==> !intersects(
                #[trigger] p.placed()[i],
                #[trigger] p.placed()[j],
            ),
        forall|i: int|
            0 <= i < p.placed().len() ==> max_x(#[trigger] p.placed()[i]) <= p.width_spec(),
        forall|i: int|
            0 <= i < p.placed().len() ==> in_some_shelf(
                #[trigger] p.placed()[i],
                p.shelf_height_spec() as int,
                p.shelf_count_spec() as int,
            ),
        forall|i: int|
            0 <= i < p.placed().len() ==> (#[trigger] p.placed()[i]).origin.x >= 1 && max_x(
                p.placed()[i],
            ) + 1 <= p.width_spec(),
        forall|i: int|
            0 <= i < p.placed().len() ==> bordered_in_some_shelf(
                #[trigger] p.placed()[i],
                p.shelf_height_spec() as int,
                p.shelf_count_spec() as int,
            ),
        forall|i: int|
            0 <= i < p.placed().len() ==> {
                let y = (#[trigger] p.placed()[i]).origin.y % p.shelf_height_spec();
                y >= 1 && y + p.placed()[i].size.height + 1 <= p.shelf_height_spec()
            },
{
    let cells = p.cells();
    assert forall|i: int| 0 <= i < cells.len() implies contained_in(
        #[trigger] inner(cells[i]),
        cells[i],
    ) by {
        assert(within_shelves(cells[i], p.width_spec() as int, p.shelf_height_spec() as int, p.shelf_count_spec() as int));
        assert(p.shelf_count_spec() * p.shelf_height_spec() <= u32::MAX);
    }
    assert forall|i: int, j: int|
        0 <= i < p.placed().len() && 0 <= j < p.placed().len() && i != j implies !intersects(
        #[trigger] p.placed()[i],
        #[trigger] p.placed()[j],
    ) by {
        assert(p.placed()[i] == inner(cells[i]));
        assert(p.placed()[j] == inner(cells[j]));
        assert(!intersects(cells[i], cells[j]));
        lemma_contained_no_intersect(inner(cells[i]), cells[i], cells[j]);
        lemma_contained_no_intersect(inner(cells[j]), cells[j], inner(cells[i]));
    }
    assert forall|i: int| 0 <= i < p.placed().len() implies max_x(#[trigger] p.placed()[i])
        <= p.width_spec() by {
        assert(p.placed()[i] == inner(cells[i]));
        assert(within_shelves(cells[i], p.width_spec() as int, p.shelf_height_spec() as int, p.shelf_count_spec() as int));
    }
    assert forall|i: int| 0 <= i < p.placed().len() implies in_some_shelf(
        #[trigger] p.placed()[i],
        p.shelf_height_spec() as int,
        p.shelf_count_spec() as int,
    ) by {
        assert(p.placed()[i] == inner(cells[i]));
        assert(within_shelves(cells[i], p.width_spec() as int, p.shelf_height_spec() as int, p.shelf_count_spec() as int));
        let s = choose|s: int| 0 <= s < p.shelf_count_spec() && #[trigger] in_shelf(cells[i], p.shelf_height_spec() as int, s);
        assert(in_shelf(p.placed()[i], p.shelf_height_spec() as int, s));
    }
    assert forall|i: int| 0 <= i < p.placed().len() implies (#[trigger] p.placed()[i]).origin.x >= 1
        && max_x(p.placed()[i]) + 1 <= p.width_spec() by {
        assert(p.placed()[i] == inner(cells[i]));
        assert(within_shelves(cells[i], p.width_spec() as int, p.shelf_height_spec() as int, p.shelf_count_spec() as int));
    }
    assert forall|i: int| 0 <= i < p.placed().len() implies bordered_in_some_shelf(
        #[trigger] p.placed()[i],
        p.shelf_height_spec() as int,
        p.shelf_count_spec() as int,
    ) by {
        assert(p.placed()[i] == inner(cells[i]));
        assert(within_shelves(cells[i], p.width_spec() as int, p.shelf_height_spec() as int, p.shelf_count_spec() as int));
        let s = choose|s: int| 0 <= s < p.shelf_count_spec() && #[trigger] in_shelf(cells[i], p.shelf_height_spec() as int, s);
        assert(bordered_in_shelf(p.placed()[i], p.shelf_height_spec() as int, s));
    }
    assert forall|i: int| 0 <= i < p.placed().len() implies {
        let y = (#[trigger] p.placed()[i]).origin.y % p.shelf_height_spec();
        y >= 1 && y + p.placed()[i].size.height + 1 <= p.shelf_height_spec()
    } by {
        let h = p.shelf_height_spec() as int;
        let r = p.placed()[i];
        let s = choose|s: int| 0 <= s < p.shelf_count_spec() && #[trigger] bordered_in_shelf(r, h, s);
        assert(bordered_in_shelf(r, h, s));
        vstd::arithmetic::div_mod::lemma_fundamental_div_mod_converse(r.origin.y as int, h, s, r.origin.y - s * h);
    }
}

} // verus!
