//! Atlases, which hold rendered glyphs.
//!
//! Atlases are composed of vertically-stacked "shelves" of uniform height. No glyphs may cross
//! shelves. Therefore, the shelf height must be tall enough to encompass all of the glyphs you
//! wish to render into the atlas.
//!
//! This module places glyph images in an atlas and works out which runs of outline indices to
//! draw; the pixel sizes and subpixel offsets of the images are computed by the caller.

use vstd::prelude::*;

use crate::geometry::{Point2D, Size2D};
use crate::rect_packer::{pack_post, RectPacker};
use crate::runs::{join_index_spans, join_spans, runs_listed, span_view, spans_forward};

verus! {

/// Information about each image that we keep around ourselves.
#[derive(Clone, Copy, Default, Debug, PartialEq, Eq, Structural)]
pub struct ImageMetadata {
    /// The index of the image in the atlas.
    pub glyph_index: u32,
    /// The ID of the glyph drawn in the image.
    pub glyph_id: u16,
    /// The first outline index of the glyph.
    pub start_index: u32,
    /// One past the last outline index of the glyph.
    pub end_index: u32,
}

/// Places glyphs in an atlas.
///
/// Typically, you first create an atlas builder, place all the glyphs into it, generate the
/// atlas, and then pass it to a rasterizer for rendering. Afterward, you can retrieve the
/// positions of each glyph in the atlas for final composition to the screen.
pub struct AtlasBuilder {
    rect_packer: RectPacker,
    image_metadata: Vec<ImageMetadata>,
}

/// The number of image slots: an image index is a `u16`, so the 65,537th image takes the slot of
/// the first, and so on.
pub open spec fn image_slot(count: int) -> int {
    count % 0x10000
}

/// The image list after recording `m` in slot `slot`: a new image at the end, or one that takes
/// the place of an earlier one.
pub open spec fn record_image(ms: Seq<ImageMetadata>, slot: int, m: ImageMetadata) -> Seq<
    ImageMetadata,
> {
    if slot < ms.len() {
        ms.update(slot, m)
    } else {
        ms.push(m)
    }
}

/// The spans of outline indices of the images `ms`, in image order.
pub open spec fn image_spans(ms: Seq<ImageMetadata>) -> Seq<(int, int)> {
    ms.map_values(|m: ImageMetadata| (m.start_index as int, m.end_index as int))
}

/// True when every image's indices run forwards.
pub open spec fn images_forward(ms: Seq<ImageMetadata>) -> bool {
    forall|i: int| 0 <= i < ms.len() ==> (#[trigger] ms[i]).start_index <= ms[i].end_index
}

impl AtlasBuilder {
    /// The packer that places the images.
    pub closed spec fn packer(&self) -> RectPacker {
        self.rect_packer
    }

    /// The images placed so far, by image index.
    pub closed spec fn images(&self) -> Seq<ImageMetadata> {
        self.image_metadata@
    }

    /// The builder's invariant: a sound packer, and images whose index is their position and
    /// whose outline indices run forwards.
    pub closed spec fn wf(&self) -> bool {
        &&& self.rect_packer.wf()
        &&& self.image_metadata@.len() <= 0x10000
        &&& forall|i: int|
            0 <= i < self.image_metadata@.len() ==> (#[trigger] self.image_metadata@[i]).glyph_index
                == i
        &&& images_forward(self.image_metadata@)
    }

    /// Constructs a new atlas builder with the given width in pixels and shelf height.
    ///
    /// The width can be any value at least as large as all glyphs in the font. It is recommended
    /// to keep it fairly large in order to make efficient use of the space: 1024 or 2048 is a good
    /// choice on modern GPUs.
    pub fn new(available_width: u32, shelf_height: u32) -> (r: AtlasBuilder)
        ensures
            r.wf(),
            r.images() == Seq::<ImageMetadata>::empty(),
            r.packer().width_spec() == available_width,
            r.packer().shelf_height_spec() == shelf_height,
            r.packer().shelf_count_spec() == 0,
            r.packer().last_shelf_width() == 0,
            r.packer().placed() == Seq::<crate::geometry::Rect>::empty(),
    {
        AtlasBuilder { rect_packer: RectPacker::new(available_width, shelf_height), image_metadata: Vec::new() }
    }

    /// Places the image of a glyph, `pixel_size` pixels large, into the atlas.
    ///
    /// The glyph is the one with ID `glyph_id`, whose outline takes the indices from
    /// `start_index` up to `end_index`. Returns the position of the image in the atlas and its
    /// image index, or an error if there is no space left for it.
    pub fn pack_glyph(&mut self, pixel_size: &Size2D, glyph_id: u16, start_index: u32, end_index: u32)
        -> (r: Result<(Point2D, u16), ()>)
        requires
            old(self).wf(),
            start_index <= end_index,
        ensures
            final(self).wf(),
            match r {
                Ok((origin, index)) => {
                    &&& pack_post(old(self).packer(), *pixel_size, final(self).packer(), Ok(origin))
                    &&& index == image_slot(old(self).images().len() as int)
                    &&& final(self).images() == record_image(
                        old(self).images(),
                        index as int,
                        ImageMetadata {
                            glyph_index: index as u32,
                            glyph_id: glyph_id,
                            start_index: start_index,
                            end_index: end_index,
                        },
                    )
                },
                Err(()) => {
                    &&& pack_post(old(self).packer(), *pixel_size, final(self).packer(), Err(()))
                    &&& final(self).images() == old(self).images()
                },
            },
    {
        let origin = match self.rect_packer.pack(pixel_size) {
            Ok(origin) => origin,
            Err(()) => {
                return Err(());
            },
        };
        let count = self.image_metadata.len();
        let glyph_index: u16 = (count % 0x10000) as u16;
        let metadata = ImageMetadata {
            glyph_index: glyph_index as u32,
            glyph_id: glyph_id,
            start_index: start_index,
            end_index: end_index,
        };
        if (glyph_index as usize) < count {
            self.image_metadata.set(glyph_index as usize, metadata);
        } else {
            self.image_metadata.push(metadata);
        }
        Ok((origin, glyph_index))
    }

    /// The packer that places the images.
    pub fn rect_packer(&self) -> (r: &RectPacker)
        ensures
            *r == self.packer(),
    {
        &self.rect_packer
    }

    /// The number of images placed so far.
    pub fn image_count(&self) -> (r: usize)
        ensures
            r == self.images().len(),
    {
        self.image_metadata.len()
    }

    /// Creates an atlas: the packer's shelf layout, and the runs of outline indices to draw,
    /// made by joining the images (in index order) whose indices follow on from each other.
    pub fn create_atlas(self) -> (r: Atlas)
        requires
            self.wf(),
            self.packer().shelf_count_spec() * self.packer().width_spec() <= u32::MAX,
        ensures
            runs_listed(join_spans(image_spans(self.images())), r.start_indices@, r.counts@),
            r.shelf_height == self.packer().shelf_height_spec(),
            self.packer().shelf_count_spec() == 0 ==> r.shelf_columns
                == self.packer().last_shelf_width(),
            self.packer().shelf_count_spec() > 0 ==> r.shelf_columns == (
            self.packer().shelf_count_spec() - 1) * self.packer().width_spec()
                + self.packer().last_shelf_width(),
    {
        // The images are kept in index order, so they need no sorting.
        let ms = &self.image_metadata;
        let mut spans: Vec<(usize, usize)> = Vec::new();
        let mut i: usize = 0;
        while i < ms.len()
            invariant
                i <= ms@.len(),
                spans@.len() == i,
                span_view(spans@) == image_spans(ms@).take(i as int),
            decreases ms@.len() - i,
        {
            let m = ms[i];
            let ghost before = spans@;
            spans.push((m.start_index as usize, m.end_index as usize));
            assert(spans@ == before.push((m.start_index as usize, m.end_index as usize)));
            assert forall|k: int| 0 <= k < i + 1 implies #[trigger] span_view(spans@)[k] == image_spans(
                ms@,
            )[k] by {
                if k < i {
                    assert(span_view(spans@)[k] == span_view(before)[k]);
                    assert(span_view(before)[k] == image_spans(ms@).take(i as int)[k]);
                } else {
                    assert(ms@[i as int] == m);
                    assert(span_view(spans@)[k] == (m.start_index as int, m.end_index as int));
                }
            }
            assert(span_view(spans@) =~= image_spans(ms@).take(i as int + 1));
            i = i + 1;
        }
        assert(image_spans(ms@).take(ms@.len() as int) =~= image_spans(ms@));
        assert(spans_forward(image_spans(ms@)));
        let (start_indices, counts) = join_index_spans(&spans);
        Atlas {
            start_indices: start_indices,
            counts: counts,
            shelf_height: self.rect_packer.shelf_height(),
            shelf_columns: self.rect_packer.shelf_columns(),
        }
    }
}

/// What every atlas builder keeps, from `new` through each `pack_glyph`: each image's index is
/// its position in the image list, there are at most 65,536 images, each image's outline
/// indices run forwards, and the packer keeps its own invariant (from which
/// `lemma_placements_ok` shows that the placed images neither overlap nor leave their shelf).
pub proof fn lemma_builder_invariant(b: &AtlasBuilder)
    requires
        b.wf(),
    ensures
        b.images().len() <= 0x10000,
        forall|i: int| 0 <= i < b.images().len() ==> (#[trigger] b.images()[i]).glyph_index == i,
        images_forward(b.images()),
        b.packer().wf(),
{
}

/// The layout of an atlas and the runs of outline indices to draw into it.
pub struct Atlas {
    /// The first outline index of each run.
    pub start_indices: Vec<usize>,
    /// The number of outline indices in each run.
    pub counts: Vec<usize>,
    /// The height of each shelf.
    pub shelf_height: u32,
    /// The number of pixel columns in use.
    pub shelf_columns: u32,
}

impl Atlas {
    /// Returns the height of each shelf.
    pub fn shelf_height(&self) -> (r: u32)
        ensures
            r == self.shelf_height,
    {
        self.shelf_height
    }

    /// Returns the number of pixel columns in use.
    pub fn shelf_columns(&self) -> (r: u32)
        ensures
            r == self.shelf_columns,
    {
        self.shelf_columns
    }
}

} // verus!
