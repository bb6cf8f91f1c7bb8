use pathfinder_font::atlas::AtlasBuilder;
use pathfinder_font::batch::BatchBuilder;
use pathfinder_font::glyph_buffer::{GlyphBounds, GlyphBufferBuilder, GlyphDescriptor};
use pathfinder_font::geometry::{Point2D, Size2D};

#[test]
fn atlas_joins_images_whose_indices_follow_on() {
    let mut builder = AtlasBuilder::new(100, 10);
    let size = Size2D::new(3, 3);
    assert_eq!(builder.pack_glyph(&size, 5, 0, 6), Ok((Point2D::new(1, 1), 0)));
    assert_eq!(builder.pack_glyph(&size, 7, 6, 10), Ok((Point2D::new(1, 6), 1)));
    assert_eq!(builder.pack_glyph(&size, 9, 20, 24), Ok((Point2D::new(6, 1), 2)));
    assert_eq!(builder.image_count(), 3);
    let atlas = builder.create_atlas();
    assert_eq!(atlas.counts, vec![10, 4]);
    assert_eq!(atlas.start_indices, vec![0, 20]);
    assert_eq!(atlas.shelf_height(), 10);
    assert_eq!(atlas.shelf_columns(), 100);
}

#[test]
fn atlas_refuses_an_image_taller_than_a_shelf() {
    let mut builder = AtlasBuilder::new(100, 10);
    assert_eq!(builder.pack_glyph(&Size2D::new(3, 9), 1, 0, 4), Err(()));
    assert_eq!(builder.image_count(), 0);
    let atlas = builder.create_atlas();
    assert!(atlas.counts.is_empty());
    assert!(atlas.start_indices.is_empty());
    assert_eq!(atlas.shelf_columns(), 0);
}

#[test]
fn atlas_runs_cover_every_index() {
    // Images with runs that touch and runs that do not: the totals agree.
    let mut builder = AtlasBuilder::new(1000, 10);
    let spans = [(0u32, 3u32), (3, 3), (3, 8), (9, 12), (12, 20), (0, 2)];
    let size = Size2D::new(2, 2);
    for (k, (start, end)) in spans.iter().enumerate() {
        assert_eq!(builder.pack_glyph(&size, k as u16, *start, *end).map(|(_, i)| i), Ok(k as u16));
    }
    let atlas = builder.create_atlas();
    assert_eq!(atlas.start_indices, vec![0, 9, 0]);
    assert_eq!(atlas.counts, vec![8, 11, 2]);
    let total: usize = atlas.counts.iter().sum();
    let expected: u32 = spans.iter().map(|(s, e)| e - s).sum();
    assert_eq!(total, expected as usize);
}

#[test]
fn batch_sorts_its_glyphs_and_joins_their_runs() {
    let mut glyphs = GlyphBufferBuilder::new();
    let bounds = GlyphBounds { left: 0, bottom: 0, right: 10, top: 10 };
    for (glyph_id, start_index) in [(5u16, 0u32), (6, 4), (7, 9), (8, 15)] {
        glyphs.descriptors.push(GlyphDescriptor { bounds, units_per_em: 1000, start_point: 0, start_index, glyph_id });
    }
    glyphs.indices = vec![0; 20];
    let mut batch = BatchBuilder::new(100, 10);
    let size = Size2D::new(3, 3);
    for glyph_index in [3u32, 0, 1] {
        assert!(batch.add_glyph(&size, glyph_index).is_ok());
    }
    assert_eq!(batch.add_glyph(&Size2D::new(3, 9), 2), Err(()));
    assert_eq!(batch.glyph_indices, vec![3, 0, 1]);
    let runs = batch.finish(&glyphs);
    assert_eq!(batch.glyph_indices, vec![0, 1, 3]);
    // Glyphs 0 and 1 take indices 0 to 9 in one run; glyph 3 takes 15 to 20.
    assert_eq!(runs.start_indices, vec![0, 15]);
    assert_eq!(runs.counts, vec![9, 5]);
}

#[test]
fn batch_runs_do_not_depend_on_the_order_of_glyphs() {
    let mut glyphs = GlyphBufferBuilder::new();
    let bounds = GlyphBounds { left: 0, bottom: 0, right: 10, top: 10 };
    for (glyph_id, start_index) in [(5u16, 0u32), (6, 4), (7, 9), (8, 15)] {
        glyphs.descriptors.push(GlyphDescriptor { bounds, units_per_em: 1000, start_point: 0, start_index, glyph_id });
    }
    glyphs.indices = vec![0; 20];
    let mut results = Vec::new();
    for order in [[3u32, 0, 1, 0], [1, 0, 0, 3], [0, 3, 1, 0]] {
        let mut batch = BatchBuilder::new(100, 10);
        for glyph_index in order {
            assert!(batch.add_glyph(&Size2D::new(2, 2), glyph_index).is_ok());
        }
        let runs = batch.finish(&glyphs);
        assert_eq!(batch.glyph_indices, vec![0, 0, 1, 3]);
        results.push((runs.start_indices, runs.counts));
    }
    assert!(results.iter().all(|r| *r == results[0]));
    // The repeated glyph 0 starts a new run, as its span does not start where the last ended.
    assert_eq!(results[0], (vec![0, 0, 15], vec![4, 9, 5]));
}
