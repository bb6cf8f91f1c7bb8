use vstd::prelude::*;

pub mod atlas;
pub mod batch;
pub mod buffers;
pub mod error;
pub mod font;
pub mod simd;
pub mod util;
pub mod charmap;
pub mod glyph_buffer;
pub mod glyph_range;
pub mod geometry;
pub mod rasterizer;
pub mod rect_packer;
pub mod runs;
pub mod shaper;
pub mod hinting;
pub mod otf;
pub mod outline;
