//! OpenType fonts.

use vstd::prelude::*;

use crate::error::FontError;

pub mod cff;
pub mod cmap;
pub mod glyf;
pub mod head;
pub mod hhea;
pub mod hmtx;
pub mod kern;
pub mod loca;
pub mod os_2;

pub use crate::otf::glyf::{Point, PointKind};

verus! {

/// Errors that can occur when parsing OpenType fonts: the library's one error enum, with all
/// its variants and `Error::eof`, which maps any failed read to `UnexpectedEof`.
pub type Error = FontError;

/// The bytes of one table of a font.
#[derive(Clone, Copy, Debug)]
pub struct FontTable<'a> {
    pub bytes: &'a [u8],
}

} // verus!
