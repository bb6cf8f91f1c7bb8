use pathfinder_font::otf::Error;
use pathfinder_font::error::FontError;
use pathfinder_font::otf::glyf::F2Dot14;
use pathfinder_font::rasterizer::{bool_setting, RasterizerOptions};
use pathfinder_font::util::Jump;

#[test]
fn eof_maps_anything() {
    assert_eq!(FontError::eof(()), FontError::UnexpectedEof);
    assert_eq!(FontError::eof(42), FontError::UnexpectedEof);
}

#[test]
fn jump_moves_forward_only_within_the_buffer() {
    let data = [1u8, 2, 3, 4];
    let mut r: &[u8] = &data;
    assert_eq!(r.jump(3), Ok(()));
    assert_eq!(r, &[4]);
    assert_eq!(r.jump(2), Err(()));
    assert_eq!(r, &[4]);
}

#[test]
fn fixed_point_product_rounds_down() {
    assert_eq!(F2Dot14(0x4000).mul(123), 123);
    assert_eq!(F2Dot14(0x2000).mul(-3), -2);
    assert_eq!(F2Dot14(-0x4000).mul(7), -7);
}

#[test]
fn boolean_settings() {
    assert_eq!(bool_setting(None), Some(false));
    assert_eq!(bool_setting(Some(b"YeS")), Some(true));
    assert_eq!(bool_setting(Some(b"1")), Some(true));
    assert_eq!(bool_setting(Some(b"Off")), Some(false));
    assert_eq!(bool_setting(Some(b"maybe")), None);
}

#[test]
fn default_rasterizer_options() {
    let options = RasterizerOptions::default();
    assert_eq!(options.shader_path, ".");
    assert!(!options.force_geometry_shader);
}

#[test]
fn opentype_errors_are_the_font_errors() {
    assert_eq!(Error::eof("short read"), Error::UnexpectedEof);
    assert_eq!(Error::CffBadOffset, FontError::CffBadOffset);
    let e: Error = FontError::RequiredTableMissing;
    assert_eq!(e, Error::RequiredTableMissing);
}
