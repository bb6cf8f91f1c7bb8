use pathfinder_font::simd::{I32x2, I32x4, U32x2, U32x4, U8x16};

#[test]
fn test_i32x4_constructors() {
    let a = I32x4::new(3, 58, 10, 4);
    assert_eq!((a.0[0], a.0[1], a.0[2], a.0[3]), (3, 58, 10, 4));
    let b = I32x4::splat(39);
    assert_eq!(b, I32x4::new(39, 39, 39, 39));
}

#[test]
fn test_i32x4_basic_ops() {
    let a = I32x4::new(6, 29, -40, 2);
    let b = I32x4::new(10, -5, 10, 46);
    assert_eq!(a.min(b), I32x4::new(6, -5, -40, 2));
}

#[test]
fn test_i32x4_packed_comparisons() {
    let a = I32x4::new(59, 1, 5, 63);
    let b = I32x4::new(-59, 1, 5, 104);
    assert_eq!(a.packed_eq(b), U32x4::new(0, !0, !0, 0));
}

#[test]
fn i32x4_max_and_ordering_masks() {
    let a = I32x4::new(6, 29, -40, 2);
    let b = I32x4::new(10, -5, 10, 2);
    assert_eq!(a.max(b), I32x4::new(10, 29, 10, 2));
    assert_eq!(a.packed_gt(b), U32x4::new(0, !0, 0, 0));
    assert_eq!(a.packed_lt(b), U32x4::new(!0, 0, !0, 0));
    assert_eq!(a.packed_le(b), U32x4::new(!0, 0, !0, !0));
}

#[test]
fn i32x4_swizzles_and_concatenations() {
    let a = I32x4::new(1, 2, 3, 4);
    let b = I32x4::new(5, 6, 7, 8);
    assert_eq!(a.wzyx(), I32x4::new(4, 3, 2, 1));
    assert_eq!(a.xxyy(), I32x4::new(1, 1, 2, 2));
    assert_eq!(a.zwxy(), I32x4::new(3, 4, 1, 2));
    assert_eq!(a.concat_xy_xy(b), I32x4::new(1, 2, 5, 6));
    assert_eq!(a.concat_zw_zw(b), I32x4::new(3, 4, 7, 8));
    assert_eq!(a.xy().0, [1, 2]);
    assert_eq!(a.zw().y(), 4);
}

#[test]
fn i32x4_bit_casts_round_trip() {
    let a = I32x4::new(-1, 0, 0x0102_0304, i32::MIN);
    let u = a.to_u32x4();
    assert_eq!(u, U32x4::new(u32::MAX, 0, 0x0102_0304, 0x8000_0000));
    assert_eq!(u.to_i32x4(), a);
    let bytes = a.as_u8x16();
    assert_eq!(bytes.0[8], 0x04);
    assert_eq!(bytes.0[11], 0x01);
    assert_eq!(bytes.as_i32x4(), a);
}

#[test]
fn u32x4_mask_queries() {
    assert!(U32x4::splat(!0).is_all_ones());
    assert!(!U32x4::new(!0, 0, !0, !0).is_all_ones());
    assert!(U32x4::splat(0).is_all_zeroes());
    assert!(U32x4::new(0x8000_0000, 0x8000_0000, 0x8000_0000, 0x8000_0000).all_true());
    assert!(U32x4::splat(0).all_false());
    assert!(!U32x4::new(0, 0, 1, 0).all_false());
    assert_eq!(U32x4::new(1, 2, 3, 4).packed_eq(U32x4::new(1, 0, 3, 0)), U32x4::new(!0, 0, !0, 0));
}

#[test]
fn u8x16_shuffle_picks_bytes() {
    let mut src = [0u8; 16];
    let mut table = [0u8; 16];
    for i in 0..16 {
        src[i] = (i as u8) * 10;
        table[i] = 15 - i as u8;
    }
    table[0] = 0x80;
    let out = U8x16(src).shuffle(U8x16(table));
    assert_eq!(out.0[0], 0);
    assert_eq!(out.0[1], 140);
    assert_eq!(out.0[15], 0);
}

#[test]
fn i32x2_ops() {
    let a = I32x2::new(3, -7);
    let b = I32x2::splat(1);
    assert_eq!(a.max(b).x(), 3);
    assert_eq!(a.min(b).y(), -7);
    assert!(a.packed_gt(b).0[0] == !0 && a.packed_gt(b).0[1] == 0);
    assert!(U32x2::new(!0, !0).all_true());
    assert!(U32x2::splat(0).all_false());
    assert_eq!(a.concat_xy_xy(b), I32x4::new(3, -7, 1, 1));
}

#[test]
fn i32x4_arithmetic_is_lane_wise_and_wraps() {
    let a = I32x4::new(6, 29, -40, i32::MAX);
    let b = I32x4::new(10, -5, 10, 1);
    assert_eq!(a + b, I32x4::new(16, 24, -30, i32::MIN));
    assert_eq!(a - b, I32x4::new(-4, 34, -50, i32::MAX - 1));
    assert_eq!(a * b, I32x4::new(60, -145, -400, i32::MAX));
    assert_eq!(I32x4::splat(i32::MIN) - I32x4::splat(1), I32x4::splat(i32::MAX));
}

#[test]
fn lanes_are_indexed_from_x() {
    let mut a = I32x4::new(3, 58, 10, 4);
    assert_eq!((a[0], a[1], a[2], a[3]), (3, 58, 10, 4));
    a[2] = -7;
    assert_eq!(a, I32x4::new(3, 58, -7, 4));
    let m = I32x4::new(1, 2, 3, 4).packed_gt(I32x4::splat(2));
    assert_eq!((m[0], m[1], m[2], m[3]), (0, 0, !0, !0));
}
