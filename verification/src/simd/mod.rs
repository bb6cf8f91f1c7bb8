//! Packed integer vectors with lane-wise operations.
//!
//! Each vector is a fixed array of lanes; the lanes are named `x`, `y`, `z`
//! and `w` (lanes 0 to 3), and a swizzle such as `yxwz` builds a vector whose
//! lanes are taken from the named lanes of `self`, in that order.

use vstd::prelude::*;

mod swizzle_i32x4;

verus! {

/// The all-ones lane value, used as "true" in packed comparison results.
pub const ALL_ONES: u32 = 0xffff_ffffu32;

/// The lane mask that a packed comparison produces for a boolean.
pub open spec fn mask_of(b: bool) -> u32 {
    if b { ALL_ONES } else { 0u32 }
}

/// Reinterprets a signed 32-bit lane as unsigned (two's complement).
pub open spec fn i32_bits(v: i32) -> u32 {
    if v >= 0 { v as u32 } else { (v as int + 0x1_0000_0000) as u32 }
}

/// Reinterprets an unsigned 32-bit lane as signed (two's complement).
pub open spec fn u32_bits(v: u32) -> i32 {
    if v <= 0x7fff_ffff { v as i32 } else { (v as int - 0x1_0000_0000) as i32 }
}

fn lane_to_u32(v: i32) -> (r: u32)
    ensures
        r == i32_bits(v),
{
    if v >= 0 {
        v as u32
    } else {
        let p: u32 = (-(v as i64)) as u32;
        assert(p as int == -(v as int));
        if p == 0x8000_0000 {
            0x8000_0000u32
        } else {
            0xffff_ffffu32 - p + 1
        }
    }
}

fn lane_to_i32(v: u32) -> (r: i32)
    ensures
        r == u32_bits(v),
{
    if v <= 0x7fff_ffff {
        v as i32
    } else {
        let d: u32 = 0xffff_ffffu32 - v;
        -(d as i32) - 1
    }
}

/// Four packed 32-bit signed integers.
#[derive(Clone, Copy, Debug)]
pub struct I32x4(pub [i32; 4]);

impl View for I32x4 {
    type V = Seq<i32>;

    open spec fn view(&self) -> Seq<i32> {
        self.0@
    }
}

/// Four packed 32-bit unsigned integers, typically the result of a packed comparison.
#[derive(Clone, Copy, Debug)]
pub struct U32x4(pub [u32; 4]);

impl View for U32x4 {
    type V = Seq<u32>;

    open spec fn view(&self) -> Seq<u32> {
        self.0@
    }
}

/// Sixteen packed 8-bit unsigned integers.
#[derive(Clone, Copy, Debug)]
pub struct U8x16(pub [u8; 16]);

impl View for U8x16 {
    type V = Seq<u8>;

    open spec fn view(&self) -> Seq<u8> {
        self.0@
    }
}

/// Two packed 32-bit signed integers.
#[derive(Clone, Copy, Debug)]
pub struct I32x2(pub [i32; 2]);

impl View for I32x2 {
    type V = Seq<i32>;

    open spec fn view(&self) -> Seq<i32> {
        self.0@
    }
}

/// Two packed 32-bit unsigned integers, typically the result of a packed comparison.
#[derive(Clone, Copy, Debug)]
pub struct U32x2(pub [u32; 2]);

impl View for U32x2 {
    type V = Seq<u32>;

    open spec fn view(&self) -> Seq<u32> {
        self.0@
    }
}

fn min_i32(a: i32, b: i32) -> (r: i32)
    ensures
        r == if a <= b { a } else { b },
{
    if a <= b { a } else { b }
}

fn max_i32(a: i32, b: i32) -> (r: i32)
    ensures
        r == if a >= b { a } else { b },
{
    if a >= b { a } else { b }
}

impl I32x4 {
    /// Creates a vector from its four lanes.
    pub fn new(a: i32, b: i32, c: i32, d: i32) -> (r: I32x4)
        ensures
            r@ == seq![a, b, c, d],
    {
        let r = I32x4([a, b, c, d]);
        assert(r@ =~= seq![a, b, c, d]);
        r
    }

    /// Creates a vector with all four lanes set to `x`.
    pub fn splat(x: i32) -> (r: I32x4)
        ensures
            r@ == seq![x, x, x, x],
    {
        let r = I32x4([x, x, x, x]);
        assert(r@ =~= seq![x, x, x, x]);
        r
    }

    /// Lane-wise minimum.
    pub fn min(self, other: I32x4) -> (r: I32x4)
        ensures
            r@.len() == 4,
            forall|i: int| 0 <= i < 4 ==> #[trigger] r@[i] == if self@[i] <= other@[i] {
                self@[i]
            } else {
                other@[i]
            },
    {
        I32x4([
            min_i32(self.0[0], other.0[0]),
            min_i32(self.0[1], other.0[1]),
            min_i32(self.0[2], other.0[2]),
            min_i32(self.0[3], other.0[3]),
        ])
    }

    /// Lane-wise maximum.
    pub fn max(self, other: I32x4) -> (r: I32x4)
        ensures
            r@.len() == 4,
            forall|i: int| 0 <= i < 4 ==> #[trigger] r@[i] == if self@[i] >= other@[i] {
                self@[i]
            } else {
                other@[i]
            },
    {
        I32x4([
            max_i32(self.0[0], other.0[0]),
            max_i32(self.0[1], other.0[1]),
            max_i32(self.0[2], other.0[2]),
            max_i32(self.0[3], other.0[3]),
        ])
    }

    /// Lane-wise equality: each lane of the result is all ones where the lanes are equal and
    /// zero otherwise.
    pub fn packed_eq(self, other: I32x4) -> (r: U32x4)
        ensures
            r@.len() == 4,
            forall|i: int| 0 <= i < 4 ==> #[trigger] r@[i] == mask_of(self@[i] == other@[i]),
    {
        U32x4([
            if self.0[0] == other.0[0] { ALL_ONES } else { 0 },
            if self.0[1] == other.0[1] { ALL_ONES } else { 0 },
            if self.0[2] == other.0[2] { ALL_ONES } else { 0 },
            if self.0[3] == other.0[3] { ALL_ONES } else { 0 },
        ])
    }

    /// Lane-wise `>`, as a mask.
    pub fn packed_gt(self, other: I32x4) -> (r: U32x4)
        ensures
            r@.len() == 4,
            forall|i: int| 0 <= i < 4 ==> #[trigger] r@[i] == mask_of(self@[i] > other@[i]),
    {
        U32x4([
            if self.0[0] > other.0[0] { ALL_ONES } else { 0 },
            if self.0[1] > other.0[1] { ALL_ONES } else { 0 },
            if self.0[2] > other.0[2] { ALL_ONES } else { 0 },
            if self.0[3] > other.0[3] { ALL_ONES } else { 0 },
        ])
    }

    /// Lane-wise `<`, as a mask.
    pub fn packed_lt(self, other: I32x4) -> (r: U32x4)
        ensures
            r@.len() == 4,
            forall|i: int| 0 <= i < 4 ==> #[trigger] r@[i] == mask_of(self@[i] < other@[i]),
    {
        other.packed_gt(self)
    }

    /// Lane-wise `<=`, as a mask.
    pub fn packed_le(self, other: I32x4) -> (r: U32x4)
        ensures
            r@.len() == 4,
            forall|i: int| 0 <= i < 4 ==> #[trigger] r@[i] == mask_of(self@[i] <= other@[i]),
    {
        U32x4([
            if self.0[0] <= other.0[0] { ALL_ONES } else { 0 },
            if self.0[1] <= other.0[1] { ALL_ONES } else { 0 },
            if self.0[2] <= other.0[2] { ALL_ONES } else { 0 },
            if self.0[3] <= other.0[3] { ALL_ONES } else { 0 },
        ])
    }

    /// The first two lanes of `self` followed by the first two lanes of `other`.
    pub fn concat_xy_xy(self, other: I32x4) -> (r: I32x4)
        ensures
            r@ == seq![self@[0], self@[1], other@[0], other@[1]],
    {
        let r = I32x4([self.0[0], self.0[1], other.0[0], other.0[1]]);
        assert(r@ =~= seq![self@[0], self@[1], other@[0], other@[1]]);
        r
    }

    /// The last two lanes of `self` followed by the last two lanes of `other`.
    pub fn concat_zw_zw(self, other: I32x4) -> (r: I32x4)
        ensures
            r@ == seq![self@[2], self@[3], other@[2], other@[3]],
    {
        let r = I32x4([self.0[2], self.0[3], other.0[2], other.0[3]]);
        assert(r@ =~= seq![self@[2], self@[3], other@[2], other@[3]]);
        r
    }

    /// Reinterprets each lane as an unsigned integer; negative values wrap around.
    pub fn to_u32x4(self) -> (r: U32x4)
        ensures
            r@.len() == 4,
            forall|i: int| 0 <= i < 4 ==> #[trigger] r@[i] == i32_bits(self@[i]),
    {
        U32x4([
            lane_to_u32(self.0[0]),
            lane_to_u32(self.0[1]),
            lane_to_u32(self.0[2]),
            lane_to_u32(self.0[3]),
        ])
    }

    /// The first and second lanes of this vector, as a pair.
    pub fn xy(self) -> (r: I32x2)
        ensures
            r@ == seq![self@[0], self@[1]],
    {
        let r = I32x2([self.0[0], self.0[1]]);
        assert(r@ =~= seq![self@[0], self@[1]]);
        r
    }

    /// The first and fourth lanes of this vector, as a pair.
    pub fn xw(self) -> (r: I32x2)
        ensures
            r@ == seq![self@[0], self@[3]],
    {
        let r = I32x2([self.0[0], self.0[3]]);
        assert(r@ =~= seq![self@[0], self@[3]]);
        r
    }

    /// The second and first lanes of this vector, as a pair.
    pub fn yx(self) -> (r: I32x2)
        ensures
            r@ == seq![self@[1], self@[0]],
    {
        let r = I32x2([self.0[1], self.0[0]]);
        assert(r@ =~= seq![self@[1], self@[0]]);
        r
    }

    /// The third and second lanes of this vector, as a pair.
    pub fn zy(self) -> (r: I32x2)
        ensures
            r@ == seq![self@[2], self@[1]],
    {
        let r = I32x2([self.0[2], self.0[1]]);
        assert(r@ =~= seq![self@[2], self@[1]]);
        r
    }

    /// The third and fourth lanes of this vector, as a pair.
    pub fn zw(self) -> (r: I32x2)
        ensures
            r@ == seq![self@[2], self@[3]],
    {
        let r = I32x2([self.0[2], self.0[3]]);
        assert(r@ =~= seq![self@[2], self@[3]]);
        r
    }
}

impl I32x4 {
    /// The sixteen bytes of this vector in memory order: the lanes in order, each lane's bytes
    /// from least to most significant.
    pub fn as_u8x16(self) -> (r: U8x16)
        ensures
            r@.len() == 16,
            forall|j: int, k: int|
                0 <= j < 4 && 0 <= k < 4 ==> #[trigger] r@[4 * j + k] == lane_byte(
                    i32_bits(self@[j]),
                    k,
                ),
    {
        let mut bytes: [u8; 16] = [0u8; 16];
        let mut j: usize = 0;
        while j < 4
            invariant
                j <= 4,
                forall|jj: int, k: int|
                    0 <= jj < j && 0 <= k < 4 ==> #[trigger] bytes@[4 * jj + k] == lane_byte(
                        i32_bits(self@[jj]),
                        k,
                    ),
            decreases 4 - j,
        {
            let v = lane_to_u32(self.0[j]);
            let ghost before = bytes@;
            bytes[4 * j] = (v % 256) as u8;
            bytes[4 * j + 1] = (v / 256 % 256) as u8;
            bytes[4 * j + 2] = (v / 65536 % 256) as u8;
            bytes[4 * j + 3] = (v / 16777216 % 256) as u8;
            assert forall|jj: int, k: int|
                0 <= jj < j + 1 && 0 <= k < 4 implies #[trigger] bytes@[4 * jj + k] == lane_byte(
                    i32_bits(self@[jj]),
                    k,
                ) by {
                if jj < j {
                    assert(bytes@[4 * jj + k] == before[4 * jj + k]);
                }
            }
            j = j + 1;
        }
        U8x16(bytes)
    }
}

/// Byte `k` (0 = least significant) of a 32-bit value.
pub open spec fn lane_byte(v: u32, k: int) -> u8 {
    if k == 0 {
        (v % 256) as u8
    } else if k == 1 {
        (v / 256 % 256) as u8
    } else if k == 2 {
        (v / 65536 % 256) as u8
    } else {
        (v / 16777216 % 256) as u8
    }
}

/// The little-endian 32-bit value of four bytes.
pub open spec fn le_u32(b0: u8, b1: u8, b2: u8, b3: u8) -> u32 {
    (b0 as int + 256 * b1 as int + 65536 * b2 as int + 16777216 * b3 as int) as u32
}

impl U32x4 {
    /// Creates a vector from its four lanes.
    pub fn new(a: u32, b: u32, c: u32, d: u32) -> (r: U32x4)
        ensures
            r@ == seq![a, b, c, d],
    {
        let r = U32x4([a, b, c, d]);
        assert(r@ =~= seq![a, b, c, d]);
        r
    }

    /// Creates a vector with all four lanes set to `x`.
    pub fn splat(x: u32) -> (r: U32x4)
        ensures
            r@ == seq![x, x, x, x],
    {
        let r = U32x4([x, x, x, x]);
        assert(r@ =~= seq![x, x, x, x]);
        r
    }

    /// Reinterprets each lane as a signed integer; values above `i32::MAX` wrap around.
    pub fn to_i32x4(self) -> (r: I32x4)
        ensures
            r@.len() == 4,
            forall|i: int| 0 <= i < 4 ==> #[trigger] r@[i] == u32_bits(self@[i]),
    {
        I32x4([
            lane_to_i32(self.0[0]),
            lane_to_i32(self.0[1]),
            lane_to_i32(self.0[2]),
            lane_to_i32(self.0[3]),
        ])
    }

    /// Returns true if every lane is all ones.
    pub fn is_all_ones(&self) -> (r: bool)
        ensures
            r == forall|i: int| 0 <= i < 4 ==> #[trigger] self@[i] == ALL_ONES,
    {
        let r = self.0[0] == ALL_ONES && self.0[1] == ALL_ONES && self.0[2] == ALL_ONES
            && self.0[3] == ALL_ONES;
        assert(r == forall|i: int| 0 <= i < 4 ==> #[trigger] self@[i] == ALL_ONES) by {
            if !r {
                if self.0[0] != ALL_ONES {
                    assert(self@[0] != ALL_ONES);
                } else if self.0[1] != ALL_ONES {
                    assert(self@[1] != ALL_ONES);
                } else if self.0[2] != ALL_ONES {
                    assert(self@[2] != ALL_ONES);
                } else {
                    assert(self@[3] != ALL_ONES);
                }
            }
        }
        r
    }

    /// Returns true if every lane is zero.
    pub fn is_all_zeroes(&self) -> (r: bool)
        ensures
            r == forall|i: int| 0 <= i < 4 ==> #[trigger] self@[i] == 0,
    {
        let r = self.0[0] == 0 && self.0[1] == 0 && self.0[2] == 0 && self.0[3] == 0;
        assert(r == forall|i: int| 0 <= i < 4 ==> #[trigger] self@[i] == 0) by {
            if !r {
                if self.0[0] != 0 {
                    assert(self@[0] != 0);
                } else if self.0[1] != 0 {
                    assert(self@[1] != 0);
                } else if self.0[2] != 0 {
                    assert(self@[2] != 0);
                } else {
                    assert(self@[3] != 0);
                }
            }
        }
        r
    }

    /// Returns true if no lane is zero (every boolean is true).
    pub fn all_true(self) -> (r: bool)
        ensures
            r == forall|i: int| 0 <= i < 4 ==> #[trigger] self@[i] != 0,
    {
        let r = self.0[0] != 0 && self.0[1] != 0 && self.0[2] != 0 && self.0[3] != 0;
        assert(r == forall|i: int| 0 <= i < 4 ==> #[trigger] self@[i] != 0) by {
            if !r {
                if self.0[0] == 0 {
                    assert(self@[0] == 0);
                } else if self.0[1] == 0 {
                    assert(self@[1] == 0);
                } else if self.0[2] == 0 {
                    assert(self@[2] == 0);
                } else {
                    assert(self@[3] == 0);
                }
            }
        }
        r
    }

    /// Returns true if every lane is zero (every boolean is false).
    pub fn all_false(self) -> (r: bool)
        ensures
            r == forall|i: int| 0 <= i < 4 ==> #[trigger] self@[i] == 0,
    {
        self.is_all_zeroes()
    }

    /// The first two lanes.
    pub fn xy(self) -> (r: U32x2)
        ensures
            r@ == seq![self@[0], self@[1]],
    {
        let r = U32x2([self.0[0], self.0[1]]);
        assert(r@ =~= seq![self@[0], self@[1]]);
        r
    }

    /// Lane-wise equality, as a mask.
    pub fn packed_eq(self, other: U32x4) -> (r: U32x4)
        ensures
            r@.len() == 4,
            forall|i: int| 0 <= i < 4 ==> #[trigger] r@[i] == mask_of(self@[i] == other@[i]),
    {
        U32x4([
            if self.0[0] == other.0[0] { ALL_ONES } else { 0 },
            if self.0[1] == other.0[1] { ALL_ONES } else { 0 },
            if self.0[2] == other.0[2] { ALL_ONES } else { 0 },
            if self.0[3] == other.0[3] { ALL_ONES } else { 0 },
        ])
    }
}

impl U8x16 {
    /// Reads the sixteen bytes as four little-endian 32-bit signed lanes.
    pub fn as_i32x4(self) -> (r: I32x4)
        ensures
            r@.len() == 4,
            forall|j: int| 0 <= j < 4 ==> #[trigger] r@[j] == u32_bits(
                le_u32(self@[4 * j], self@[4 * j + 1], self@[4 * j + 2], self@[4 * j + 3]),
            ),
    {
        let mut lanes: [i32; 4] = [0i32; 4];
        let mut j: usize = 0;
        while j < 4
            invariant
                j <= 4,
                forall|jj: int| 0 <= jj < j ==> #[trigger] lanes@[jj] == u32_bits(
                    le_u32(self@[4 * jj], self@[4 * jj + 1], self@[4 * jj + 2], self@[4 * jj + 3]),
                ),
            decreases 4 - j,
        {
            let v: u32 = self.0[4 * j] as u32 + 256 * (self.0[4 * j + 1] as u32) + 65536 * (
            self.0[4 * j + 2] as u32) + 16777216 * (self.0[4 * j + 3] as u32);
            lanes[j] = lane_to_i32(v);
            j = j + 1;
        }
        I32x4(lanes)
    }

    /// Byte shuffle: lane `i` of the result is the lane of `self` selected by the low four bits
    /// of lane `i` of `table`.
    pub fn shuffle(self, table: U8x16) -> (r: U8x16)
        ensures
            r@.len() == 16,
            forall|i: int| 0 <= i < 16 ==> #[trigger] r@[i] == self@[(table@[i] % 16) as int],
    {
        let mut result: [u8; 16] = [0u8; 16];
        let mut index: usize = 0;
        while index < 16
            invariant
                index <= 16,
                forall|i: int| 0 <= i < index ==> #[trigger] result@[i] == self@[(table@[i] % 16) as int],
            decreases 16 - index,
        {
            let t = table.0[index];
            let sel = t & 0x0f;
            assert(t & 0x0f == t % 16) by (bit_vector);
            result[index] = self.0[sel as usize];
            index = index + 1;
        }
        U8x16(result)
    }
}

impl I32x2 {
    /// Creates a pair from its two lanes.
    pub fn new(a: i32, b: i32) -> (r: I32x2)
        ensures
            r@ == seq![a, b],
    {
        let r = I32x2([a, b]);
        assert(r@ =~= seq![a, b]);
        r
    }

    /// Creates a pair with both lanes set to `x`.
    pub fn splat(x: i32) -> (r: I32x2)
        ensures
            r@ == seq![x, x],
    {
        I32x2::new(x, x)
    }

    /// The first lane.
    pub fn x(self) -> (r: i32)
        ensures
            r == self@[0],
    {
        self.0[0]
    }

    /// The second lane.
    pub fn y(self) -> (r: i32)
        ensures
            r == self@[1],
    {
        self.0[1]
    }

    /// Widens to four lanes; the upper two lanes are zero.
    pub fn to_i32x4(self) -> (r: I32x4)
        ensures
            r@ == seq![self@[0], self@[1], 0i32, 0i32],
    {
        I32x4::new(self.0[0], self.0[1], 0, 0)
    }

    /// The lanes of `self` followed by the lanes of `other`.
    pub fn concat_xy_xy(self, other: I32x2) -> (r: I32x4)
        ensures
            r@ == seq![self@[0], self@[1], other@[0], other@[1]],
    {
        self.to_i32x4().concat_xy_xy(other.to_i32x4())
    }

    /// Lane-wise maximum.
    pub fn max(self, other: I32x2) -> (r: I32x2)
        ensures
            r@ == seq![
                if self@[0] >= other@[0] { self@[0] } else { other@[0] },
                if self@[1] >= other@[1] { self@[1] } else { other@[1] },
            ],
    {
        I32x2::new(max_i32(self.0[0], other.0[0]), max_i32(self.0[1], other.0[1]))
    }

    /// Lane-wise minimum.
    pub fn min(self, other: I32x2) -> (r: I32x2)
        ensures
            r@ == seq![
                if self@[0] <= other@[0] { self@[0] } else { other@[0] },
                if self@[1] <= other@[1] { self@[1] } else { other@[1] },
            ],
    {
        I32x2::new(min_i32(self.0[0], other.0[0]), min_i32(self.0[1], other.0[1]))
    }

    /// Lane-wise equality, as a mask.
    pub fn packed_eq(self, other: I32x2) -> (r: U32x2)
        ensures
            r@ == seq![mask_of(self@[0] == other@[0]), mask_of(self@[1] == other@[1])],
    {
        U32x2::new(
            if self.0[0] == other.0[0] { ALL_ONES } else { 0 },
            if self.0[1] == other.0[1] { ALL_ONES } else { 0 },
        )
    }

    /// Lane-wise `>`, as a mask.
    pub fn packed_gt(self, other: I32x2) -> (r: U32x2)
        ensures
            r@ == seq![mask_of(self@[0] > other@[0]), mask_of(self@[1] > other@[1])],
    {
        U32x2::new(
            if self.0[0] > other.0[0] { ALL_ONES } else { 0 },
            if self.0[1] > other.0[1] { ALL_ONES } else { 0 },
        )
    }

    /// Lane-wise `<=`, as a mask.
    pub fn packed_le(self, other: I32x2) -> (r: U32x2)
        ensures
            r@ == seq![mask_of(self@[0] <= other@[0]), mask_of(self@[1] <= other@[1])],
    {
        U32x2::new(
            if self.0[0] <= other.0[0] { ALL_ONES } else { 0 },
            if self.0[1] <= other.0[1] { ALL_ONES } else { 0 },
        )
    }
}

impl U32x2 {
    /// Creates a pair from its two lanes.
    pub fn new(x: u32, y: u32) -> (r: U32x2)
        ensures
            r@ == seq![x, y],
    {
        let r = U32x2([x, y]);
        assert(r@ =~= seq![x, y]);
        r
    }

    /// Creates a pair with both lanes set to `x`.
    pub fn splat(x: u32) -> (r: U32x2)
        ensures
            r@ == seq![x, x],
    {
        U32x2::new(x, x)
    }

    /// Lane-wise equality, as a mask.
    pub fn packed_eq(self, other: U32x2) -> (r: U32x2)
        ensures
            r@ == seq![mask_of(self@[0] == other@[0]), mask_of(self@[1] == other@[1])],
    {
        U32x2::new(
            if self.0[0] == other.0[0] { ALL_ONES } else { 0 },
            if self.0[1] == other.0[1] { ALL_ONES } else { 0 },
        )
    }

    /// Returns true if both lanes are nonzero (both booleans are true).
    pub fn all_true(self) -> (r: bool)
        ensures
            r == (self@[0] != 0 && self@[1] != 0),
    {
        self.0[0] != 0 && self.0[1] != 0
    }

    /// Returns true if both lanes are zero (both booleans are false).
    pub fn all_false(self) -> (r: bool)
        ensures
            r == (self@[0] == 0 && self@[1] == 0),
    {
        self.0[0] == 0 && self.0[1] == 0
    }

    /// Reinterprets both lanes as signed integers; values above `i32::MAX` wrap around.
    pub fn to_i32x2(self) -> (r: I32x2)
        ensures
            r@ == seq![u32_bits(self@[0]), u32_bits(self@[1])],
    {
        I32x2::new(lane_to_i32(self.0[0]), lane_to_i32(self.0[1]))
    }
}

impl PartialEq for I32x4 {
    fn eq(&self, other: &I32x4) -> (r: bool) {
        self.0[0] == other.0[0] && self.0[1] == other.0[1] && self.0[2] == other.0[2]
            && self.0[3] == other.0[3]
    }
}

impl vstd::std_specs::cmp::PartialEqSpecImpl for I32x4 {
    open spec fn obeys_eq_spec() -> bool {
        true
    }

    open spec fn eq_spec(&self, other: &I32x4) -> bool {
        self.0[0] == other.0[0] && self.0[1] == other.0[1] && self.0[2] == other.0[2]
            && self.0[3] == other.0[3]
    }
}

impl PartialEq for U32x4 {
    fn eq(&self, other: &U32x4) -> (r: bool) {
        self.0[0] == other.0[0] && self.0[1] == other.0[1] && self.0[2] == other.0[2]
            && self.0[3] == other.0[3]
    }
}

impl vstd::std_specs::cmp::PartialEqSpecImpl for U32x4 {
    open spec fn obeys_eq_spec() -> bool {
        true
    }

    open spec fn eq_spec(&self, other: &U32x4) -> bool {
        self.0[0] == other.0[0] && self.0[1] == other.0[1] && self.0[2] == other.0[2]
            && self.0[3] == other.0[3]
    }
}

impl vstd::std_specs::ops::AddSpecImpl for I32x4 {
    open spec fn obeys_add_spec() -> bool {
        true
    }

    open spec fn add_req(self, rhs: I32x4) -> bool {
        true
    }

    /// Lane-wise addition, wrapping on overflow.
    open spec fn add_spec(self, rhs: I32x4) -> I32x4 {
        I32x4(
            [
                self.0[0].wrapping_add(rhs.0[0]),
                self.0[1].wrapping_add(rhs.0[1]),
                self.0[2].wrapping_add(rhs.0[2]),
                self.0[3].wrapping_add(rhs.0[3]),
            ],
        )
    }
}

impl std::ops::Add for I32x4 {
    type Output = I32x4;

    fn add(self, other: I32x4) -> (r: I32x4) {
        I32x4(
            [
                self.0[0].wrapping_add(other.0[0]),
                self.0[1].wrapping_add(other.0[1]),
                self.0[2].wrapping_add(other.0[2]),
                self.0[3].wrapping_add(other.0[3]),
            ],
        )
    }
}

impl vstd::std_specs::ops::SubSpecImpl for I32x4 {
    open spec fn obeys_sub_spec() -> bool {
        true
    }

    open spec fn sub_req(self, rhs: I32x4) -> bool {
        true
    }

    /// Lane-wise subtraction, wrapping on overflow.
    open spec fn sub_spec(self, rhs: I32x4) -> I32x4 {
        I32x4(
            [
                self.0[0].wrapping_sub(rhs.0[0]),
                self.0[1].wrapping_sub(rhs.0[1]),
                self.0[2].wrapping_sub(rhs.0[2]),
                self.0[3].wrapping_sub(rhs.0[3]),
            ],
        )
    }
}

impl std::ops::Sub for I32x4 {
    type Output = I32x4;

    fn sub(self, other: I32x4) -> (r: I32x4) {
        I32x4(
            [
                self.0[0].wrapping_sub(other.0[0]),
                self.0[1].wrapping_sub(other.0[1]),
                self.0[2].wrapping_sub(other.0[2]),
                self.0[3].wrapping_sub(other.0[3]),
            ],
        )
    }
}

impl vstd::std_specs::ops::MulSpecImpl for I32x4 {
    open spec fn obeys_mul_spec() -> bool {
        true
    }

    open spec fn mul_req(self, rhs: I32x4) -> bool {
        true
    }

    /// Lane-wise multiplication, wrapping on overflow.
    open spec fn mul_spec(self, rhs: I32x4) -> I32x4 {
        I32x4(
            [
                self.0[0].wrapping_mul(rhs.0[0]),
                self.0[1].wrapping_mul(rhs.0[1]),
                self.0[2].wrapping_mul(rhs.0[2]),
                self.0[3].wrapping_mul(rhs.0[3]),
            ],
        )
    }
}

impl std::ops::Mul for I32x4 {
    type Output = I32x4;

    fn mul(self, other: I32x4) -> (r: I32x4) {
        I32x4(
            [
                self.0[0].wrapping_mul(other.0[0]),
                self.0[1].wrapping_mul(other.0[1]),
                self.0[2].wrapping_mul(other.0[2]),
                self.0[3].wrapping_mul(other.0[3]),
            ],
        )
    }
}

impl vstd::std_specs::core::IndexSpecImpl<usize> for I32x4 {
    open spec fn index_req(&self, index: &usize) -> bool {
        *index < 4
    }
}

impl std::ops::Index<usize> for I32x4 {
    type Output = i32;

    /// The lane with the given index.
    fn index(&self, index: usize) -> (r: &i32)
        ensures
            *r == self.0[index as int],
    {
        &self.0[index]
    }
}

impl std::ops::IndexMut<usize> for I32x4 {
    /// The lane with the given index, to be written.
    fn index_mut(&mut self, index: usize) -> (r: &mut i32)
        requires
            index < 4,
        ensures
            *r == old(self).0[index as int],
            final(self).0@ == old(self).0@.update(index as int, *final(r)),
    {
        &mut self.0[index]
    }
}

impl vstd::std_specs::core::IndexSpecImpl<usize> for U32x4 {
    open spec fn index_req(&self, index: &usize) -> bool {
        *index < 4
    }
}

impl std::ops::Index<usize> for U32x4 {
    type Output = u32;

    /// The lane with the given index.
    fn index(&self, index: usize) -> (r: &u32)
        ensures
            *r == self.0[index as int],
    {
        &self.0[index]
    }
}

} // verus!
