//! All 256 four-lane swizzles of `I32x4`.

use vstd::prelude::*;

use super::I32x4;

verus! {

impl I32x4 {
    /// Constructs a new vector from the first, first, first, and first
    /// lanes in this vector, respectively.
    pub fn xxxx(self) -> (r: I32x4)
        ensures
            r@ == seq![self@[0], self@[0], self@[0], self@[0]],
    {
        let r = I32x4([self.0[0], self.0[0], self.0[0], self.0[0]]);
        assert(r@ =~= seq![self@[0], self@[0], self@[0], self@[0]]);
        r
    }

    /// Constructs a new vector from the second, first, first, and first
    /// lanes in this vector, respectively.
    pub fn yxxx(self) -> (r: I32x4)
        ensures
            r@ == seq![self@[1], self@[0], self@[0], self@[0]],
    {
        let r = I32x4([self.0[1], self.0[0], self.0[0], self.0[0]]);
        assert(r@ =~= seq![self@[1], self@[0], self@[0], self@[0]]);
        r
    }

    /// Constructs a new vector from the third, first, first, and first
    /// lanes in this vector, respectively.
    pub fn zxxx(self) -> (r: I32x4)
        ensures
            r@ == seq![self@[2], self@[0], self@[0], self@[0]],
    {
        let r = I32x4([self.0[2], self.0[0], self.0[0], self.0[0]]);
        assert(r@ =~= seq![self@[2], self@[0], self@[0], self@[0]]);
        r
    }

    /// Constructs a new vector from the fourth, first, first, and first
    /// lanes in this vector, respectively.
    pub fn wxxx(self) -> (r: I32x4)
        ensures
            r@ == seq![self@[3], self@[0], self@[0], self@[0]],
    {
        let r = I32x4([self.0[3], self.0[0], self.0[0], self.0[0]]);
        assert(r@ =~= seq![self@[3], self@[0], self@[0], self@[0]]);
        r
    }

    /// Constructs a new vector from the first, second, first, and first
    /// lanes in this vector, respectively.
    pub fn xyxx(self) -> (r: I32x4)
        ensures
            r@ == seq![self@[0], self@[1], self@[0], self@[0]],
    {
        let r = I32x4([self.0[0], self.0[1], self.0[0], self.0[0]]);
        assert(r@ =~= seq![self@[0], self@[1], self@[0], self@[0]]);
        r
    }

    /// Constructs a new vector from the second, second, first, and first
    /// lanes in this vector, respectively.
    pub fn yyxx(self) -> (r: I32x4)
        ensures
            r@ == seq![self@[1], self@[1], self@[0], self@[0]],
    {
        let r = I32x4([self.0[1], self.0[1], self.0[0], self.0[0]]);
        assert(r@ =~= seq![self@[1], self@[1], self@[0], self@[0]]);
        r
    }

    /// Constructs a new vector from the third, second, first, and first
    /// lanes in this vector, respectively.
    pub fn zyxx(self) -> (r: I32x4)
        ensures
            r@ == seq![self@[2], self@[1], self@[0], self@[0]],
    {
        let r = I32x4([self.0[2], self.0[1], self.0[0], self.0[0]]);
        assert(r@ =~= seq![self@[2], self@[1], self@[0], self@[0]]);
        r
    }

    /// Constructs a new vector from the fourth, second, first, and first
    /// lanes in this vector, respectively.
    pub fn wyxx(self) -> (r: I32x4)
        ensures
            r@ == seq![self@[3], self@[1], self@[0], self@[0]],
    {
        let r = I32x4([self.0[3], self.0[1], self.0[0], self.0[0]]);
        assert(r@ =~= seq![self@[3], self@[1], self@[0], self@[0]]);
        r
    }

    /// Constructs a new vector from the first, third, first, and first
    /// lanes in this vector, respectively.
    pub fn xzxx(self) -> (r: I32x4)
        ensures
            r@ == seq![self@[0], self@[2], self@[0], self@[0]],
    {
        let r = I32x4([self.0[0], self.0[2], self.0[0], self.0[0]]);
        assert(r@ =~= seq![self@[0], self@[2], self@[0], self@[0]]);
        r
    }

    /// Constructs a new vector from the second, third, first, and first
    /// lanes in this vector, respectively.
    pub fn yzxx(self) -> (r: I32x4)
        ensures
            r@ == seq![self@[1], self@[2], self@[0], self@[0]],
    {
        let r = I32x4([self.0[1], self.0[2], self.0[0], self.0[0]]);
        assert(r@ =~= seq![self@[1], self@[2], self@[0], self@[0]]);
        r
    }

    /// Constructs a new vector from the third, third, first, and first
    /// lanes in this vector, respectively.
    pub fn zzxx(self) -> (r: I32x4)
        ensures
            r@ == seq![self@[2], self@[2], self@[0], self@[0]],
    {
        let r = I32x4([self.0[2], self.0[2], self.0[0], self.0[0]]);
        assert(r@ =~= seq![self@[2], self@[2], self@[0], self@[0]]);
        r
    }

    /// Constructs a new vector from the fourth, third, first, and first
    /// lanes in this vector, respectively.
    pub fn wzxx(self) -> (r: I32x4)
        ensures
            r@ == seq![self@[3], self@[2], self@[0], self@[0]],
    {
        let r = I32x4([self.0[3], self.0[2], self.0[0], self.0[0]]);
        assert(r@ =~= seq![self@[3], self@[2], self@[0], self@[0]]);
        r
    }

    /// Constructs a new vector from the first, fourth, first, and first
    /// lanes in this vector, respectively.
    pub fn xwxx(self) -> (r: I32x4)
        ensures
            r@ == seq![self@[0], self@[3], self@[0], self@[0]],
    {
        let r = I32x4([self.0[0], self.0[3], self.0[0], self.0[0]]);
        assert(r@ =~= seq![self@[0], self@[3], self@[0], self@[0]]);
        r
    }

    /// Constructs a new vector from the second, fourth, first, and first
    /// lanes in this vector, respectively.
    pub fn ywxx(self) -> (r: I32x4)
        ensures
            r@ == seq![self@[1], self@[3], self@[0], self@[0]],
    {
        let r = I32x4([self.0[1], self.0[3], self.0[0], self.0[0]]);
        assert(r@ =~= seq![self@[1], self@[3], self@[0], self@[0]]);
        r
    }

    /// Constructs a new vector from the third, fourth, first, and first
    /// lanes in this vector, respectively.
    pub fn zwxx(self) -> (r: I32x4)
        ensures
            r@ == seq![self@[2], self@[3], self@[0], self@[0]],
    {
        let r = I32x4([self.0[2], self.0[3], self.0[0], self.0[0]]);
        assert(r@ =~= seq![self@[2], self@[3], self@[0], self@[0]]);
        r
    }

    /// Constructs a new vector from the fourth, fourth, first, and first
    /// lanes in this vector, respectively.
    pub fn wwxx(self) -> (r: I32x4)
        ensures
            r@ == seq![self@[3], self@[3], self@[0], self@[0]],
    {
        let r = I32x4([self.0[3], self.0[3], self.0[0], self.0[0]]);
        assert(r@ =~= seq![self@[3], self@[3], self@[0], self@[0]]);
        r
    }

    /// Constructs a new vector from the first, first, second, and first
    /// lanes in this vector, respectively.
    pub fn xxyx(self) -> (r: I32x4)
        ensures
            r@ == seq![self@[0], self@[0], self@[1], self@[0]],
    {
        let r = I32x4([self.0[0], self.0[0], self.0[1], self.0[0]]);
        assert(r@ =~= seq![self@[0], self@[0], self@[1], self@[0]]);
        r
    }

    /// Constructs a new vector from the second, first, second, and first
    /// lanes in this vector, respectively.
    pub fn yxyx(self) -> (r: I32x4)
        ensures
            r@ == seq![self@[1], self@[0], self@[1], self@[0]],
    {
        let r = I32x4([self.0[1], self.0[0], self.0[1], self.0[0]]);
        assert(r@ =~= seq![self@[1], self@[0], self@[1], self@[0]]);
        r
    }

    /// Constructs a new vector from the third, first, second, and first
    /// lanes in this vector, respectively.
    pub fn zxyx(self) -> (r: I32x4)
        ensures
            r@ == seq![self@[2], self@[0], self@[1], self@[0]],
    {
        let r = I32x4([self.0[2], self.0[0], self.0[1], self.0[0]]);
        assert(r@ =~= seq![self@[2], self@[0], self@[1], self@[0]]);
        r
    }

    /// Constructs a new vector from the fourth, first, second, and first
    /// lanes in this vector, respectively.
    pub fn wxyx(self) -> (r: I32x4)
        ensures
            r@ == seq![self@[3], self@[0], self@[1], self@[0]],
    {
        let r = I32x4([self.0[3], self.0[0], self.0[1], self.0[0]]);
        assert(r@ =~= seq![self@[3], self@[0], self@[1], self@[0]]);
        r
    }

    /// Constructs a new vector from the first, second, second, and first
    /// lanes in this vector, respectively.
    pub fn xyyx(self) -> (r: I32x4)
        ensures
            r@ == seq![self@[0], self@[1], self@[1], self@[0]],
    {
        let r = I32x4([self.0[0], self.0[1], self.0[1], self.0[0]]);
        assert(r@ =~= seq![self@[0], self@[1], self@[1], self@[0]]);
        r
    }

    /// Constructs a new vector from the second, second, second, and first
    /// lanes in this vector, respectively.
    pub fn yyyx(self) -> (r: I32x4)
        ensures
            r@ == seq![self@[1], self@[1], self@[1], self@[0]],
    {
        let r = I32x4([self.0[1], self.0[1], self.0[1], self.0[0]]);
        assert(r@ =~= seq![self@[1], self@[1], self@[1], self@[0]]);
        r
    }

    /// Constructs a new vector from the third, second, second, and first
    /// lanes in this vector, respectively.
    pub fn zyyx(self) -> (r: I32x4)
        ensures
            r@ == seq![self@[2], self@[1], self@[1], self@[0]],
    {
        let r = I32x4([self.0[2], self.0[1], self.0[1], self.0[0]]);
        assert(r@ =~= seq![self@[2], self@[1], self@[1], self@[0]]);
        r
    }

    /// Constructs a new vector from the fourth, second, second, and first
    /// lanes in this vector, respectively.
    pub fn wyyx(self) -> (r: I32x4)
        ensures
            r@ == seq![self@[3], self@[1], self@[1], self@[0]],
    {
        let r = I32x4([self.0[3], self.0[1], self.0[1], self.0[0]]);
        assert(r@ =~= seq![self@[3], self@[1], self@[1], self@[0]]);
        r
    }

    /// Constructs a new vector from the first, third, second, and first
    /// lanes in this vector, respectively.
    pub fn xzyx(self) -> (r: I32x4)
        ensures
            r@ == seq![self@[0], self@[2], self@[1], self@[0]],
    {
        let r = I32x4([self.0[0], self.0[2], self.0[1], self.0[0]]);
        assert(r@ =~= seq![self@[0], self@[2], self@[1], self@[0]]);
        r
    }

    /// Constructs a new vector from the second, third, second, and first
    /// lanes in this vector, respectively.
    pub fn yzyx(self) -> (r: I32x4)
        ensures
            r@ == seq![self@[1], self@[2], self@[1], self@[0]],
    {
        let r = I32x4([self.0[1], self.0[2], self.0[1], self.0[0]]);
        assert(r@ =~= seq![self@[1], self@[2], self@[1], self@[0]]);
        r
    }

    /// Constructs a new vector from the third, third, second, and first
    /// lanes in this vector, respectively.
    pub fn zzyx(self) -> (r: I32x4)
        ensures
            r@ == seq![self@[2], self@[2], self@[1], self@[0]],
    {
        let r = I32x4([self.0[2], self.0[2], self.0[1], self.0[0]]);
        assert(r@ =~= seq![self@[2], self@[2], self@[1], self@[0]]);
        r
    }

    /// Constructs a new vector from the fourth, third, second, and first
    /// lanes in this vector, respectively.
    pub fn wzyx(self) -> (r: I32x4)
        ensures
            r@ == seq![self@[3], self@[2], self@[1], self@[0]],
    {
        let r = I32x4([self.0[3], self.0[2], self.0[1], self.0[0]]);
        assert(r@ =~= seq![self@[3], self@[2], self@[1], self@[0]]);
        r
    }

    /// Constructs a new vector from the first, fourth, second, and first
    /// lanes in this vector, respectively.
    pub fn xwyx(self) -> (r: I32x4)
        ensures
            r@ == seq![self@[0], self@[3], self@[1], self@[0]],
    {
        let r = I32x4([self.0[0], self.0[3], self.0[1], self.0[0]]);
        assert(r@ =~= seq![self@[0], self@[3], self@[1], self@[0]]);
        r
    }

    /// Constructs a new vector from the second, fourth, second, and first
    /// lanes in this vector, respectively.
    pub fn ywyx(self) -> (r: I32x4)
        ensures
            r@ == seq![self@[1], self@[3], self@[1], self@[0]],
    {
        let r = I32x4([self.0[1], self.0[3], self.0[1], self.0[0]]);
        assert(r@ =~= seq![self@[1], self@[3], self@[1], self@[0]]);
        r
    }

    /// Constructs a new vector from the third, fourth, second, and first
    /// lanes in this vector, respectively.
    pub fn zwyx(self) -> (r: I32x4)
        ensures
            r@ == seq![self@[2], self@[3], self@[1], self@[0]],
    {
        let r = I32x4([self.0[2], self.0[3], self.0[1], self.0[0]]);
        assert(r@ =~= seq![self@[2], self@[3], self@[1], self@[0]]);
        r
    }

    /// Constructs a new vector from the fourth, fourth, second, and first
    /// lanes in this vector, respectively.
    pub fn wwyx(self) -> (r: I32x4)
        ensures
            r@ == seq![self@[3], self@[3], self@[1], self@[0]],
    {
        let r = I32x4([self.0[3], self.0[3], self.0[1], self.0[0]]);
        assert(r@ =~= seq![self@[3], self@[3], self@[1], self@[0]]);
        r
    }

    /// Constructs a new vector from the first, first, third, and first
    /// lanes in this vector, respectively.
    pub fn xxzx(self) -> (r: I32x4)
        ensures
            r@ == seq![self@[0], self@[0], self@[2], self@[0]],
    {
        let r = I32x4([self.0[0], self.0[0], self.0[2], self.0[0]]);
        assert(r@ =~= seq![self@[0], self@[0], self@[2], self@[0]]);
        r
    }

    /// Constructs a new vector from the second, first, third, and first
    /// lanes in this vector, respectively.
    pub fn yxzx(self) -> (r: I32x4)
        ensures
            r@ == seq![self@[1], self@[0], self@[2], self@[0]],
    {
        let r = I32x4([self.0[1], self.0[0], self.0[2], self.0[0]]);
        assert(r@ =~= seq![self@[1], self@[0], self@[2], self@[0]]);
        r
    }

    /// Constructs a new vector from the third, first, third, and first
    /// lanes in this vector, respectively.
    pub fn zxzx(self) -> (r: I32x4)
        ensures
            r@ == seq![self@[2], self@[0], self@[2], self@[0]],
    {
        let r = I32x4([self.0[2], self.0[0], self.0[2], self.0[0]]);
        assert(r@ =~= seq![self@[2], self@[0], self@[2], self@[0]]);
        r
    }

    /// Constructs a new vector from the fourth, first, third, and first
    /// lanes in this vector, respectively.
    pub fn wxzx(self) -> (r: I32x4)
        ensures
            r@ == seq![self@[3], self@[0], self@[2], self@[0]],
    {
        let r = I32x4([self.0[3], self.0[0], self.0[2], self.0[0]]);
        assert(r@ =~= seq![self@[3], self@[0], self@[2], self@[0]]);
        r
    }

    /// Constructs a new vector from the first, second, third, and first
    /// lanes in this vector, respectively.
    pub fn xyzx(self) -> (r: I32x4)
        ensures
            r@ == seq![self@[0], self@[1], self@[2], self@[0]],
    {
        let r = I32x4([self.0[0], self.0[1], self.0[2], self.0[0]]);
        assert(r@ =~= seq![self@[0], self@[1], self@[2], self@[0]]);
        r
    }

    /// Constructs a new vector from the second, second, third, and first
    /// lanes in this vector, respectively.
    pub fn yyzx(self) -> (r: I32x4)
        ensures
            r@ == seq![self@[1], self@[1], self@[2], self@[0]],
    {
        let r = I32x4([self.0[1], self.0[1], self.0[2], self.0[0]]);
        assert(r@ =~= seq![self@[1], self@[1], self@[2], self@[0]]);
        r
    }

    /// Constructs a new vector from the third, second, third, and first
    /// lanes in this vector, respectively.
    pub fn zyzx(self) -> (r: I32x4)
        ensures
            r@ == seq![self@[2], self@[1], self@[2], self@[0]],
    {
        let r = I32x4([self.0[2], self.0[1], self.0[2], self.0[0]]);
        assert(r@ =~= seq![self@[2], self@[1], self@[2], self@[0]]);
        r
    }

    /// Constructs a new vector from the fourth, second, third, and first
    /// lanes in this vector, respectively.
    pub fn wyzx(self) -> (r: I32x4)
        ensures
            r@ == seq![self@[3], self@[1], self@[2], self@[0]],
    {
        let r = I32x4([self.0[3], self.0[1], self.0[2], self.0[0]]);
        assert(r@ =~= seq![self@[3], self@[1], self@[2], self@[0]]);
        r
    }

    /// Constructs a new vector from the first, third, third, and first
    /// lanes in this vector, respectively.
    pub fn xzzx(self) -> (r: I32x4)
        ensures
            r@ == seq![self@[0], self@[2], self@[2], self@[0]],
    {
        let r = I32x4([self.0[0], self.0[2], self.0[2], self.0[0]]);
        assert(r@ =~= seq![self@[0], self@[2], self@[2], self@[0]]);
        r
    }

    /// Constructs a new vector from the second, third, third, and first
    /// lanes in this vector, respectively.
    pub fn yzzx(self) -> (r: I32x4)
        ensures
            r@ == seq![self@[1], self@[2], self@[2], self@[0]],
    {
        let r = I32x4([self.0[1], self.0[2], self.0[2], self.0[0]]);
        assert(r@ =~= seq![self@[1], self@[2], self@[2], self@[0]]);
        r
    }

    /// Constructs a new vector from the third, third, third, and first
    /// lanes in this vector, respectively.
    pub fn zzzx(self) -> (r: I32x4)
        ensures
            r@ == seq![self@[2], self@[2], self@[2], self@[0]],
    {
        let r = I32x4([self.0[2], self.0[2], self.0[2], self.0[0]]);
        assert(r@ =~= seq![self@[2], self@[2], self@[2], self@[0]]);
        r
    }

    /// Constructs a new vector from the fourth, third, third, and first
    /// lanes in this vector, respectively.
    pub fn wzzx(self) -> (r: I32x4)
        ensures
            r@ == seq![self@[3], self@[2], self@[2], self@[0]],
    {
        let r = I32x4([self.0[3], self.0[2], self.0[2], self.0[0]]);
        assert(r@ =~= seq![self@[3], self@[2], self@[2], self@[0]]);
        r
    }

    /// Constructs a new vector from the first, fourth, third, and first
    /// lanes in this vector, respectively.
    pub fn xwzx(self) -> (r: I32x4)
        ensures
            r@ == seq![self@[0], self@[3], self@[2], self@[0]],
    {
        let r = I32x4([self.0[0], self.0[3], self.0[2], self.0[0]]);
        assert(r@ =~= seq![self@[0], self@[3], self@[2], self@[0]]);
        r
    }

    /// Constructs a new vector from the second, fourth, third, and first
    /// lanes in this vector, respectively.
    pub fn ywzx(self) -> (r: I32x4)
        ensures
            r@ == seq![self@[1], self@[3], self@[2], self@[0]],
    {
        let r = I32x4([self.0[1], self.0[3], self.0[2], self.0[0]]);
        assert(r@ =~= seq![self@[1], self@[3], self@[2], self@[0]]);
        r
    }

    /// Constructs a new vector from the third, fourth, third, and first
    /// lanes in this vector, respectively.
    pub fn zwzx(self) -> (r: I32x4)
        ensures
            r@ == seq![self@[2], self@[3], self@[2], self@[0]],
    {
        let r = I32x4([self.0[2], self.0[3], self.0[2], self.0[0]]);
        assert(r@ =~= seq![self@[2], self@[3], self@[2], self@[0]]);
        r
    }

    /// Constructs a new vector from the fourth, fourth, third, and first
    /// lanes in this vector, respectively.
    pub fn wwzx(self) -> (r: I32x4)
        ensures
            r@ == seq![self@[3], self@[3], self@[2], self@[0]],
    {
        let r = I32x4([self.0[3], self.0[3], self.0[2], self.0[0]]);
        assert(r@ =~= seq![self@[3], self@[3], self@[2], self@[0]]);
        r
    }

    /// Constructs a new vector from the first, first, fourth, and first
    /// lanes in this vector, respectively.
    pub fn xxwx(self) -> (r: I32x4)
        ensures
            r@ == seq![self@[0], self@[0], self@[3], self@[0]],
    {
        let r = I32x4([self.0[0], self.0[0], self.0[3], self.0[0]]);
        assert(r@ =~= seq![self@[0], self@[0], self@[3], self@[0]]);
        r
    }

    /// Constructs a new vector from the second, first, fourth, and first
    /// lanes in this vector, respectively.
    pub fn yxwx(self) -> (r: I32x4)
        ensures
            r@ == seq![self@[1], self@[0], self@[3], self@[0]],
    {
        let r = I32x4([self.0[1], self.0[0], self.0[3], self.0[0]]);
        assert(r@ =~= seq![self@[1], self@[0], self@[3], self@[0]]);
        r
    }

    /// Constructs a new vector from the third, first, fourth, and first
    /// lanes in this vector, respectively.
    pub fn zxwx(self) -> (r: I32x4)
        ensures
            r@ == seq![self@[2], self@[0], self@[3], self@[0]],
    {
        let r = I32x4([self.0[2], self.0[0], self.0[3], self.0[0]]);
        assert(r@ =~= seq![self@[2], self@[0], self@[3], self@[0]]);
        r
    }

    /// Constructs a new vector from the fourth, first, fourth, and first
    /// lanes in this vector, respectively.
    pub fn wxwx(self) -> (r: I32x4)
        ensures
            r@ == seq![self@[3], self@[0], self@[3], self@[0]],
    {
        let r = I32x4([self.0[3], self.0[0], self.0[3], self.0[0]]);
        assert(r@ =~= seq![self@[3], self@[0], self@[3], self@[0]]);
        r
    }

    /// Constructs a new vector from the first, second, fourth, and first
    /// lanes in this vector, respectively.
    pub fn xywx(self) -> (r: I32x4)
        ensures
            r@ == seq![self@[0], self@[1], self@[3], self@[0]],
    {
        let r = I32x4([self.0[0], self.0[1], self.0[3], self.0[0]]);
        assert(r@ =~= seq![self@[0], self@[1], self@[3], self@[0]]);
        r
    }

    /// Constructs a new vector from the second, second, fourth, and first
    /// lanes in this vector, respectively.
    pub fn yywx(self) -> (r: I32x4)
        ensures
            r@ == seq![self@[1], self@[1], self@[3], self@[0]],
    {
        let r = I32x4([self.0[1], self.0[1], self.0[3], self.0[0]]);
        assert(r@ =~= seq![self@[1], self@[1], self@[3], self@[0]]);
        r
    }

    /// Constructs a new vector from the third, second, fourth, and first
    /// lanes in this vector, respectively.
    pub fn zywx(self) -> (r: I32x4)
        ensures
            r@ == seq![self@[2], self@[1], self@[3], self@[0]],
    {
        let r = I32x4([self.0[2], self.0[1], self.0[3], self.0[0]]);
        assert(r@ =~= seq![self@[2], self@[1], self@[3], self@[0]]);
        r
    }

    /// Constructs a new vector from the fourth, second, fourth, and first
    /// lanes in this vector, respectively.
    pub fn wywx(self) -> (r: I32x4)
        ensures
            r@ == seq![self@[3], self@[1], self@[3], self@[0]],
    {
        let r = I32x4([self.0[3], self.0[1], self.0[3], self.0[0]]);
        assert(r@ =~= seq![self@[3], self@[1], self@[3], self@[0]]);
        r
    }

    /// Constructs a new vector from the first, third, fourth, and first
    /// lanes in this vector, respectively.
    pub fn xzwx(self) -> (r: I32x4)
        ensures
            r@ == seq![self@[0], self@[2], self@[3], self@[0]],
    {
        let r = I32x4([self.0[0], self.0[2], self.0[3], self.0[0]]);
        assert(r@ =~= seq![self@[0], self@[2], self@[3], self@[0]]);
        r
    }

    /// Constructs a new vector from the second, third, fourth, and first
    /// lanes in this vector, respectively.
    pub fn yzwx(self) -> (r: I32x4)
        ensures
            r@ == seq![self@[1], self@[2], self@[3], self@[0]],
    {
        let r = I32x4([self.0[1], self.0[2], self.0[3], self.0[0]]);
        assert(r@ =~= seq![self@[1], self@[2], self@[3], self@[0]]);
        r
    }

    /// Constructs a new vector from the third, third, fourth, and first
    /// lanes in this vector, respectively.
    pub fn zzwx(self) -> (r: I32x4)
        ensures
            r@ == seq![self@[2], self@[2], self@[3], self@[0]],
    {
        let r = I32x4([self.0[2], self.0[2], self.0[3], self.0[0]]);
        assert(r@ =~= seq![self@[2], self@[2], self@[3], self@[0]]);
        r
    }

    /// Constructs a new vector from the fourth, third, fourth, and first
    /// lanes in this vector, respectively.
    pub fn wzwx(self) -> (r: I32x4)
        ensures
            r@ == seq![self@[3], self@[2], self@[3], self@[0]],
    {
        let r = I32x4([self.0[3], self.0[2], self.0[3], self.0[0]]);
        assert(r@ =~= seq![self@[3], self@[2], self@[3], self@[0]]);
        r
    }

    /// Constructs a new vector from the first, fourth, fourth, and first
    /// lanes in this vector, respectively.
    pub fn xwwx(self) -> (r: I32x4)
        ensures
            r@ == seq![self@[0], self@[3], self@[3], self@[0]],
    {
        let r = I32x4([self.0[0], self.0[3], self.0[3], self.0[0]]);
        assert(r@ =~= seq![self@[0], self@[3], self@[3], self@[0]]);
        r
    }

    /// Constructs a new vector from the second, fourth, fourth, and first
    /// lanes in this vector, respectively.
    pub fn ywwx(self) -> (r: I32x4)
        ensures
            r@ == seq![self@[1], self@[3], self@[3], self@[0]],
    {
        let r = I32x4([self.0[1], self.0[3], self.0[3], self.0[0]]);
        assert(r@ =~= seq![self@[1], self@[3], self@[3], self@[0]]);
        r
    }

    /// Constructs a new vector from the third, fourth, fourth, and first
    /// lanes in this vector, respectively.
    pub fn zwwx(self) -> (r: I32x4)
        ensures
            r@ == seq![self@[2], self@[3], self@[3], self@[0]],
    {
        let r = I32x4([self.0[2], self.0[3], self.0[3], self.0[0]]);
        assert(r@ =~= seq![self@[2], self@[3], self@[3], self@[0]]);
        r
    }

    /// Constructs a new vector from the fourth, fourth, fourth, and first
    /// lanes in this vector, respectively.
    pub fn wwwx(self) -> (r: I32x4)
        ensures
            r@ == seq![self@[3], self@[3], self@[3], self@[0]],
    {
        let r = I32x4([self.0[3], self.0[3], self.0[3], self.0[0]]);
        assert(r@ =~= seq![self@[3], self@[3], self@[3], self@[0]]);
        r
    }

    /// Constructs a new vector from the first, first, first, and second
    /// lanes in this vector, respectively.
    pub fn xxxy(self) -> (r: I32x4)
        ensures
            r@ == seq![self@[0], self@[0], self@[0], self@[1]],
    {
        let r = I32x4([self.0[0], self.0[0], self.0[0], self.0[1]]);
        assert(r@ =~= seq![self@[0], self@[0], self@[0], self@[1]]);
        r
    }

    /// Constructs a new vector from the second, first, first, and second
    /// lanes in this vector, respectively.
    pub fn yxxy(self) -> (r: I32x4)
        ensures
            r@ == seq![self@[1], self@[0], self@[0], self@[1]],
    {
        let r = I32x4([self.0[1], self.0[0], self.0[0], self.0[1]]);
        assert(r@ =~= seq![self@[1], self@[0], self@[0], self@[1]]);
        r
    }

    /// Constructs a new vector from the third, first, first, and second
    /// lanes in this vector, respectively.
    pub fn zxxy(self) -> (r: I32x4)
        ensures
            r@ == seq![self@[2], self@[0], self@[0], self@[1]],
    {
        let r = I32x4([self.0[2], self.0[0], self.0[0], self.0[1]]);
        assert(r@ =~= seq![self@[2], self@[0], self@[0], self@[1]]);
        r
    }

    /// Constructs a new vector from the fourth, first, first, and second
    /// lanes in this vector, respectively.
    pub fn wxxy(self) -> (r: I32x4)
        ensures
            r@ == seq![self@[3], self@[0], self@[0], self@[1]],
    {
        let r = I32x4([self.0[3], self.0[0], self.0[0], self.0[1]]);
        assert(r@ =~= seq![self@[3], self@[0], self@[0], self@[1]]);
        r
    }

    /// Constructs a new vector from the first, second, first, and second
    /// lanes in this vector, respectively.
    pub fn xyxy(self) -> (r: I32x4)
        ensures
            r@ == seq![self@[0], self@[1], self@[0], self@[1]],
    {
        let r = I32x4([self.0[0], self.0[1], self.0[0], self.0[1]]);
        assert(r@ =~= seq![self@[0], self@[1], self@[0], self@[1]]);
        r
    }

    /// Constructs a new vector from the second, second, first, and second
    /// lanes in this vector, respectively.
    pub fn yyxy(self) -> (r: I32x4)
        ensures
            r@ == seq![self@[1], self@[1], self@[0], self@[1]],
    {
        let r = I32x4([self.0[1], self.0[1], self.0[0], self.0[1]]);
        assert(r@ =~= seq![self@[1], self@[1], self@[0], self@[1]]);
        r
    }

    /// Constructs a new vector from the third, second, first, and second
    /// lanes in this vector, respectively.
    pub fn zyxy(self) -> (r: I32x4)
        ensures
            r@ == seq![self@[2], self@[1], self@[0], self@[1]],
    {
        let r = I32x4([self.0[2], self.0[1], self.0[0], self.0[1]]);
        assert(r@ =~= seq![self@[2], self@[1], self@[0], self@[1]]);
        r
    }

    /// Constructs a new vector from the fourth, second, first, and second
    /// lanes in this vector, respectively.
    pub fn wyxy(self) -> (r: I32x4)
        ensures
            r@ == seq![self@[3], self@[1], self@[0], self@[1]],
    {
        let r = I32x4([self.0[3], self.0[1], self.0[0], self.0[1]]);
        assert(r@ =~= seq![self@[3], self@[1], self@[0], self@[1]]);
        r
    }

    /// Constructs a new vector from the first, third, first, and second
    /// lanes in this vector, respectively.
    pub fn xzxy(self) -> (r: I32x4)
        ensures
            r@ == seq![self@[0], self@[2], self@[0], self@[1]],
    {
        let r = I32x4([self.0[0], self.0[2], self.0[0], self.0[1]]);
        assert(r@ =~= seq![self@[0], self@[2], self@[0], self@[1]]);
        r
    }

    /// Constructs a new vector from the second, third, first, and second
    /// lanes in this vector, respectively.
    pub fn yzxy(self) -> (r: I32x4)
        ensures
            r@ == seq![self@[1], self@[2], self@[0], self@[1]],
    {
        let r = I32x4([self.0[1], self.0[2], self.0[0], self.0[1]]);
        assert(r@ =~= seq![self@[1], self@[2], self@[0], self@[1]]);
        r
    }

    /// Constructs a new vector from the third, third, first, and second
    /// lanes in this vector, respectively.
    pub fn zzxy(self) -> (r: I32x4)
        ensures
            r@ == seq![self@[2], self@[2], self@[0], self@[1]],
    {
        let r = I32x4([self.0[2], self.0[2], self.0[0], self.0[1]]);
        assert(r@ =~= seq![self@[2], self@[2], self@[0], self@[1]]);
        r
    }

    /// Constructs a new vector from the fourth, third, first, and second
    /// lanes in this vector, respectively.
    pub fn wzxy(self) -> (r: I32x4)
        ensures
            r@ == seq![self@[3], self@[2], self@[0], self@[1]],
    {
        let r = I32x4([self.0[3], self.0[2], self.0[0], self.0[1]]);
        assert(r@ =~= seq![self@[3], self@[2], self@[0], self@[1]]);
        r
    }

    /// Constructs a new vector from the first, fourth, first, and second
    /// lanes in this vector, respectively.
    pub fn xwxy(self) -> (r: I32x4)
        ensures
            r@ == seq![self@[0], self@[3], self@[0], self@[1]],
    {
        let r = I32x4([self.0[0], self.0[3], self.0[0], self.0[1]]);
        assert(r@ =~= seq![self@[0], self@[3], self@[0], self@[1]]);
        r
    }

    /// Constructs a new vector from the second, fourth, first, and second
    /// lanes in this vector, respectively.
    pub fn ywxy(self) -> (r: I32x4)
        ensures
            r@ == seq![self@[1], self@[3], self@[0], self@[1]],
    {
        let r = I32x4([self.0[1], self.0[3], self.0[0], self.0[1]]);
        assert(r@ =~= seq![self@[1], self@[3], self@[0], self@[1]]);
        r
    }

    /// Constructs a new vector from the third, fourth, first, and second
    /// lanes in this vector, respectively.
    pub fn zwxy(self) -> (r: I32x4)
        ensures
            r@ == seq![self@[2], self@[3], self@[0], self@[1]],
    {
        let r = I32x4([self.0[2], self.0[3], self.0[0], self.0[1]]);
        assert(r@ =~= seq![self@[2], self@[3], self@[0], self@[1]]);
        r
    }

    /// Constructs a new vector from the fourth, fourth, first, and second
    /// lanes in this vector, respectively.
    pub fn wwxy(self) -> (r: I32x4)
        ensures
            r@ == seq![self@[3], self@[3], self@[0], self@[1]],
    {
        let r = I32x4([self.0[3], self.0[3], self.0[0], self.0[1]]);
        assert(r@ =~= seq![self@[3], self@[3], self@[0], self@[1]]);
        r
    }

    /// Constructs a new vector from the first, first, second, and second
    /// lanes in this vector, respectively.
    pub fn xxyy(self) -> (r: I32x4)
        ensures
            r@ == seq![self@[0], self@[0], self@[1], self@[1]],
    {
        let r = I32x4([self.0[0], self.0[0], self.0[1], self.0[1]]);
        assert(r@ =~= seq![self@[0], self@[0], self@[1], self@[1]]);
        r
    }

    /// Constructs a new vector from the second, first, second, and second
    /// lanes in this vector, respectively.
    pub fn yxyy(self) -> (r: I32x4)
        ensures
            r@ == seq![self@[1], self@[0], self@[1], self@[1]],
    {
        let r = I32x4([self.0[1], self.0[0], self.0[1], self.0[1]]);
        assert(r@ =~= seq![self@[1], self@[0], self@[1], self@[1]]);
        r
    }

    /// Constructs a new vector from the third, first, second, and second
    /// lanes in this vector, respectively.
    pub fn zxyy(self) -> (r: I32x4)
        ensures
            r@ == seq![self@[2], self@[0], self@[1], self@[1]],
    {
        let r = I32x4([self.0[2], self.0[0], self.0[1], self.0[1]]);
        assert(r@ =~= seq![self@[2], self@[0], self@[1], self@[1]]);
        r
    }

    /// Constructs a new vector from the fourth, first, second, and second
    /// lanes in this vector, respectively.
    pub fn wxyy(self) -> (r: I32x4)
        ensures
            r@ == seq![self@[3], self@[0], self@[1], self@[1]],
    {
        let r = I32x4([self.0[3], self.0[0], self.0[1], self.0[1]]);
        assert(r@ =~= seq![self@[3], self@[0], self@[1], self@[1]]);
        r
    }

    /// Constructs a new vector from the first, second, second, and second
    /// lanes in this vector, respectively.
    pub fn xyyy(self) -> (r: I32x4)
        ensures
            r@ == seq![self@[0], self@[1], self@[1], self@[1]],
    {
        let r = I32x4([self.0[0], self.0[1], self.0[1], self.0[1]]);
        assert(r@ =~= seq![self@[0], self@[1], self@[1], self@[1]]);
        r
    }

    /// Constructs a new vector from the second, second, second, and second
    /// lanes in this vector, respectively.
    pub fn yyyy(self) -> (r: I32x4)
        ensures
            r@ == seq![self@[1], self@[1], self@[1], self@[1]],
    {
        let r = I32x4([self.0[1], self.0[1], self.0[1], self.0[1]]);
        assert(r@ =~= seq![self@[1], self@[1], self@[1], self@[1]]);
        r
    }

    /// Constructs a new vector from the third, second, second, and second
    /// lanes in this vector, respectively.
    pub fn zyyy(self) -> (r: I32x4)
        ensures
            r@ == seq![self@[2], self@[1], self@[1], self@[1]],
    {
        let r = I32x4([self.0[2], self.0[1], self.0[1], self.0[1]]);
        assert(r@ =~= seq![self@[2], self@[1], self@[1], self@[1]]);
        r
    }

    /// Constructs a new vector from the fourth, second, second, and second
    /// lanes in this vector, respectively.
    pub fn wyyy(self) -> (r: I32x4)
        ensures
            r@ == seq![self@[3], self@[1], self@[1], self@[1]],
    {
        let r = I32x4([self.0[3], self.0[1], self.0[1], self.0[1]]);
        assert(r@ =~= seq![self@[3], self@[1], self@[1], self@[1]]);
        r
    }

    /// Constructs a new vector from the first, third, second, and second
    /// lanes in this vector, respectively.
    pub fn xzyy(self) -> (r: I32x4)
        ensures
            r@ == seq![self@[0], self@[2], self@[1], self@[1]],
    {
        let r = I32x4([self.0[0], self.0[2], self.0[1], self.0[1]]);
        assert(r@ =~= seq![self@[0], self@[2], self@[1], self@[1]]);
        r
    }

    /// Constructs a new vector from the second, third, second, and second
    /// lanes in this vector, respectively.
    pub fn yzyy(self) -> (r: I32x4)
        ensures
            r@ == seq![self@[1], self@[2], self@[1], self@[1]],
    {
        let r = I32x4([self.0[1], self.0[2], self.0[1], self.0[1]]);
        assert(r@ =~= seq![self@[1], self@[2], self@[1], self@[1]]);
        r
    }

    /// Constructs a new vector from the third, third, second, and second
    /// lanes in this vector, respectively.
    pub fn zzyy(self) -> (r: I32x4)
        ensures
            r@ == seq![self@[2], self@[2], self@[1], self@[1]],
    {
        let r = I32x4([self.0[2], self.0[2], self.0[1], self.0[1]]);
        assert(r@ =~= seq![self@[2], self@[2], self@[1], self@[1]]);
        r
    }

    /// Constructs a new vector from the fourth, third, second, and second
    /// lanes in this vector, respectively.
    pub fn wzyy(self) -> (r: I32x4)
        ensures
            r@ == seq![self@[3], self@[2], self@[1], self@[1]],
    {
        let r = I32x4([self.0[3], self.0[2], self.0[1], self.0[1]]);
        assert(r@ =~= seq![self@[3], self@[2], self@[1], self@[1]]);
        r
    }

    /// Constructs a new vector from the first, fourth, second, and second
    /// lanes in this vector, respectively.
    pub fn xwyy(self) -> (r: I32x4)
        ensures
            r@ == seq![self@[0], self@[3], self@[1], self@[1]],
    {
        let r = I32x4([self.0[0], self.0[3], self.0[1], self.0[1]]);
        assert(r@ =~= seq![self@[0], self@[3], self@[1], self@[1]]);
        r
    }

    /// Constructs a new vector from the second, fourth, second, and second
    /// lanes in this vector, respectively.
    pub fn ywyy(self) -> (r: I32x4)
        ensures
            r@ == seq![self@[1], self@[3], self@[1], self@[1]],
    {
        let r = I32x4([self.0[1], self.0[3], self.0[1], self.0[1]]);
        assert(r@ =~= seq![self@[1], self@[3], self@[1], self@[1]]);
        r
    }

    /// Constructs a new vector from the third, fourth, second, and second
    /// lanes in this vector, respectively.
    pub fn zwyy(self) -> (r: I32x4)
        ensures
            r@ == seq![self@[2], self@[3], self@[1], self@[1]],
    {
        let r = I32x4([self.0[2], self.0[3], self.0[1], self.0[1]]);
        assert(r@ =~= seq![self@[2], self@[3], self@[1], self@[1]]);
        r
    }

    /// Constructs a new vector from the fourth, fourth, second, and second
    /// lanes in this vector, respectively.
    pub fn wwyy(self) -> (r: I32x4)
        ensures
            r@ == seq![self@[3], self@[3], self@[1], self@[1]],
    {
        let r = I32x4([self.0[3], self.0[3], self.0[1], self.0[1]]);
        assert(r@ =~= seq![self@[3], self@[3], self@[1], self@[1]]);
        r
    }

    /// Constructs a new vector from the first, first, third, and second
    /// lanes in this vector, respectively.
    pub fn xxzy(self) -> (r: I32x4)
        ensures
            r@ == seq![self@[0], self@[0], self@[2], self@[1]],
    {
        let r = I32x4([self.0[0], self.0[0], self.0[2], self.0[1]]);
        assert(r@ =~= seq![self@[0], self@[0], self@[2], self@[1]]);
        r
    }

    /// Constructs a new vector from the second, first, third, and second
    /// lanes in this vector, respectively.
    pub fn yxzy(self) -> (r: I32x4)
        ensures
            r@ == seq![self@[1], self@[0], self@[2], self@[1]],
    {
        let r = I32x4([self.0[1], self.0[0], self.0[2], self.0[1]]);
        assert(r@ =~= seq![self@[1], self@[0], self@[2], self@[1]]);
        r
    }

    /// Constructs a new vector from the third, first, third, and second
    /// lanes in this vector, respectively.
    pub fn zxzy(self) -> (r: I32x4)
        ensures
            r@ == seq![self@[2], self@[0], self@[2], self@[1]],
    {
        let r = I32x4([self.0[2], self.0[0], self.0[2], self.0[1]]);
        assert(r@ =~= seq![self@[2], self@[0], self@[2], self@[1]]);
        r
    }

    /// Constructs a new vector from the fourth, first, third, and second
    /// lanes in this vector, respectively.
    pub fn wxzy(self) -> (r: I32x4)
        ensures
            r@ == seq![self@[3], self@[0], self@[2], self@[1]],
    {
        let r = I32x4([self.0[3], self.0[0], self.0[2], self.0[1]]);
        assert(r@ =~= seq![self@[3], self@[0], self@[2], self@[1]]);
        r
    }

    /// Constructs a new vector from the first, second, third, and second
    /// lanes in this vector, respectively.
    pub fn xyzy(self) -> (r: I32x4)
        ensures
            r@ == seq![self@[0], self@[1], self@[2], self@[1]],
    {
        let r = I32x4([self.0[0], self.0[1], self.0[2], self.0[1]]);
        assert(r@ =~= seq![self@[0], self@[1], self@[2], self@[1]]);
        r
    }

    /// Constructs a new vector from the second, second, third, and second
    /// lanes in this vector, respectively.
    pub fn yyzy(self) -> (r: I32x4)
        ensures
            r@ == seq![self@[1], self@[1], self@[2], self@[1]],
    {
        let r = I32x4([self.0[1], self.0[1], self.0[2], self.0[1]]);
        assert(r@ =~= seq![self@[1], self@[1], self@[2], self@[1]]);
        r
    }

    /// Constructs a new vector from the third, second, third, and second
    /// lanes in this vector, respectively.
    pub fn zyzy(self) -> (r: I32x4)
        ensures
            r@ == seq![self@[2], self@[1], self@[2], self@[1]],
    {
        let r = I32x4([self.0[2], self.0[1], self.0[2], self.0[1]]);
        assert(r@ =~= seq![self@[2], self@[1], self@[2], self@[1]]);
        r
    }

    /// Constructs a new vector from the fourth, second, third, and second
    /// lanes in this vector, respectively.
    pub fn wyzy(self) -> (r: I32x4)
        ensures
            r@ == seq![self@[3], self@[1], self@[2], self@[1]],
    {
        let r = I32x4([self.0[3], self.0[1], self.0[2], self.0[1]]);
        assert(r@ =~= seq![self@[3], self@[1], self@[2], self@[1]]);
        r
    }

    /// Constructs a new vector from the first, third, third, and second
    /// lanes in this vector, respectively.
    pub fn xzzy(self) -> (r: I32x4)
        ensures
            r@ == seq![self@[0], self@[2], self@[2], self@[1]],
    {
        let r = I32x4([self.0[0], self.0[2], self.0[2], self.0[1]]);
        assert(r@ =~= seq![self@[0], self@[2], self@[2], self@[1]]);
        r
    }

    /// Constructs a new vector from the second, third, third, and second
    /// lanes in this vector, respectively.
    pub fn yzzy(self) -> (r: I32x4)
        ensures
            r@ == seq![self@[1], self@[2], self@[2], self@[1]],
    {
        let r = I32x4([self.0[1], self.0[2], self.0[2], self.0[1]]);
        assert(r@ =~= seq![self@[1], self@[2], self@[2], self@[1]]);
        r
    }

    /// Constructs a new vector from the third, third, third, and second
    /// lanes in this vector, respectively.
    pub fn zzzy(self) -> (r: I32x4)
        ensures
            r@ == seq![self@[2], self@[2], self@[2], self@[1]],
    {
        let r = I32x4([self.0[2], self.0[2], self.0[2], self.0[1]]);
        assert(r@ =~= seq![self@[2], self@[2], self@[2], self@[1]]);
        r
    }

    /// Constructs a new vector from the fourth, third, third, and second
    /// lanes in this vector, respectively.
    pub fn wzzy(self) -> (r: I32x4)
        ensures
            r@ == seq![self@[3], self@[2], self@[2], self@[1]],
    {
        let r = I32x4([self.0[3], self.0[2], self.0[2], self.0[1]]);
        assert(r@ =~= seq![self@[3], self@[2], self@[2], self@[1]]);
        r
    }

    /// Constructs a new vector from the first, fourth, third, and second
    /// lanes in this vector, respectively.
    pub fn xwzy(self) -> (r: I32x4)
        ensures
            r@ == seq![self@[0], self@[3], self@[2], self@[1]],
    {
        let r = I32x4([self.0[0], self.0[3], self.0[2], self.0[1]]);
        assert(r@ =~= seq![self@[0], self@[3], self@[2], self@[1]]);
        r
    }

    /// Constructs a new vector from the second, fourth, third, and second
    /// lanes in this vector, respectively.
    pub fn ywzy(self) -> (r: I32x4)
        ensures
            r@ == seq![self@[1], self@[3], self@[2], self@[1]],
    {
        let r = I32x4([self.0[1], self.0[3], self.0[2], self.0[1]]);
        assert(r@ =~= seq![self@[1], self@[3], self@[2], self@[1]]);
        r
    }

    /// Constructs a new vector from the third, fourth, third, and second
    /// lanes in this vector, respectively.
    pub fn zwzy(self) -> (r: I32x4)
        ensures
            r@ == seq![self@[2], self@[3], self@[2], self@[1]],
    {
        let r = I32x4([self.0[2], self.0[3], self.0[2], self.0[1]]);
        assert(r@ =~= seq![self@[2], self@[3], self@[2], self@[1]]);
        r
    }

    /// Constructs a new vector from the fourth, fourth, third, and second
    /// lanes in this vector, respectively.
    pub fn wwzy(self) -> (r: I32x4)
        ensures
            r@ == seq![self@[3], self@[3], self@[2], self@[1]],
    {
        let r = I32x4([self.0[3], self.0[3], self.0[2], self.0[1]]);
        assert(r@ =~= seq![self@[3], self@[3], self@[2], self@[1]]);
        r
    }

    /// Constructs a new vector from the first, first, fourth, and second
    /// lanes in this vector, respectively.
    pub fn xxwy(self) -> (r: I32x4)
        ensures
            r@ == seq![self@[0], self@[0], self@[3], self@[1]],
    {
        let r = I32x4([self.0[0], self.0[0], self.0[3], self.0[1]]);
        assert(r@ =~= seq![self@[0], self@[0], self@[3], self@[1]]);
        r
    }

    /// Constructs a new vector from the second, first, fourth, and second
    /// lanes in this vector, respectively.
    pub fn yxwy(self) -> (r: I32x4)
        ensures
            r@ == seq![self@[1], self@[0], self@[3], self@[1]],
    {
        let r = I32x4([self.0[1], self.0[0], self.0[3], self.0[1]]);
        assert(r@ =~= seq![self@[1], self@[0], self@[3], self@[1]]);
        r
    }

    /// Constructs a new vector from the third, first, fourth, and second
    /// lanes in this vector, respectively.
    pub fn zxwy(self) -> (r: I32x4)
        ensures
            r@ == seq![self@[2], self@[0], self@[3], self@[1]],
    {
        let r = I32x4([self.0[2], self.0[0], self.0[3], self.0[1]]);
        assert(r@ =~= seq![self@[2], self@[0], self@[3], self@[1]]);
        r
    }

    /// Constructs a new vector from the fourth, first, fourth, and second
    /// lanes in this vector, respectively.
    pub fn wxwy(self) -> (r: I32x4)
        ensures
            r@ == seq![self@[3], self@[0], self@[3], self@[1]],
    {
        let r = I32x4([self.0[3], self.0[0], self.0[3], self.0[1]]);
        assert(r@ =~= seq![self@[3], self@[0], self@[3], self@[1]]);
        r
    }

    /// Constructs a new vector from the first, second, fourth, and second
    /// lanes in this vector, respectively.
    pub fn xywy(self) -> (r: I32x4)
        ensures
            r@ == seq![self@[0], self@[1], self@[3], self@[1]],
    {
        let r = I32x4([self.0[0], self.0[1], self.0[3], self.0[1]]);
        assert(r@ =~= seq![self@[0], self@[1], self@[3], self@[1]]);
        r
    }

    /// Constructs a new vector from the second, second, fourth, and second
    /// lanes in this vector, respectively.
    pub fn yywy(self) -> (r: I32x4)
        ensures
            r@ == seq![self@[1], self@[1], self@[3], self@[1]],
    {
        let r = I32x4([self.0[1], self.0[1], self.0[3], self.0[1]]);
        assert(r@ =~= seq![self@[1], self@[1], self@[3], self@[1]]);
        r
    }

    /// Constructs a new vector from the third, second, fourth, and second
    /// lanes in this vector, respectively.
    pub fn zywy(self) -> (r: I32x4)
        ensures
            r@ == seq![self@[2], self@[1], self@[3], self@[1]],
    {
        let r = I32x4([self.0[2], self.0[1], self.0[3], self.0[1]]);
        assert(r@ =~= seq![self@[2], self@[1], self@[3], self@[1]]);
        r
    }

    /// Constructs a new vector from the fourth, second, fourth, and second
    /// lanes in this vector, respectively.
    pub fn wywy(self) -> (r: I32x4)
        ensures
            r@ == seq![self@[3], self@[1], self@[3], self@[1]],
    {
        let r = I32x4([self.0[3], self.0[1], self.0[3], self.0[1]]);
        assert(r@ =~= seq![self@[3], self@[1], self@[3], self@[1]]);
        r
    }

    /// Constructs a new vector from the first, third, fourth, and second
    /// lanes in this vector, respectively.
    pub fn xzwy(self) -> (r: I32x4)
        ensures
            r@ == seq![self@[0], self@[2], self@[3], self@[1]],
    {
        let r = I32x4([self.0[0], self.0[2], self.0[3], self.0[1]]);
        assert(r@ =~= seq![self@[0], self@[2], self@[3], self@[1]]);
        r
    }

    /// Constructs a new vector from the second, third, fourth, and second
    /// lanes in this vector, respectively.
    pub fn yzwy(self) -> (r: I32x4)
        ensures
            r@ == seq![self@[1], self@[2], self@[3], self@[1]],
    {
        let r = I32x4([self.0[1], self.0[2], self.0[3], self.0[1]]);
        assert(r@ =~= seq![self@[1], self@[2], self@[3], self@[1]]);
        r
    }

    /// Constructs a new vector from the third, third, fourth, and second
    /// lanes in this vector, respectively.
    pub fn zzwy(self) -> (r: I32x4)
        ensures
            r@ == seq![self@[2], self@[2], self@[3], self@[1]],
    {
        let r = I32x4([self.0[2], self.0[2], self.0[3], self.0[1]]);
        assert(r@ =~= seq![self@[2], self@[2], self@[3], self@[1]]);
        r
    }

    /// Constructs a new vector from the fourth, third, fourth, and second
    /// lanes in this vector, respectively.
    pub fn wzwy(self) -> (r: I32x4)
        ensures
            r@ == seq![self@[3], self@[2], self@[3], self@[1]],
    {
        let r = I32x4([self.0[3], self.0[2], self.0[3], self.0[1]]);
        assert(r@ =~= seq![self@[3], self@[2], self@[3], self@[1]]);
        r
    }

    /// Constructs a new vector from the first, fourth, fourth, and second
    /// lanes in this vector, respectively.
    pub fn xwwy(self) -> (r: I32x4)
        ensures
            r@ == seq![self@[0], self@[3], self@[3], self@[1]],
    {
        let r = I32x4([self.0[0], self.0[3], self.0[3], self.0[1]]);
        assert(r@ =~= seq![self@[0], self@[3], self@[3], self@[1]]);
        r
    }

    /// Constructs a new vector from the second, fourth, fourth, and second
    /// lanes in this vector, respectively.
    pub fn ywwy(self) -> (r: I32x4)
        ensures
            r@ == seq![self@[1], self@[3], self@[3], self@[1]],
    {
        let r = I32x4([self.0[1], self.0[3], self.0[3], self.0[1]]);
        assert(r@ =~= seq![self@[1], self@[3], self@[3], self@[1]]);
        r
    }

    /// Constructs a new vector from the third, fourth, fourth, and second
    /// lanes in this vector, respectively.
    pub fn zwwy(self) -> (r: I32x4)
        ensures
            r@ == seq![self@[2], self@[3], self@[3], self@[1]],
    {
        let r = I32x4([self.0[2], self.0[3], self.0[3], self.0[1]]);
        assert(r@ =~= seq![self@[2], self@[3], self@[3], self@[1]]);
        r
    }

    /// Constructs a new vector from the fourth, fourth, fourth, and second
    /// lanes in this vector, respectively.
    pub fn wwwy(self) -> (r: I32x4)
        ensures
            r@ == seq![self@[3], self@[3], self@[3], self@[1]],
    {
        let r = I32x4([self.0[3], self.0[3], self.0[3], self.0[1]]);
        assert(r@ =~= seq![self@[3], self@[3], self@[3], self@[1]]);
        r
    }

    /// Constructs a new vector from the first, first, first, and third
    /// lanes in this vector, respectively.
    pub fn xxxz(self) -> (r: I32x4)
        ensures
            r@ == seq![self@[0], self@[0], self@[0], self@[2]],
    {
        let r = I32x4([self.0[0], self.0[0], self.0[0], self.0[2]]);
        assert(r@ =~= seq![self@[0], self@[0], self@[0], self@[2]]);
        r
    }

    /// Constructs a new vector from the second, first, first, and third
    /// lanes in this vector, respectively.
    pub fn yxxz(self) -> (r: I32x4)
        ensures
            r@ == seq![self@[1], self@[0], self@[0], self@[2]],
    {
        let r = I32x4([self.0[1], self.0[0], self.0[0], self.0[2]]);
        assert(r@ =~= seq![self@[1], self@[0], self@[0], self@[2]]);
        r
    }

    /// Constructs a new vector from the third, first, first, and third
    /// lanes in this vector, respectively.
    pub fn zxxz(self) -> (r: I32x4)
        ensures
            r@ == seq![self@[2], self@[0], self@[0], self@[2]],
    {
        let r = I32x4([self.0[2], self.0[0], self.0[0], self.0[2]]);
        assert(r@ =~= seq![self@[2], self@[0], self@[0], self@[2]]);
        r
    }

    /// Constructs a new vector from the fourth, first, first, and third
    /// lanes in this vector, respectively.
    pub fn wxxz(self) -> (r: I32x4)
        ensures
            r@ == seq![self@[3], self@[0], self@[0], self@[2]],
    {
        let r = I32x4([self.0[3], self.0[0], self.0[0], self.0[2]]);
        assert(r@ =~= seq![self@[3], self@[0], self@[0], self@[2]]);
        r
    }

    /// Constructs a new vector from the first, second, first, and third
    /// lanes in this vector, respectively.
    pub fn xyxz(self) -> (r: I32x4)
        ensures
            r@ == seq![self@[0], self@[1], self@[0], self@[2]],
    {
        let r = I32x4([self.0[0], self.0[1], self.0[0], self.0[2]]);
        assert(r@ =~= seq![self@[0], self@[1], self@[0], self@[2]]);
        r
    }

    /// Constructs a new vector from the second, second, first, and third
    /// lanes in this vector, respectively.
    pub fn yyxz(self) -> (r: I32x4)
        ensures
            r@ == seq![self@[1], self@[1], self@[0], self@[2]],
    {
        let r = I32x4([self.0[1], self.0[1], self.0[0], self.0[2]]);
        assert(r@ =~= seq![self@[1], self@[1], self@[0], self@[2]]);
        r
    }

    /// Constructs a new vector from the third, second, first, and third
    /// lanes in this vector, respectively.
    pub fn zyxz(self) -> (r: I32x4)
        ensures
            r@ == seq![self@[2], self@[1], self@[0], self@[2]],
    {
        let r = I32x4([self.0[2], self.0[1], self.0[0], self.0[2]]);
        assert(r@ =~= seq![self@[2], self@[1], self@[0], self@[2]]);
        r
    }

    /// Constructs a new vector from the fourth, second, first, and third
    /// lanes in this vector, respectively.
    pub fn wyxz(self) -> (r: I32x4)
        ensures
            r@ == seq![self@[3], self@[1], self@[0], self@[2]],
    {
        let r = I32x4([self.0[3], self.0[1], self.0[0], self.0[2]]);
        assert(r@ =~= seq![self@[3], self@[1], self@[0], self@[2]]);
        r
    }

    /// Constructs a new vector from the first, third, first, and third
    /// lanes in this vector, respectively.
    pub fn xzxz(self) -> (r: I32x4)
        ensures
            r@ == seq![self@[0], self@[2], self@[0], self@[2]],
    {
        let r = I32x4([self.0[0], self.0[2], self.0[0], self.0[2]]);
        assert(r@ =~= seq![self@[0], self@[2], self@[0], self@[2]]);
        r
    }

    /// Constructs a new vector from the second, third, first, and third
    /// lanes in this vector, respectively.
    pub fn yzxz(self) -> (r: I32x4)
        ensures
            r@ == seq![self@[1], self@[2], self@[0], self@[2]],
    {
        let r = I32x4([self.0[1], self.0[2], self.0[0], self.0[2]]);
        assert(r@ =~= seq![self@[1], self@[2], self@[0], self@[2]]);
        r
    }

    /// Constructs a new vector from the third, third, first, and third
    /// lanes in this vector, respectively.
    pub fn zzxz(self) -> (r: I32x4)
        ensures
            r@ == seq![self@[2], self@[2], self@[0], self@[2]],
    {
        let r = I32x4([self.0[2], self.0[2], self.0[0], self.0[2]]);
        assert(r@ =~= seq![self@[2], self@[2], self@[0], self@[2]]);
        r
    }

    /// Constructs a new vector from the fourth, third, first, and third
    /// lanes in this vector, respectively.
    pub fn wzxz(self) -> (r: I32x4)
        ensures
            r@ == seq![self@[3], self@[2], self@[0], self@[2]],
    {
        let r = I32x4([self.0[3], self.0[2], self.0[0], self.0[2]]);
        assert(r@ =~= seq![self@[3], self@[2], self@[0], self@[2]]);
        r
    }

    /// Constructs a new vector from the first, fourth, first, and third
    /// lanes in this vector, respectively.
    pub fn xwxz(self) -> (r: I32x4)
        ensures
            r@ == seq![self@[0], self@[3], self@[0], self@[2]],
    {
        let r = I32x4([self.0[0], self.0[3], self.0[0], self.0[2]]);
        assert(r@ =~= seq![self@[0], self@[3], self@[0], self@[2]]);
        r
    }

    /// Constructs a new vector from the second, fourth, first, and third
    /// lanes in this vector, respectively.
    pub fn ywxz(self) -> (r: I32x4)
        ensures
            r@ == seq![self@[1], self@[3], self@[0], self@[2]],
    {
        let r = I32x4([self.0[1], self.0[3], self.0[0], self.0[2]]);
        assert(r@ =~= seq![self@[1], self@[3], self@[0], self@[2]]);
        r
    }

    /// Constructs a new vector from the third, fourth, first, and third
    /// lanes in this vector, respectively.
    pub fn zwxz(self) -> (r: I32x4)
        ensures
            r@ == seq![self@[2], self@[3], self@[0], self@[2]],
    {
        let r = I32x4([self.0[2], self.0[3], self.0[0], self.0[2]]);
        assert(r@ =~= seq![self@[2], self@[3], self@[0], self@[2]]);
        r
    }

    /// Constructs a new vector from the fourth, fourth, first, and third
    /// lanes in this vector, respectively.
    pub fn wwxz(self) -> (r: I32x4)
        ensures
            r@ == seq![self@[3], self@[3], self@[0], self@[2]],
    {
        let r = I32x4([self.0[3], self.0[3], self.0[0], self.0[2]]);
        assert(r@ =~= seq![self@[3], self@[3], self@[0], self@[2]]);
        r
    }

    /// Constructs a new vector from the first, first, second, and third
    /// lanes in this vector, respectively.
    pub fn xxyz(self) -> (r: I32x4)
        ensures
            r@ == seq![self@[0], self@[0], self@[1], self@[2]],
    {
        let r = I32x4([self.0[0], self.0[0], self.0[1], self.0[2]]);
        assert(r@ =~= seq![self@[0], self@[0], self@[1], self@[2]]);
        r
    }

    /// Constructs a new vector from the second, first, second, and third
    /// lanes in this vector, respectively.
    pub fn yxyz(self) -> (r: I32x4)
        ensures
            r@ == seq![self@[1], self@[0], self@[1], self@[2]],
    {
        let r = I32x4([self.0[1], self.0[0], self.0[1], self.0[2]]);
        assert(r@ =~= seq![self@[1], self@[0], self@[1], self@[2]]);
        r
    }

    /// Constructs a new vector from the third, first, second, and third
    /// lanes in this vector, respectively.
    pub fn zxyz(self) -> (r: I32x4)
        ensures
            r@ == seq![self@[2], self@[0], self@[1], self@[2]],
    {
        let r = I32x4([self.0[2], self.0[0], self.0[1], self.0[2]]);
        assert(r@ =~= seq![self@[2], self@[0], self@[1], self@[2]]);
        r
    }

    /// Constructs a new vector from the fourth, first, second, and third
    /// lanes in this vector, respectively.
    pub fn wxyz(self) -> (r: I32x4)
        ensures
            r@ == seq![self@[3], self@[0], self@[1], self@[2]],
    {
        let r = I32x4([self.0[3], self.0[0], self.0[1], self.0[2]]);
        assert(r@ =~= seq![self@[3], self@[0], self@[1], self@[2]]);
        r
    }

    /// Constructs a new vector from the first, second, second, and third
    /// lanes in this vector, respectively.
    pub fn xyyz(self) -> (r: I32x4)
        ensures
            r@ == seq![self@[0], self@[1], self@[1], self@[2]],
    {
        let r = I32x4([self.0[0], self.0[1], self.0[1], self.0[2]]);
        assert(r@ =~= seq![self@[0], self@[1], self@[1], self@[2]]);
        r
    }

    /// Constructs a new vector from the second, second, second, and third
    /// lanes in this vector, respectively.
    pub fn yyyz(self) -> (r: I32x4)
        ensures
            r@ == seq![self@[1], self@[1], self@[1], self@[2]],
    {
        let r = I32x4([self.0[1], self.0[1], self.0[1], self.0[2]]);
        assert(r@ =~= seq![self@[1], self@[1], self@[1], self@[2]]);
        r
    }

    /// Constructs a new vector from the third, second, second, and third
    /// lanes in this vector, respectively.
    pub fn zyyz(self) -> (r: I32x4)
        ensures
            r@ == seq![self@[2], self@[1], self@[1], self@[2]],
    {
        let r = I32x4([self.0[2], self.0[1], self.0[1], self.0[2]]);
        assert(r@ =~= seq![self@[2], self@[1], self@[1], self@[2]]);
        r
    }

    /// Constructs a new vector from the fourth, second, second, and third
    /// lanes in this vector, respectively.
    pub fn wyyz(self) -> (r: I32x4)
        ensures
            r@ == seq![self@[3], self@[1], self@[1], self@[2]],
    {
        let r = I32x4([self.0[3], self.0[1], self.0[1], self.0[2]]);
        assert(r@ =~= seq![self@[3], self@[1], self@[1], self@[2]]);
        r
    }

    /// Constructs a new vector from the first, third, second, and third
    /// lanes in this vector, respectively.
    pub fn xzyz(self) -> (r: I32x4)
        ensures
            r@ == seq![self@[0], self@[2], self@[1], self@[2]],
    {
        let r = I32x4([self.0[0], self.0[2], self.0[1], self.0[2]]);
        assert(r@ =~= seq![self@[0], self@[2], self@[1], self@[2]]);
        r
    }

    /// Constructs a new vector from the second, third, second, and third
    /// lanes in this vector, respectively.
    pub fn yzyz(self) -> (r: I32x4)
        ensures
            r@ == seq![self@[1], self@[2], self@[1], self@[2]],
    {
        let r = I32x4([self.0[1], self.0[2], self.0[1], self.0[2]]);
        assert(r@ =~= seq![self@[1], self@[2], self@[1], self@[2]]);
        r
    }

    /// Constructs a new vector from the third, third, second, and third
    /// lanes in this vector, respectively.
    pub fn zzyz(self) -> (r: I32x4)
        ensures
            r@ == seq![self@[2], self@[2], self@[1], self@[2]],
    {
        let r = I32x4([self.0[2], self.0[2], self.0[1], self.0[2]]);
        assert(r@ =~= seq![self@[2], self@[2], self@[1], self@[2]]);
        r
    }

    /// Constructs a new vector from the fourth, third, second, and third
    /// lanes in this vector, respectively.
    pub fn wzyz(self) -> (r: I32x4)
        ensures
            r@ == seq![self@[3], self@[2], self@[1], self@[2]],
    {
        let r = I32x4([self.0[3], self.0[2], self.0[1], self.0[2]]);
        assert(r@ =~= seq![self@[3], self@[2], self@[1], self@[2]]);
        r
    }

    /// Constructs a new vector from the first, fourth, second, and third
    /// lanes in this vector, respectively.
    pub fn xwyz(self) -> (r: I32x4)
        ensures
            r@ == seq![self@[0], self@[3], self@[1], self@[2]],
    {
        let r = I32x4([self.0[0], self.0[3], self.0[1], self.0[2]]);
        assert(r@ =~= seq![self@[0], self@[3], self@[1], self@[2]]);
        r
    }

    /// Constructs a new vector from the second, fourth, second, and third
    /// lanes in this vector, respectively.
    pub fn ywyz(self) -> (r: I32x4)
        ensures
            r@ == seq![self@[1], self@[3], self@[1], self@[2]],
    {
        let r = I32x4([self.0[1], self.0[3], self.0[1], self.0[2]]);
        assert(r@ =~= seq![self@[1], self@[3], self@[1], self@[2]]);
        r
    }

    /// Constructs a new vector from the third, fourth, second, and third
    /// lanes in this vector, respectively.
    pub fn zwyz(self) -> (r: I32x4)
        ensures
            r@ == seq![self@[2], self@[3], self@[1], self@[2]],
    {
        let r = I32x4([self.0[2], self.0[3], self.0[1], self.0[2]]);
        assert(r@ =~= seq![self@[2], self@[3], self@[1], self@[2]]);
        r
    }

    /// Constructs a new vector from the fourth, fourth, second, and third
    /// lanes in this vector, respectively.
    pub fn wwyz(self) -> (r: I32x4)
        ensures
            r@ == seq![self@[3], self@[3], self@[1], self@[2]],
    {
        let r = I32x4([self.0[3], self.0[3], self.0[1], self.0[2]]);
        assert(r@ =~= seq![self@[3], self@[3], self@[1], self@[2]]);
        r
    }

    /// Constructs a new vector from the first, first, third, and third
    /// lanes in this vector, respectively.
    pub fn xxzz(self) -> (r: I32x4)
        ensures
            r@ == seq![self@[0], self@[0], self@[2], self@[2]],
    {
        let r = I32x4([self.0[0], self.0[0], self.0[2], self.0[2]]);
        assert(r@ =~= seq![self@[0], self@[0], self@[2], self@[2]]);
        r
    }

    /// Constructs a new vector from the second, first, third, and third
    /// lanes in this vector, respectively.
    pub fn yxzz(self) -> (r: I32x4)
        ensures
            r@ == seq![self@[1], self@[0], self@[2], self@[2]],
    {
        let r = I32x4([self.0[1], self.0[0], self.0[2], self.0[2]]);
        assert(r@ =~= seq![self@[1], self@[0], self@[2], self@[2]]);
        r
    }

    /// Constructs a new vector from the third, first, third, and third
    /// lanes in this vector, respectively.
    pub fn zxzz(self) -> (r: I32x4)
        ensures
            r@ == seq![self@[2], self@[0], self@[2], self@[2]],
    {
        let r = I32x4([self.0[2], self.0[0], self.0[2], self.0[2]]);
        assert(r@ =~= seq![self@[2], self@[0], self@[2], self@[2]]);
        r
    }

    /// Constructs a new vector from the fourth, first, third, and third
    /// lanes in this vector, respectively.
    pub fn wxzz(self) -> (r: I32x4)
        ensures
            r@ == seq![self@[3], self@[0], self@[2], self@[2]],
    {
        let r = I32x4([self.0[3], self.0[0], self.0[2], self.0[2]]);
        assert(r@ =~= seq![self@[3], self@[0], self@[2], self@[2]]);
        r
    }

    /// Constructs a new vector from the first, second, third, and third
    /// lanes in this vector, respectively.
    pub fn xyzz(self) -> (r: I32x4)
        ensures
            r@ == seq![self@[0], self@[1], self@[2], self@[2]],
    {
        let r = I32x4([self.0[0], self.0[1], self.0[2], self.0[2]]);
        assert(r@ =~= seq![self@[0], self@[1], self@[2], self@[2]]);
        r
    }

    /// Constructs a new vector from the second, second, third, and third
    /// lanes in this vector, respectively.
    pub fn yyzz(self) -> (r: I32x4)
        ensures
            r@ == seq![self@[1], self@[1], self@[2], self@[2]],
    {
        let r = I32x4([self.0[1], self.0[1], self.0[2], self.0[2]]);
        assert(r@ =~= seq![self@[1], self@[1], self@[2], self@[2]]);
        r
    }

    /// Constructs a new vector from the third, second, third, and third
    /// lanes in this vector, respectively.
    pub fn zyzz(self) -> (r: I32x4)
        ensures
            r@ == seq![self@[2], self@[1], self@[2], self@[2]],
    {
        let r = I32x4([self.0[2], self.0[1], self.0[2], self.0[2]]);
        assert(r@ =~= seq![self@[2], self@[1], self@[2], self@[2]]);
        r
    }

    /// Constructs a new vector from the fourth, second, third, and third
    /// lanes in this vector, respectively.
    pub fn wyzz(self) -> (r: I32x4)
        ensures
            r@ == seq![self@[3], self@[1], self@[2], self@[2]],
    {
        let r = I32x4([self.0[3], self.0[1], self.0[2], self.0[2]]);
        assert(r@ =~= seq![self@[3], self@[1], self@[2], self@[2]]);
        r
    }

    /// Constructs a new vector from the first, third, third, and third
    /// lanes in this vector, respectively.
    pub fn xzzz(self) -> (r: I32x4)
        ensures
            r@ == seq![self@[0], self@[2], self@[2], self@[2]],
    {
        let r = I32x4([self.0[0], self.0[2], self.0[2], self.0[2]]);
        assert(r@ =~= seq![self@[0], self@[2], self@[2], self@[2]]);
        r
    }

    /// Constructs a new vector from the second, third, third, and third
    /// lanes in this vector, respectively.
    pub fn yzzz(self) -> (r: I32x4)
        ensures
            r@ == seq![self@[1], self@[2], self@[2], self@[2]],
    {
        let r = I32x4([self.0[1], self.0[2], self.0[2], self.0[2]]);
        assert(r@ =~= seq![self@[1], self@[2], self@[2], self@[2]]);
        r
    }

    /// Constructs a new vector from the third, third, third, and third
    /// lanes in this vector, respectively.
    pub fn zzzz(self) -> (r: I32x4)
        ensures
            r@ == seq![self@[2], self@[2], self@[2], self@[2]],
    {
        let r = I32x4([self.0[2], self.0[2], self.0[2], self.0[2]]);
        assert(r@ =~= seq![self@[2], self@[2], self@[2], self@[2]]);
        r
    }

    /// Constructs a new vector from the fourth, third, third, and third
    /// lanes in this vector, respectively.
    pub fn wzzz(self) -> (r: I32x4)
        ensures
            r@ == seq![self@[3], self@[2], self@[2], self@[2]],
    {
        let r = I32x4([self.0[3], self.0[2], self.0[2], self.0[2]]);
        assert(r@ =~= seq![self@[3], self@[2], self@[2], self@[2]]);
        r
    }

    /// Constructs a new vector from the first, fourth, third, and third
    /// lanes in this vector, respectively.
    pub fn xwzz(self) -> (r: I32x4)
        ensures
            r@ == seq![self@[0], self@[3], self@[2], self@[2]],
    {
        let r = I32x4([self.0[0], self.0[3], self.0[2], self.0[2]]);
        assert(r@ =~= seq![self@[0], self@[3], self@[2], self@[2]]);
        r
    }

    /// Constructs a new vector from the second, fourth, third, and third
    /// lanes in this vector, respectively.
    pub fn ywzz(self) -> (r: I32x4)
        ensures
            r@ == seq![self@[1], self@[3], self@[2], self@[2]],
    {
        let r = I32x4([self.0[1], self.0[3], self.0[2], self.0[2]]);
        assert(r@ =~= seq![self@[1], self@[3], self@[2], self@[2]]);
        r
    }

    /// Constructs a new vector from the third, fourth, third, and third
    /// lanes in this vector, respectively.
    pub fn zwzz(self) -> (r: I32x4)
        ensures
            r@ == seq![self@[2], self@[3], self@[2], self@[2]],
    {
        let r = I32x4([self.0[2], self.0[3], self.0[2], self.0[2]]);
        assert(r@ =~= seq![self@[2], self@[3], self@[2], self@[2]]);
        r
    }

    /// Constructs a new vector from the fourth, fourth, third, and third
    /// lanes in this vector, respectively.
    pub fn wwzz(self) -> (r: I32x4)
        ensures
            r@ == seq![self@[3], self@[3], self@[2], self@[2]],
    {
        let r = I32x4([self.0[3], self.0[3], self.0[2], self.0[2]]);
        assert(r@ =~= seq![self@[3], self@[3], self@[2], self@[2]]);
        r
    }

    /// Constructs a new vector from the first, first, fourth, and third
    /// lanes in this vector, respectively.
    pub fn xxwz(self) -> (r: I32x4)
        ensures
            r@ == seq![self@[0], self@[0], self@[3], self@[2]],
    {
        let r = I32x4([self.0[0], self.0[0], self.0[3], self.0[2]]);
        assert(r@ =~= seq![self@[0], self@[0], self@[3], self@[2]]);
        r
    }

    /// Constructs a new vector from the second, first, fourth, and third
    /// lanes in this vector, respectively.
    pub fn yxwz(self) -> (r: I32x4)
        ensures
            r@ == seq![self@[1], self@[0], self@[3], self@[2]],
    {
        let r = I32x4([self.0[1], self.0[0], self.0[3], self.0[2]]);
        assert(r@ =~= seq![self@[1], self@[0], self@[3], self@[2]]);
        r
    }

    /// Constructs a new vector from the third, first, fourth, and third
    /// lanes in this vector, respectively.
    pub fn zxwz(self) -> (r: I32x4)
        ensures
            r@ == seq![self@[2], self@[0], self@[3], self@[2]],
    {
        let r = I32x4([self.0[2], self.0[0], self.0[3], self.0[2]]);
        assert(r@ =~= seq![self@[2], self@[0], self@[3], self@[2]]);
        r
    }

    /// Constructs a new vector from the fourth, first, fourth, and third
    /// lanes in this vector, respectively.
    pub fn wxwz(self) -> (r: I32x4)
        ensures
            r@ == seq![self@[3], self@[0], self@[3], self@[2]],
    {
        let r = I32x4([self.0[3], self.0[0], self.0[3], self.0[2]]);
        assert(r@ =~= seq![self@[3], self@[0], self@[3], self@[2]]);
        r
    }

    /// Constructs a new vector from the first, second, fourth, and third
    /// lanes in this vector, respectively.
    pub fn xywz(self) -> (r: I32x4)
        ensures
            r@ == seq![self@[0], self@[1], self@[3], self@[2]],
    {
        let r = I32x4([self.0[0], self.0[1], self.0[3], self.0[2]]);
        assert(r@ =~= seq![self@[0], self@[1], self@[3], self@[2]]);
        r
    }

    /// Constructs a new vector from the second, second, fourth, and third
    /// lanes in this vector, respectively.
    pub fn yywz(self) -> (r: I32x4)
        ensures
            r@ == seq![self@[1], self@[1], self@[3], self@[2]],
    {
        let r = I32x4([self.0[1], self.0[1], self.0[3], self.0[2]]);
        assert(r@ =~= seq![self@[1], self@[1], self@[3], self@[2]]);
        r
    }

    /// Constructs a new vector from the third, second, fourth, and third
    /// lanes in this vector, respectively.
    pub fn zywz(self) -> (r: I32x4)
        ensures
            r@ == seq![self@[2], self@[1], self@[3], self@[2]],
    {
        let r = I32x4([self.0[2], self.0[1], self.0[3], self.0[2]]);
        assert(r@ =~= seq![self@[2], self@[1], self@[3], self@[2]]);
        r
    }

    /// Constructs a new vector from the fourth, second, fourth, and third
    /// lanes in this vector, respectively.
    pub fn wywz(self) -> (r: I32x4)
        ensures
            r@ == seq![self@[3], self@[1], self@[3], self@[2]],
    {
        let r = I32x4([self.0[3], self.0[1], self.0[3], self.0[2]]);
        assert(r@ =~= seq![self@[3], self@[1], self@[3], self@[2]]);
        r
    }

    /// Constructs a new vector from the first, third, fourth, and third
    /// lanes in this vector, respectively.
    pub fn xzwz(self) -> (r: I32x4)
        ensures
            r@ == seq![self@[0], self@[2], self@[3], self@[2]],
    {
        let r = I32x4([self.0[0], self.0[2], self.0[3], self.0[2]]);
        assert(r@ =~= seq![self@[0], self@[2], self@[3], self@[2]]);
        r
    }

    /// Constructs a new vector from the second, third, fourth, and third
    /// lanes in this vector, respectively.
    pub fn yzwz(self) -> (r: I32x4)
        ensures
            r@ == seq![self@[1], self@[2], self@[3], self@[2]],
    {
        let r = I32x4([self.0[1], self.0[2], self.0[3], self.0[2]]);
        assert(r@ =~= seq![self@[1], self@[2], self@[3], self@[2]]);
        r
    }

    /// Constructs a new vector from the third, third, fourth, and third
    /// lanes in this vector, respectively.
    pub fn zzwz(self) -> (r: I32x4)
        ensures
            r@ == seq![self@[2], self@[2], self@[3], self@[2]],
    {
        let r = I32x4([self.0[2], self.0[2], self.0[3], self.0[2]]);
        assert(r@ =~= seq![self@[2], self@[2], self@[3], self@[2]]);
        r
    }

    /// Constructs a new vector from the fourth, third, fourth, and third
    /// lanes in this vector, respectively.
    pub fn wzwz(self) -> (r: I32x4)
        ensures
            r@ == seq![self@[3], self@[2], self@[3], self@[2]],
    {
        let r = I32x4([self.0[3], self.0[2], self.0[3], self.0[2]]);
        assert(r@ =~= seq![self@[3], self@[2], self@[3], self@[2]]);
        r
    }

    /// Constructs a new vector from the first, fourth, fourth, and third
    /// lanes in this vector, respectively.
    pub fn xwwz(self) -> (r: I32x4)
        ensures
            r@ == seq![self@[0], self@[3], self@[3], self@[2]],
    {
        let r = I32x4([self.0[0], self.0[3], self.0[3], self.0[2]]);
        assert(r@ =~= seq![self@[0], self@[3], self@[3], self@[2]]);
        r
    }

    /// Constructs a new vector from the second, fourth, fourth, and third
    /// lanes in this vector, respectively.
    pub fn ywwz(self) -> (r: I32x4)
        ensures
            r@ == seq![self@[1], self@[3], self@[3], self@[2]],
    {
        let r = I32x4([self.0[1], self.0[3], self.0[3], self.0[2]]);
        assert(r@ =~= seq![self@[1], self@[3], self@[3], self@[2]]);
        r
    }

    /// Constructs a new vector from the third, fourth, fourth, and third
    /// lanes in this vector, respectively.
    pub fn zwwz(self) -> (r: I32x4)
        ensures
            r@ == seq![self@[2], self@[3], self@[3], self@[2]],
    {
        let r = I32x4([self.0[2], self.0[3], self.0[3], self.0[2]]);
        assert(r@ =~= seq![self@[2], self@[3], self@[3], self@[2]]);
        r
    }

    /// Constructs a new vector from the fourth, fourth, fourth, and third
    /// lanes in this vector, respectively.
    pub fn wwwz(self) -> (r: I32x4)
        ensures
            r@ == seq![self@[3], self@[3], self@[3], self@[2]],
    {
        let r = I32x4([self.0[3], self.0[3], self.0[3], self.0[2]]);
        assert(r@ =~= seq![self@[3], self@[3], self@[3], self@[2]]);
        r
    }

    /// Constructs a new vector from the first, first, first, and fourth
    /// lanes in this vector, respectively.
    pub fn xxxw(self) -> (r: I32x4)
        ensures
            r@ == seq![self@[0], self@[0], self@[0], self@[3]],
    {
        let r = I32x4([self.0[0], self.0[0], self.0[0], self.0[3]]);
        assert(r@ =~= seq![self@[0], self@[0], self@[0], self@[3]]);
        r
    }

    /// Constructs a new vector from the second, first, first, and fourth
    /// lanes in this vector, respectively.
    pub fn yxxw(self) -> (r: I32x4)
        ensures
            r@ == seq![self@[1], self@[0], self@[0], self@[3]],
    {
        let r = I32x4([self.0[1], self.0[0], self.0[0], self.0[3]]);
        assert(r@ =~= seq![self@[1], self@[0], self@[0], self@[3]]);
        r
    }

    /// Constructs a new vector from the third, first, first, and fourth
    /// lanes in this vector, respectively.
    pub fn zxxw(self) -> (r: I32x4)
        ensures
            r@ == seq![self@[2], self@[0], self@[0], self@[3]],
    {
        let r = I32x4([self.0[2], self.0[0], self.0[0], self.0[3]]);
        assert(r@ =~= seq![self@[2], self@[0], self@[0], self@[3]]);
        r
    }

    /// Constructs a new vector from the fourth, first, first, and fourth
    /// lanes in this vector, respectively.
    pub fn wxxw(self) -> (r: I32x4)
        ensures
            r@ == seq![self@[3], self@[0], self@[0], self@[3]],
    {
        let r = I32x4([self.0[3], self.0[0], self.0[0], self.0[3]]);
        assert(r@ =~= seq![self@[3], self@[0], self@[0], self@[3]]);
        r
    }

    /// Constructs a new vector from the first, second, first, and fourth
    /// lanes in this vector, respectively.
    pub fn xyxw(self) -> (r: I32x4)
        ensures
            r@ == seq![self@[0], self@[1], self@[0], self@[3]],
    {
        let r = I32x4([self.0[0], self.0[1], self.0[0], self.0[3]]);
        assert(r@ =~= seq![self@[0], self@[1], self@[0], self@[3]]);
        r
    }

    /// Constructs a new vector from the second, second, first, and fourth
    /// lanes in this vector, respectively.
    pub fn yyxw(self) -> (r: I32x4)
        ensures
            r@ == seq![self@[1], self@[1], self@[0], self@[3]],
    {
        let r = I32x4([self.0[1], self.0[1], self.0[0], self.0[3]]);
        assert(r@ =~= seq![self@[1], self@[1], self@[0], self@[3]]);
        r
    }

    /// Constructs a new vector from the third, second, first, and fourth
    /// lanes in this vector, respectively.
    pub fn zyxw(self) -> (r: I32x4)
        ensures
            r@ == seq![self@[2], self@[1], self@[0], self@[3]],
    {
        let r = I32x4([self.0[2], self.0[1], self.0[0], self.0[3]]);
        assert(r@ =~= seq![self@[2], self@[1], self@[0], self@[3]]);
        r
    }

    /// Constructs a new vector from the fourth, second, first, and fourth
    /// lanes in this vector, respectively.
    pub fn wyxw(self) -> (r: I32x4)
        ensures
            r@ == seq![self@[3], self@[1], self@[0], self@[3]],
    {
        let r = I32x4([self.0[3], self.0[1], self.0[0], self.0[3]]);
        assert(r@ =~= seq![self@[3], self@[1], self@[0], self@[3]]);
        r
    }

    /// Constructs a new vector from the first, third, first, and fourth
    /// lanes in this vector, respectively.
    pub fn xzxw(self) -> (r: I32x4)
        ensures
            r@ == seq![self@[0], self@[2], self@[0], self@[3]],
    {
        let r = I32x4([self.0[0], self.0[2], self.0[0], self.0[3]]);
        assert(r@ =~= seq![self@[0], self@[2], self@[0], self@[3]]);
        r
    }

    /// Constructs a new vector from the second, third, first, and fourth
    /// lanes in this vector, respectively.
    pub fn yzxw(self) -> (r: I32x4)
        ensures
            r@ == seq![self@[1], self@[2], self@[0], self@[3]],
    {
        let r = I32x4([self.0[1], self.0[2], self.0[0], self.0[3]]);
        assert(r@ =~= seq![self@[1], self@[2], self@[0], self@[3]]);
        r
    }

    /// Constructs a new vector from the third, third, first, and fourth
    /// lanes in this vector, respectively.
    pub fn zzxw(self) -> (r: I32x4)
        ensures
            r@ == seq![self@[2], self@[2], self@[0], self@[3]],
    {
        let r = I32x4([self.0[2], self.0[2], self.0[0], self.0[3]]);
        assert(r@ =~= seq![self@[2], self@[2], self@[0], self@[3]]);
        r
    }

    /// Constructs a new vector from the fourth, third, first, and fourth
    /// lanes in this vector, respectively.
    pub fn wzxw(self) -> (r: I32x4)
        ensures
            r@ == seq![self@[3], self@[2], self@[0], self@[3]],
    {
        let r = I32x4([self.0[3], self.0[2], self.0[0], self.0[3]]);
        assert(r@ =~= seq![self@[3], self@[2], self@[0], self@[3]]);
        r
    }

    /// Constructs a new vector from the first, fourth, first, and fourth
    /// lanes in this vector, respectively.
    pub fn xwxw(self) -> (r: I32x4)
        ensures
            r@ == seq![self@[0], self@[3], self@[0], self@[3]],
    {
        let r = I32x4([self.0[0], self.0[3], self.0[0], self.0[3]]);
        assert(r@ =~= seq![self@[0], self@[3], self@[0], self@[3]]);
        r
    }

    /// Constructs a new vector from the second, fourth, first, and fourth
    /// lanes in this vector, respectively.
    pub fn ywxw(self) -> (r: I32x4)
        ensures
            r@ == seq![self@[1], self@[3], self@[0], self@[3]],
    {
        let r = I32x4([self.0[1], self.0[3], self.0[0], self.0[3]]);
        assert(r@ =~= seq![self@[1], self@[3], self@[0], self@[3]]);
        r
    }

    /// Constructs a new vector from the third, fourth, first, and fourth
    /// lanes in this vector, respectively.
    pub fn zwxw(self) -> (r: I32x4)
        ensures
            r@ == seq![self@[2], self@[3], self@[0], self@[3]],
    {
        let r = I32x4([self.0[2], self.0[3], self.0[0], self.0[3]]);
        assert(r@ =~= seq![self@[2], self@[3], self@[0], self@[3]]);
        r
    }

    /// Constructs a new vector from the fourth, fourth, first, and fourth
    /// lanes in this vector, respectively.
    pub fn wwxw(self) -> (r: I32x4)
        ensures
            r@ == seq![self@[3], self@[3], self@[0], self@[3]],
    {
        let r = I32x4([self.0[3], self.0[3], self.0[0], self.0[3]]);
        assert(r@ =~= seq![self@[3], self@[3], self@[0], self@[3]]);
        r
    }

    /// Constructs a new vector from the first, first, second, and fourth
    /// lanes in this vector, respectively.
    pub fn xxyw(self) -> (r: I32x4)
        ensures
            r@ == seq![self@[0], self@[0], self@[1], self@[3]],
    {
        let r = I32x4([self.0[0], self.0[0], self.0[1], self.0[3]]);
        assert(r@ =~= seq![self@[0], self@[0], self@[1], self@[3]]);
        r
    }

    /// Constructs a new vector from the second, first, second, and fourth
    /// lanes in this vector, respectively.
    pub fn yxyw(self) -> (r: I32x4)
        ensures
            r@ == seq![self@[1], self@[0], self@[1], self@[3]],
    {
        let r = I32x4([self.0[1], self.0[0], self.0[1], self.0[3]]);
        assert(r@ =~= seq![self@[1], self@[0], self@[1], self@[3]]);
        r
    }

    /// Constructs a new vector from the third, first, second, and fourth
    /// lanes in this vector, respectively.
    pub fn zxyw(self) -> (r: I32x4)
        ensures
            r@ == seq![self@[2], self@[0], self@[1], self@[3]],
    {
        let r = I32x4([self.0[2], self.0[0], self.0[1], self.0[3]]);
        assert(r@ =~= seq![self@[2], self@[0], self@[1], self@[3]]);
        r
    }

    /// Constructs a new vector from the fourth, first, second, and fourth
    /// lanes in this vector, respectively.
    pub fn wxyw(self) -> (r: I32x4)
        ensures
            r@ == seq![self@[3], self@[0], self@[1], self@[3]],
    {
        let r = I32x4([self.0[3], self.0[0], self.0[1], self.0[3]]);
        assert(r@ =~= seq![self@[3], self@[0], self@[1], self@[3]]);
        r
    }

    /// Constructs a new vector from the first, second, second, and fourth
    /// lanes in this vector, respectively.
    pub fn xyyw(self) -> (r: I32x4)
        ensures
            r@ == seq![self@[0], self@[1], self@[1], self@[3]],
    {
        let r = I32x4([self.0[0], self.0[1], self.0[1], self.0[3]]);
        assert(r@ =~= seq![self@[0], self@[1], self@[1], self@[3]]);
        r
    }

    /// Constructs a new vector from the second, second, second, and fourth
    /// lanes in this vector, respectively.
    pub fn yyyw(self) -> (r: I32x4)
        ensures
            r@ == seq![self@[1], self@[1], self@[1], self@[3]],
    {
        let r = I32x4([self.0[1], self.0[1], self.0[1], self.0[3]]);
        assert(r@ =~= seq![self@[1], self@[1], self@[1], self@[3]]);
        r
    }

    /// Constructs a new vector from the third, second, second, and fourth
    /// lanes in this vector, respectively.
    pub fn zyyw(self) -> (r: I32x4)
        ensures
            r@ == seq![self@[2], self@[1], self@[1], self@[3]],
    {
        let r = I32x4([self.0[2], self.0[1], self.0[1], self.0[3]]);
        assert(r@ =~= seq![self@[2], self@[1], self@[1], self@[3]]);
        r
    }

    /// Constructs a new vector from the fourth, second, second, and fourth
    /// lanes in this vector, respectively.
    pub fn wyyw(self) -> (r: I32x4)
        ensures
            r@ == seq![self@[3], self@[1], self@[1], self@[3]],
    {
        let r = I32x4([self.0[3], self.0[1], self.0[1], self.0[3]]);
        assert(r@ =~= seq![self@[3], self@[1], self@[1], self@[3]]);
        r
    }

    /// Constructs a new vector from the first, third, second, and fourth
    /// lanes in this vector, respectively.
    pub fn xzyw(self) -> (r: I32x4)
        ensures
            r@ == seq![self@[0], self@[2], self@[1], self@[3]],
    {
        let r = I32x4([self.0[0], self.0[2], self.0[1], self.0[3]]);
        assert(r@ =~= seq![self@[0], self@[2], self@[1], self@[3]]);
        r
    }

    /// Constructs a new vector from the second, third, second, and fourth
    /// lanes in this vector, respectively.
    pub fn yzyw(self) -> (r: I32x4)
        ensures
            r@ == seq![self@[1], self@[2], self@[1], self@[3]],
    {
        let r = I32x4([self.0[1], self.0[2], self.0[1], self.0[3]]);
        assert(r@ =~= seq![self@[1], self@[2], self@[1], self@[3]]);
        r
    }

    /// Constructs a new vector from the third, third, second, and fourth
    /// lanes in this vector, respectively.
    pub fn zzyw(self) -> (r: I32x4)
        ensures
            r@ == seq![self@[2], self@[2], self@[1], self@[3]],
    {
        let r = I32x4([self.0[2], self.0[2], self.0[1], self.0[3]]);
        assert(r@ =~= seq![self@[2], self@[2], self@[1], self@[3]]);
        r
    }

    /// Constructs a new vector from the fourth, third, second, and fourth
    /// lanes in this vector, respectively.
    pub fn wzyw(self) -> (r: I32x4)
        ensures
            r@ == seq![self@[3], self@[2], self@[1], self@[3]],
    {
        let r = I32x4([self.0[3], self.0[2], self.0[1], self.0[3]]);
        assert(r@ =~= seq![self@[3], self@[2], self@[1], self@[3]]);
        r
    }

    /// Constructs a new vector from the first, fourth, second, and fourth
    /// lanes in this vector, respectively.
    pub fn xwyw(self) -> (r: I32x4)
        ensures
            r@ == seq![self@[0], self@[3], self@[1], self@[3]],
    {
        let r = I32x4([self.0[0], self.0[3], self.0[1], self.0[3]]);
        assert(r@ =~= seq![self@[0], self@[3], self@[1], self@[3]]);
        r
    }

    /// Constructs a new vector from the second, fourth, second, and fourth
    /// lanes in this vector, respectively.
    pub fn ywyw(self) -> (r: I32x4)
        ensures
            r@ == seq![self@[1], self@[3], self@[1], self@[3]],
    {
        let r = I32x4([self.0[1], self.0[3], self.0[1], self.0[3]]);
        assert(r@ =~= seq![self@[1], self@[3], self@[1], self@[3]]);
        r
    }

    /// Constructs a new vector from the third, fourth, second, and fourth
    /// lanes in this vector, respectively.
    pub fn zwyw(self) -> (r: I32x4)
        ensures
            r@ == seq![self@[2], self@[3], self@[1], self@[3]],
    {
        let r = I32x4([self.0[2], self.0[3], self.0[1], self.0[3]]);
        assert(r@ =~= seq![self@[2], self@[3], self@[1], self@[3]]);
        r
    }

    /// Constructs a new vector from the fourth, fourth, second, and fourth
    /// lanes in this vector, respectively.
    pub fn wwyw(self) -> (r: I32x4)
        ensures
            r@ == seq![self@[3], self@[3], self@[1], self@[3]],
    {
        let r = I32x4([self.0[3], self.0[3], self.0[1], self.0[3]]);
        assert(r@ =~= seq![self@[3], self@[3], self@[1], self@[3]]);
        r
    }

    /// Constructs a new vector from the first, first, third, and fourth
    /// lanes in this vector, respectively.
    pub fn xxzw(self) -> (r: I32x4)
        ensures
            r@ == seq![self@[0], self@[0], self@[2], self@[3]],
    {
        let r = I32x4([self.0[0], self.0[0], self.0[2], self.0[3]]);
        assert(r@ =~= seq![self@[0], self@[0], self@[2], self@[3]]);
        r
    }

    /// Constructs a new vector from the second, first, third, and fourth
    /// lanes in this vector, respectively.
    pub fn yxzw(self) -> (r: I32x4)
        ensures
            r@ == seq![self@[1], self@[0], self@[2], self@[3]],
    {
        let r = I32x4([self.0[1], self.0[0], self.0[2], self.0[3]]);
        assert(r@ =~= seq![self@[1], self@[0], self@[2], self@[3]]);
        r
    }

    /// Constructs a new vector from the third, first, third, and fourth
    /// lanes in this vector, respectively.
    pub fn zxzw(self) -> (r: I32x4)
        ensures
            r@ == seq![self@[2], self@[0], self@[2], self@[3]],
    {
        let r = I32x4([self.0[2], self.0[0], self.0[2], self.0[3]]);
        assert(r@ =~= seq![self@[2], self@[0], self@[2], self@[3]]);
        r
    }

    /// Constructs a new vector from the fourth, first, third, and fourth
    /// lanes in this vector, respectively.
    pub fn wxzw(self) -> (r: I32x4)
        ensures
            r@ == seq![self@[3], self@[0], self@[2], self@[3]],
    {
        let r = I32x4([self.0[3], self.0[0], self.0[2], self.0[3]]);
        assert(r@ =~= seq![self@[3], self@[0], self@[2], self@[3]]);
        r
    }

    /// Constructs a new vector from the first, second, third, and fourth
    /// lanes in this vector, respectively.
    pub fn xyzw(self) -> (r: I32x4)
        ensures
            r@ == seq![self@[0], self@[1], self@[2], self@[3]],
    {
        let r = I32x4([self.0[0], self.0[1], self.0[2], self.0[3]]);
        assert(r@ =~= seq![self@[0], self@[1], self@[2], self@[3]]);
        r
    }

    /// Constructs a new vector from the second, second, third, and fourth
    /// lanes in this vector, respectively.
    pub fn yyzw(self) -> (r: I32x4)
        ensures
            r@ == seq![self@[1], self@[1], self@[2], self@[3]],
    {
        let r = I32x4([self.0[1], self.0[1], self.0[2], self.0[3]]);
        assert(r@ =~= seq![self@[1], self@[1], self@[2], self@[3]]);
        r
    }

    /// Constructs a new vector from the third, second, third, and fourth
    /// lanes in this vector, respectively.
    pub fn zyzw(self) -> (r: I32x4)
        ensures
            r@ == seq![self@[2], self@[1], self@[2], self@[3]],
    {
        let r = I32x4([self.0[2], self.0[1], self.0[2], self.0[3]]);
        assert(r@ =~= seq![self@[2], self@[1], self@[2], self@[3]]);
        r
    }

    /// Constructs a new vector from the fourth, second, third, and fourth
    /// lanes in this vector, respectively.
    pub fn wyzw(self) -> (r: I32x4)
        ensures
            r@ == seq![self@[3], self@[1], self@[2], self@[3]],
    {
        let r = I32x4([self.0[3], self.0[1], self.0[2], self.0[3]]);
        assert(r@ =~= seq![self@[3], self@[1], self@[2], self@[3]]);
        r
    }

    /// Constructs a new vector from the first, third, third, and fourth
    /// lanes in this vector, respectively.
    pub fn xzzw(self) -> (r: I32x4)
        ensures
            r@ == seq![self@[0], self@[2], self@[2], self@[3]],
    {
        let r = I32x4([self.0[0], self.0[2], self.0[2], self.0[3]]);
        assert(r@ =~= seq![self@[0], self@[2], self@[2], self@[3]]);
        r
    }

    /// Constructs a new vector from the second, third, third, and fourth
    /// lanes in this vector, respectively.
    pub fn yzzw(self) -> (r: I32x4)
        ensures
            r@ == seq![self@[1], self@[2], self@[2], self@[3]],
    {
        let r = I32x4([self.0[1], self.0[2], self.0[2], self.0[3]]);
        assert(r@ =~= seq![self@[1], self@[2], self@[2], self@[3]]);
        r
    }

    /// Constructs a new vector from the third, third, third, and fourth
    /// lanes in this vector, respectively.
    pub fn zzzw(self) -> (r: I32x4)
        ensures
            r@ == seq![self@[2], self@[2], self@[2], self@[3]],
    {
        let r = I32x4([self.0[2], self.0[2], self.0[2], self.0[3]]);
        assert(r@ =~= seq![self@[2], self@[2], self@[2], self@[3]]);
        r
    }

    /// Constructs a new vector from the fourth, third, third, and fourth
    /// lanes in this vector, respectively.
    pub fn wzzw(self) -> (r: I32x4)
        ensures
            r@ == seq![self@[3], self@[2], self@[2], self@[3]],
    {
        let r = I32x4([self.0[3], self.0[2], self.0[2], self.0[3]]);
        assert(r@ =~= seq![self@[3], self@[2], self@[2], self@[3]]);
        r
    }

    /// Constructs a new vector from the first, fourth, third, and fourth
    /// lanes in this vector, respectively.
    pub fn xwzw(self) -> (r: I32x4)
        ensures
            r@ == seq![self@[0], self@[3], self@[2], self@[3]],
    {
        let r = I32x4([self.0[0], self.0[3], self.0[2], self.0[3]]);
        assert(r@ =~= seq![self@[0], self@[3], self@[2], self@[3]]);
        r
    }

    /// Constructs a new vector from the second, fourth, third, and fourth
    /// lanes in this vector, respectively.
    pub fn ywzw(self) -> (r: I32x4)
        ensures
            r@ == seq![self@[1], self@[3], self@[2], self@[3]],
    {
        let r = I32x4([self.0[1], self.0[3], self.0[2], self.0[3]]);
        assert(r@ =~= seq![self@[1], self@[3], self@[2], self@[3]]);
        r
    }

    /// Constructs a new vector from the third, fourth, third, and fourth
    /// lanes in this vector, respectively.
    pub fn zwzw(self) -> (r: I32x4)
        ensures
            r@ == seq![self@[2], self@[3], self@[2], self@[3]],
    {
        let r = I32x4([self.0[2], self.0[3], self.0[2], self.0[3]]);
        assert(r@ =~= seq![self@[2], self@[3], self@[2], self@[3]]);
        r
    }

    /// Constructs a new vector from the fourth, fourth, third, and fourth
    /// lanes in this vector, respectively.
    pub fn wwzw(self) -> (r: I32x4)
        ensures
            r@ == seq![self@[3], self@[3], self@[2], self@[3]],
    {
        let r = I32x4([self.0[3], self.0[3], self.0[2], self.0[3]]);
        assert(r@ =~= seq![self@[3], self@[3], self@[2], self@[3]]);
        r
    }

    /// Constructs a new vector from the first, first, fourth, and fourth
    /// lanes in this vector, respectively.
    pub fn xxww(self) -> (r: I32x4)
        ensures
            r@ == seq![self@[0], self@[0], self@[3], self@[3]],
    {
        let r = I32x4([self.0[0], self.0[0], self.0[3], self.0[3]]);
        assert(r@ =~= seq![self@[0], self@[0], self@[3], self@[3]]);
        r
    }

    /// Constructs a new vector from the second, first, fourth, and fourth
    /// lanes in this vector, respectively.
    pub fn yxww(self) -> (r: I32x4)
        ensures
            r@ == seq![self@[1], self@[0], self@[3], self@[3]],
    {
        let r = I32x4([self.0[1], self.0[0], self.0[3], self.0[3]]);
        assert(r@ =~= seq![self@[1], self@[0], self@[3], self@[3]]);
        r
    }

    /// Constructs a new vector from the third, first, fourth, and fourth
    /// lanes in this vector, respectively.
    pub fn zxww(self) -> (r: I32x4)
        ensures
            r@ == seq![self@[2], self@[0], self@[3], self@[3]],
    {
        let r = I32x4([self.0[2], self.0[0], self.0[3], self.0[3]]);
        assert(r@ =~= seq![self@[2], self@[0], self@[3], self@[3]]);
        r
    }

    /// Constructs a new vector from the fourth, first, fourth, and fourth
    /// lanes in this vector, respectively.
    pub fn wxww(self) -> (r: I32x4)
        ensures
            r@ == seq![self@[3], self@[0], self@[3], self@[3]],
    {
        let r = I32x4([self.0[3], self.0[0], self.0[3], self.0[3]]);
        assert(r@ =~= seq![self@[3], self@[0], self@[3], self@[3]]);
        r
    }

    /// Constructs a new vector from the first, second, fourth, and fourth
    /// lanes in this vector, respectively.
    pub fn xyww(self) -> (r: I32x4)
        ensures
            r@ == seq![self@[0], self@[1], self@[3], self@[3]],
    {
        let r = I32x4([self.0[0], self.0[1], self.0[3], self.0[3]]);
        assert(r@ =~= seq![self@[0], self@[1], self@[3], self@[3]]);
        r
    }

    /// Constructs a new vector from the second, second, fourth, and fourth
    /// lanes in this vector, respectively.
    pub fn yyww(self) -> (r: I32x4)
        ensures
            r@ == seq![self@[1], self@[1], self@[3], self@[3]],
    {
        let r = I32x4([self.0[1], self.0[1], self.0[3], self.0[3]]);
        assert(r@ =~= seq![self@[1], self@[1], self@[3], self@[3]]);
        r
    }

    /// Constructs a new vector from the third, second, fourth, and fourth
    /// lanes in this vector, respectively.
    pub fn zyww(self) -> (r: I32x4)
        ensures
            r@ == seq![self@[2], self@[1], self@[3], self@[3]],
    {
        let r = I32x4([self.0[2], self.0[1], self.0[3], self.0[3]]);
        assert(r@ =~= seq![self@[2], self@[1], self@[3], self@[3]]);
        r
    }

    /// Constructs a new vector from the fourth, second, fourth, and fourth
    /// lanes in this vector, respectively.
    pub fn wyww(self) -> (r: I32x4)
        ensures
            r@ == seq![self@[3], self@[1], self@[3], self@[3]],
    {
        let r = I32x4([self.0[3], self.0[1], self.0[3], self.0[3]]);
        assert(r@ =~= seq![self@[3], self@[1], self@[3], self@[3]]);
        r
    }

    /// Constructs a new vector from the first, third, fourth, and fourth
    /// lanes in this vector, respectively.
    pub fn xzww(self) -> (r: I32x4)
        ensures
            r@ == seq![self@[0], self@[2], self@[3], self@[3]],
    {
        let r = I32x4([self.0[0], self.0[2], self.0[3], self.0[3]]);
        assert(r@ =~= seq![self@[0], self@[2], self@[3], self@[3]]);
        r
    }

    /// Constructs a new vector from the second, third, fourth, and fourth
    /// lanes in this vector, respectively.
    pub fn yzww(self) -> (r: I32x4)
        ensures
            r@ == seq![self@[1], self@[2], self@[3], self@[3]],
    {
        let r = I32x4([self.0[1], self.0[2], self.0[3], self.0[3]]);
        assert(r@ =~= seq![self@[1], self@[2], self@[3], self@[3]]);
        r
    }

    /// Constructs a new vector from the third, third, fourth, and fourth
    /// lanes in this vector, respectively.
    pub fn zzww(self) -> (r: I32x4)
        ensures
            r@ == seq![self@[2], self@[2], self@[3], self@[3]],
    {
        let r = I32x4([self.0[2], self.0[2], self.0[3], self.0[3]]);
        assert(r@ =~= seq![self@[2], self@[2], self@[3], self@[3]]);
        r
    }

    /// Constructs a new vector from the fourth, third, fourth, and fourth
    /// lanes in this vector, respectively.
    pub fn wzww(self) -> (r: I32x4)
        ensures
            r@ == seq![self@[3], self@[2], self@[3], self@[3]],
    {
        let r = I32x4([self.0[3], self.0[2], self.0[3], self.0[3]]);
        assert(r@ =~= seq![self@[3], self@[2], self@[3], self@[3]]);
        r
    }

    /// Constructs a new vector from the first, fourth, fourth, and fourth
    /// lanes in this vector, respectively.
    pub fn xwww(self) -> (r: I32x4)
        ensures
            r@ == seq![self@[0], self@[3], self@[3], self@[3]],
    {
        let r = I32x4([self.0[0], self.0[3], self.0[3], self.0[3]]);
        assert(r@ =~= seq![self@[0], self@[3], self@[3], self@[3]]);
        r
    }

    /// Constructs a new vector from the second, fourth, fourth, and fourth
    /// lanes in this vector, respectively.
    pub fn ywww(self) -> (r: I32x4)
        ensures
            r@ == seq![self@[1], self@[3], self@[3], self@[3]],
    {
        let r = I32x4([self.0[1], self.0[3], self.0[3], self.0[3]]);
        assert(r@ =~= seq![self@[1], self@[3], self@[3], self@[3]]);
        r
    }

    /// Constructs a new vector from the third, fourth, fourth, and fourth
    /// lanes in this vector, respectively.
    pub fn zwww(self) -> (r: I32x4)
        ensures
            r@ == seq![self@[2], self@[3], self@[3], self@[3]],
    {
        let r = I32x4([self.0[2], self.0[3], self.0[3], self.0[3]]);
        assert(r@ =~= seq![self@[2], self@[3], self@[3], self@[3]]);
        r
    }

    /// Constructs a new vector from the fourth, fourth, fourth, and fourth
    /// lanes in this vector, respectively.
    pub fn wwww(self) -> (r: I32x4)
        ensures
            r@ == seq![self@[3], self@[3], self@[3], self@[3]],
    {
        let r = I32x4([self.0[3], self.0[3], self.0[3], self.0[3]]);
        assert(r@ =~= seq![self@[3], self@[3], self@[3], self@[3]]);
        r
    }
}

} // verus!
