//! Floating-point settings, carried by their IEEE 754 bit patterns.
//!
//! The editor hands brightness, gain, opacity and the like through unchanged and
//! asks only whether a value is neutral or out of range. Both questions are
//! answered here on the bits; arithmetic on the values is not done in this crate.

use vstd::prelude::*;

verus! {

/// A single-precision value.
#[derive(Clone, Copy, PartialEq, Eq, Structural, Debug)]
pub struct F32 {
    pub bits: u32,
}

/// A double-precision value.
#[derive(Clone, Copy, PartialEq, Eq, Structural, Debug)]
pub struct F64 {
    pub bits: u64,
}

/// `0.0`
pub const F32_ZERO: u32 = 0;

/// `0.1`
pub const F32_TENTH: u32 = 0x3dcc_cccd;

/// `1.0`
pub const F32_ONE: u32 = 0x3f80_0000;

/// `3.0`
pub const F32_THREE: u32 = 0x4040_0000;

/// `4.0`
pub const F32_FOUR: u32 = 0x4080_0000;

/// `12.0`
pub const F32_TWELVE: u32 = 0x4140_0000;

/// `50.0`
pub const F32_FIFTY: u32 = 0x4248_0000;

/// `60.0`
pub const F32_SIXTY: u32 = 0x4270_0000;

/// `100.0`
pub const F32_HUNDRED: u32 = 0x42c8_0000;

/// `-40.0`
pub const F32_MINUS_FORTY: u32 = 0xc220_0000;

/// `0.0`
pub const F64_ZERO: u64 = 0;

/// `1.0`
pub const F64_ONE: u64 = 0x3ff0_0000_0000_0000;

/// `0.1`
pub const F64_TENTH: u64 = 0x3fb9_9999_9999_999a;

/// `30.0`
pub const F64_THIRTY: u64 = 0x403e_0000_0000_0000;

/// `-23.0`
pub const F64_MINUS_TWENTY_THREE: u64 = 0xc037_0000_0000_0000;

/// The bits of a single-precision value without its sign.
pub open spec fn magnitude32(bits: u32) -> int {
    if bits >= 0x8000_0000u32 {
        bits - 0x8000_0000
    } else {
        bits as int
    }
}

/// Whether the bits stand for "not a number".
pub open spec fn is_nan32(bits: u32) -> bool {
    magnitude32(bits) > 0x7f80_0000
}

/// An integer that orders single-precision numbers as their values do; both
/// zeros map to `0`.
pub open spec fn rank32(bits: u32) -> int {
    if bits >= 0x8000_0000u32 {
        -magnitude32(bits)
    } else {
        magnitude32(bits)
    }
}

/// `a == b` on single-precision values.
pub open spec fn eq32(a: F32, b: F32) -> bool {
    !is_nan32(a.bits) && !is_nan32(b.bits) && rank32(a.bits) == rank32(b.bits)
}

/// `a < b` on single-precision values.
pub open spec fn lt32(a: F32, b: F32) -> bool {
    !is_nan32(a.bits) && !is_nan32(b.bits) && rank32(a.bits) < rank32(b.bits)
}

/// `v` moved into `lo..=hi`; a value that is not a number stays as it is.
pub open spec fn clamp32(v: F32, lo: F32, hi: F32) -> F32 {
    if lt32(v, lo) {
        lo
    } else if lt32(hi, v) {
        hi
    } else {
        v
    }
}

/// The single-precision value with these bits.
pub open spec fn f32_of(bits: u32) -> F32 {
    F32 { bits }
}

/// `v == 0.0`
pub open spec fn zero32(v: F32) -> bool {
    eq32(v, f32_of(F32_ZERO))
}

/// `v == 1.0`
pub open spec fn one32(v: F32) -> bool {
    eq32(v, f32_of(F32_ONE))
}

/// `v > 0.0`
pub open spec fn positive32(v: F32) -> bool {
    lt32(f32_of(F32_ZERO), v)
}

/// `v` moved into `0.0..=1.0`.
pub open spec fn unit32(v: F32) -> F32 {
    clamp32(v, f32_of(F32_ZERO), f32_of(F32_ONE))
}

/// The bits of a double-precision value without its sign.
pub open spec fn magnitude64(bits: u64) -> int {
    if bits >= 0x8000_0000_0000_0000u64 {
        bits - 0x8000_0000_0000_0000
    } else {
        bits as int
    }
}

/// Whether the bits stand for "not a number".
pub open spec fn is_nan64(bits: u64) -> bool {
    magnitude64(bits) > 0x7ff0_0000_0000_0000
}

/// An integer that orders double-precision numbers as their values do.
pub open spec fn rank64(bits: u64) -> int {
    if bits >= 0x8000_0000_0000_0000u64 {
        -magnitude64(bits)
    } else {
        magnitude64(bits)
    }
}

/// `a == b` on double-precision values.
pub open spec fn eq64(a: F64, b: F64) -> bool {
    !is_nan64(a.bits) && !is_nan64(b.bits) && rank64(a.bits) == rank64(b.bits)
}

/// `a < b` on double-precision values.
pub open spec fn lt64(a: F64, b: F64) -> bool {
    !is_nan64(a.bits) && !is_nan64(b.bits) && rank64(a.bits) < rank64(b.bits)
}

/// `v` moved into `0.0..=1.0`.
pub open spec fn unit64(v: F64) -> F64 {
    if lt64(v, (F64 { bits: F64_ZERO })) {
        F64 { bits: F64_ZERO }
    } else if lt64((F64 { bits: F64_ONE }), v) {
        F64 { bits: F64_ONE }
    } else {
        v
    }
}

impl F32 {
    /// The value with these bits.
    pub fn of(bits: u32) -> (v: Self)
        ensures
            v == f32_of(bits),
    {
        F32 { bits }
    }

    fn rank(self) -> (r: i64)
        ensures
            r == rank32(self.bits),
    {
        if self.bits >= 0x8000_0000 {
            -((self.bits - 0x8000_0000) as i64)
        } else {
            self.bits as i64
        }
    }

    /// Whether this is "not a number".
    pub fn is_nan(self) -> (r: bool)
        ensures
            r == is_nan32(self.bits),
    {
        if self.bits >= 0x8000_0000 {
            self.bits - 0x8000_0000 > 0x7f80_0000
        } else {
            self.bits > 0x7f80_0000
        }
    }

    /// `self == other` as numbers: the two zeros are equal, and "not a number"
    /// equals nothing.
    pub fn equals(self, other: Self) -> (r: bool)
        ensures
            r == eq32(self, other),
    {
        !self.is_nan() && !other.is_nan() && self.rank() == other.rank()
    }

    /// `self < other` as numbers.
    pub fn less(self, other: Self) -> (r: bool)
        ensures
            r == lt32(self, other),
    {
        !self.is_nan() && !other.is_nan() && self.rank() < other.rank()
    }

    /// `self == 0.0`
    pub fn is_zero(self) -> (r: bool)
        ensures
            r == zero32(self),
    {
        self.equals(F32 { bits: F32_ZERO })
    }

    /// `self == 1.0`
    pub fn is_one(self) -> (r: bool)
        ensures
            r == one32(self),
    {
        self.equals(F32 { bits: F32_ONE })
    }

    /// `self > 0.0`
    pub fn is_positive(self) -> (r: bool)
        ensures
            r == positive32(self),
    {
        F32 { bits: F32_ZERO }.less(self)
    }

    /// This value moved into `lo..=hi`.
    pub fn clamp(self, lo: Self, hi: Self) -> (r: Self)
        ensures
            r == clamp32(self, lo, hi),
    {
        if self.less(lo) {
            lo
        } else if hi.less(self) {
            hi
        } else {
            self
        }
    }

    /// This value moved into `0.0..=1.0`.
    pub fn unit(self) -> (r: Self)
        ensures
            r == unit32(self),
    {
        self.clamp(F32 { bits: F32_ZERO }, F32 { bits: F32_ONE })
    }
}

impl F64 {
    fn rank(self) -> (r: i128)
        ensures
            r == rank64(self.bits),
    {
        if self.bits >= 0x8000_0000_0000_0000 {
            -((self.bits - 0x8000_0000_0000_0000) as i128)
        } else {
            self.bits as i128
        }
    }

    /// Whether this is "not a number".
    pub fn is_nan(self) -> (r: bool)
        ensures
            r == is_nan64(self.bits),
    {
        if self.bits >= 0x8000_0000_0000_0000 {
            self.bits - 0x8000_0000_0000_0000 > 0x7ff0_0000_0000_0000
        } else {
            self.bits > 0x7ff0_0000_0000_0000
        }
    }

    /// `self == other` as numbers.
    pub fn equals(self, other: Self) -> (r: bool)
        ensures
            r == eq64(self, other),
    {
        !self.is_nan() && !other.is_nan() && self.rank() == other.rank()
    }

    /// `self < other` as numbers.
    pub fn less(self, other: Self) -> (r: bool)
        ensures
            r == lt64(self, other),
    {
        !self.is_nan() && !other.is_nan() && self.rank() < other.rank()
    }

    /// This value moved into `0.0..=1.0`.
    pub fn unit(self) -> (r: Self)
        ensures
            r == unit64(self),
    {
        let zero = F64 { bits: F64_ZERO };
        let one = F64 { bits: F64_ONE };
        if self.less(zero) {
            zero
        } else if one.less(self) {
            one
        } else {
            self
        }
    }
}

/// The greater of a value and a limit; the limit for "not a number".
pub open spec fn at_least64(v: F64, lo: F64) -> F64 {
    if is_nan64(v.bits) || lt64(v, lo) {
        lo
    } else {
        v
    }
}

impl F64 {
    /// The greater of this value and a limit.
    pub fn at_least(self, lo: F64) -> (r: F64)
        ensures
            r == at_least64(self, lo),
    {
        if self.is_nan() || self.less(lo) {
            lo
        } else {
            self
        }
    }
}

/// Clamping is idempotent and, for a number and an ordered range, lands in it.
pub proof fn clamp_lands_in_range(v: F32, lo: F32, hi: F32)
    requires
        !is_nan32(v.bits),
        !is_nan32(lo.bits),
        !is_nan32(hi.bits),
        !lt32(hi, lo),
    ensures
        !lt32(clamp32(v, lo, hi), lo),
        !lt32(hi, clamp32(v, lo, hi)),
        clamp32(clamp32(v, lo, hi), lo, hi) == clamp32(v, lo, hi),
{
}

/// Whether 32-bit patterns stand for equal numbers, or for a smaller and a greater one, is
/// told by their signs and magnitudes: both zeros are one number, a negative number lies
/// below a positive one, and magnitudes go up with the bits. What is no number equals
/// nothing and lies nowhere.
pub proof fn bits_order_numbers32(a: F32, b: F32)
    ensures
        is_nan32(a.bits) == (a.bits % 0x8000_0000 > 0x7f80_0000),
        is_nan32(a.bits) || is_nan32(b.bits) ==> !eq32(a, b) && !lt32(a, b),
        !is_nan32(a.bits) && !is_nan32(b.bits) ==> {
            &&& eq32(a, b) <==> a.bits == b.bits || (a.bits % 0x8000_0000 == 0 && b.bits % 0x8000_0000 == 0)
            &&& a.bits < 0x8000_0000 && b.bits < 0x8000_0000 ==> lt32(a, b) == (a.bits < b.bits)
            &&& a.bits >= 0x8000_0000 && b.bits >= 0x8000_0000 ==> lt32(a, b) == (b.bits < a.bits)
            &&& a.bits < 0x8000_0000 && b.bits >= 0x8000_0000 ==> !lt32(a, b)
            &&& a.bits >= 0x8000_0000 && b.bits < 0x8000_0000 ==> lt32(a, b) == !eq32(a, b)
        },
{
}

/// Whether 64-bit patterns stand for equal numbers, or for a smaller and a greater one, is
/// told by their signs and magnitudes: both zeros are one number, a negative number lies
/// below a positive one, and magnitudes go up with the bits. What is no number equals
/// nothing and lies nowhere.
pub proof fn bits_order_numbers64(a: F64, b: F64)
    ensures
        is_nan64(a.bits) == (a.bits % 0x8000_0000_0000_0000 > 0x7ff0_0000_0000_0000),
        is_nan64(a.bits) || is_nan64(b.bits) ==> !eq64(a, b) && !lt64(a, b),
        !is_nan64(a.bits) && !is_nan64(b.bits) ==> {
            &&& eq64(a, b) <==> a.bits == b.bits || (a.bits % 0x8000_0000_0000_0000 == 0 && b.bits % 0x8000_0000_0000_0000 == 0)
            &&& a.bits < 0x8000_0000_0000_0000 && b.bits < 0x8000_0000_0000_0000 ==> lt64(a, b) == (a.bits < b.bits)
            &&& a.bits >= 0x8000_0000_0000_0000 && b.bits >= 0x8000_0000_0000_0000 ==> lt64(a, b) == (b.bits < a.bits)
            &&& a.bits < 0x8000_0000_0000_0000 && b.bits >= 0x8000_0000_0000_0000 ==> !lt64(a, b)
            &&& a.bits >= 0x8000_0000_0000_0000 && b.bits < 0x8000_0000_0000_0000 ==> lt64(a, b) == !eq64(a, b)
        },
{
}

/// A value inside a range stays as it is, one below becomes the lower end and one above the
/// upper end; what is no number stays.
pub proof fn clamp_moves_only_outside(v: F32, lo: F32, hi: F32)
    requires
        !lt32(hi, lo),
    ensures
        !lt32(v, lo) && !lt32(hi, v) ==> clamp32(v, lo, hi) == v,
        lt32(v, lo) ==> clamp32(v, lo, hi) == lo,
        lt32(hi, v) && !lt32(v, lo) ==> clamp32(v, lo, hi) == hi,
        is_nan32(v.bits) ==> clamp32(v, lo, hi) == v,
{
}

/// Moved between zero and one, a number between them stays, a smaller one becomes zero and
/// a greater one one.
pub proof fn unit_is_from_zero_to_one(v: F32, w: F64)
    ensures
        v.bits <= 0x3f80_0000 ==> unit32(v) == v,
        0x3f80_0000 < v.bits <= 0x7f80_0000 ==> unit32(v).bits == 0x3f80_0000,
        0x8000_0000 < v.bits <= 0xff80_0000 ==> unit32(v).bits == 0,
        is_nan32(v.bits) ==> unit32(v) == v,
        w.bits <= 0x3ff0_0000_0000_0000 ==> unit64(w) == w,
        0x3ff0_0000_0000_0000 < w.bits <= 0x7ff0_0000_0000_0000 ==> unit64(w).bits
            == 0x3ff0_0000_0000_0000,
        0x8000_0000_0000_0000 < w.bits <= 0xfff0_0000_0000_0000 ==> unit64(w).bits == 0,
        is_nan64(w.bits) ==> unit64(w) == w,
{
}

/// A limit takes the place of what lies below it and of what is no number; anything else
/// stays.
pub proof fn limit_holds_from_below(v: F64, lo: F64)
    ensures
        is_nan64(v.bits) || lt64(v, lo) ==> at_least64(v, lo) == lo,
        !is_nan64(v.bits) && !lt64(v, lo) ==> at_least64(v, lo) == v,
        !lt64(at_least64(v, lo), lo),
{
}

/// Zero, one and positive numbers are told by their bits.
pub proof fn neutral_numbers_are_told(v: F32)
    ensures
        zero32(v) <==> v.bits % 0x8000_0000 == 0,
        one32(v) <==> v.bits == 0x3f80_0000,
        positive32(v) <==> 0 < v.bits <= 0x7f80_0000,
        f32_of(v.bits) == v,
{
}

/// The named numbers have the bits of their values: doubling adds one to the exponent, and
/// the sign is the topmost bit.
pub proof fn named_numbers_have_their_bits()
    ensures
        F32_ZERO == 0 && F64_ZERO == 0,
        F32_ONE == 0x7f * 0x80_0000 && F64_ONE == 0x3ff * 0x10_0000_0000_0000,
        F32_FOUR == F32_ONE + 2 * 0x80_0000,
        F32_THREE == F32_ONE + 0x80_0000 + 0x40_0000,
        F32_TWELVE == F32_THREE + 2 * 0x80_0000,
        F32_FIFTY == F32_ONE + 5 * 0x80_0000 + 18 * 0x4_0000,
        F32_HUNDRED == F32_FIFTY + 0x80_0000,
        F32_SIXTY == F32_ONE + 5 * 0x80_0000 + 28 * 0x4_0000,
        F32_MINUS_FORTY == 0x8000_0000 + F32_ONE + 5 * 0x80_0000 + 8 * 0x4_0000,
        F32_TENTH == 0x3dcc_cccd,
        F64_TENTH == 0x3fb9_9999_9999_999a,
        F64_THIRTY == F64_ONE + 4 * 0x10_0000_0000_0000 + 14 * 0x1_0000_0000_0000,
        F64_MINUS_TWENTY_THREE == 0x8000_0000_0000_0000 + F64_ONE + 4 * 0x10_0000_0000_0000 + 7
            * 0x1_0000_0000_0000,
{
}

} // verus!
