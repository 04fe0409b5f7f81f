use vstd::prelude::*;

verus! {

/// The exact product of two 64-bit integers.
pub fn mul_wide(a: i64, b: i64) -> (r: i128)
    ensures
        r == a as int * b as int,
{
    proof {
        let x = a as int;
        let y = b as int;
        assert(-0x8000_0000_0000_0000 <= x < 0x8000_0000_0000_0000);
        assert(-0x8000_0000_0000_0000 <= y < 0x8000_0000_0000_0000);
        assert(-0x4000_0000_0000_0000_0000_0000_0000_0000 <= x * y <= 0x4000_0000_0000_0000_0000_0000_0000_0000)
            by (nonlinear_arith)
            requires
                -0x8000_0000_0000_0000 <= x < 0x8000_0000_0000_0000,
                -0x8000_0000_0000_0000 <= y < 0x8000_0000_0000_0000,
        ;
    }
    (a as i128) * (b as i128)
}

/// `a <= b` for rationals given as (numerator, positive denominator).
pub open spec fn q_le(a: (int, int), b: (int, int)) -> bool {
    a.0 * b.1 <= b.0 * a.1
}

/// `a < b` for rationals given as (numerator, positive denominator).
pub open spec fn q_lt(a: (int, int), b: (int, int)) -> bool {
    a.0 * b.1 < b.0 * a.1
}

/// `a == b` as rational values.
pub open spec fn q_eq(a: (int, int), b: (int, int)) -> bool {
    a.0 * b.1 == b.0 * a.1
}

/// The lesser of two rationals (the first on a tie).
pub open spec fn q_min(a: (int, int), b: (int, int)) -> (int, int) {
    if q_le(a, b) { a } else { b }
}

/// The greater of two rationals (the first on a tie).
pub open spec fn q_max(a: (int, int), b: (int, int)) -> (int, int) {
    if q_le(b, a) { a } else { b }
}

/// Whether an integer fits in `i64`.
pub open spec fn fits_i64(x: int) -> bool {
    i64::MIN <= x <= i64::MAX
}

/// The sum of two rationals, over the product of the denominators.
pub open spec fn q_add(a: (int, int), b: (int, int)) -> (int, int) {
    (a.0 * b.1 + b.0 * a.1, a.1 * b.1)
}

/// The difference of two rationals, over the product of the denominators.
pub open spec fn q_sub(a: (int, int), b: (int, int)) -> (int, int) {
    (a.0 * b.1 - b.0 * a.1, a.1 * b.1)
}

/// A rational times an integer.
pub open spec fn q_scale(a: (int, int), k: int) -> (int, int) {
    (a.0 * k, a.1)
}

/// The absolute value of an integer.
pub open spec fn abs_int(x: int) -> int {
    if x < 0 { -x } else { x }
}

/// The largest finite 32-bit float, `(2^24 - 1) * 2^104`.
pub open spec fn f32_max_int() -> int {
    340282346638528859811704183484516925440
}

/// Whether two rationals are equal within the tolerance of 32-bit floats
/// that rectangles use: `|a - b| < max(e, e * min(|a| + |b|, f32::MAX))`
/// with `e = 128 * f32::EPSILON = 2^-16`. Both sides are multiplied by the
/// product of the denominators so the test is over integers.
pub open spec fn near_equal(a: (int, int), b: (int, int)) -> bool {
    let d = a.1 * b.1;
    let diff = abs_int(a.0 * b.1 - b.0 * a.1);
    let norm = abs_int(a.0) * b.1 + abs_int(b.0) * a.1;
    let capped = if norm < f32_max_int() * d { norm } else { f32_max_int() * d };
    let bound = if d > capped { d } else { capped };
    65536 * diff < bound
}

/// Equal rationals are near-equal.
pub proof fn lemma_equal_is_near(a: (int, int), b: (int, int))
    requires
        a.1 > 0,
        b.1 > 0,
        q_eq(a, b),
    ensures
        near_equal(a, b),
{
    assert(a.1 * b.1 > 0) by (nonlinear_arith)
        requires
            a.1 > 0,
            b.1 > 0,
    ;
    assert(abs_int(a.0) * b.1 + abs_int(b.0) * a.1 >= 0) by (nonlinear_arith)
        requires
            a.1 > 0,
            b.1 > 0,
    ;
    assert(f32_max_int() * (a.1 * b.1) > 0) by (nonlinear_arith)
        requires
            a.1 * b.1 > 0,
    ;
}

/// An exact rational number `num / den` with a positive denominator.
///
/// Coordinates, rotations and color factors are held as exact rationals so
/// that geometry (cell tiling, rectangle normalization) is computed without
/// rounding.
#[derive(Clone, Copy, Debug, PartialEq, Eq, Structural)]
pub struct Ratio {
    num: i64,
    den: i64,
}

impl View for Ratio {
    type V = (int, int);

    closed spec fn view(&self) -> (int, int) {
        (self.num as int, if self.den > 0 { self.den as int } else { 1 })
    }
}

/// Every ratio has a positive denominator.
pub broadcast proof fn lemma_ratio_den_pos(r: Ratio)
    ensures
        0 < #[trigger] r@.1 <= i64::MAX,
        i64::MIN <= r@.0 <= i64::MAX,
{
}

impl Ratio {
    #[verifier::type_invariant]
    spec fn inv(self) -> bool {
        self.den > 0
    }

    /// The ratio `num / den`.
    pub fn new(num: i64, den: i64) -> (r: Ratio)
        requires
            den > 0,
        ensures
            r@ == (num as int, den as int),
    {
        Ratio { num, den }
    }

    /// The integer `n`.
    pub fn from_int(n: i64) -> (r: Ratio)
        ensures
            r@ == (n as int, 1int),
    {
        Ratio { num: n, den: 1 }
    }

    /// The number one.
    pub fn one() -> (r: Ratio)
        ensures
            r@ == (1int, 1int),
    {
        Ratio { num: 1, den: 1 }
    }

    /// The number zero.
    pub fn zero() -> (r: Ratio)
        ensures
            r@ == (0int, 1int),
    {
        Ratio { num: 0, den: 1 }
    }

    pub fn numer(&self) -> (r: i64)
        ensures
            r == self@.0,
    {
        self.num
    }

    pub fn denom(&self) -> (r: i64)
        ensures
            r == self@.1,
            r > 0,
    {
        proof {
            use_type_invariant(self);
        }
        self.den
    }

    /// `self * k`.
    pub fn scale_by(&self, k: i64) -> (r: Ratio)
        requires
            fits_i64(self@.0 * k),
        ensures
            r@ == q_scale(self@, k as int),
    {
        proof {
            use_type_invariant(self);
        }
        Ratio { num: self.num * k, den: self.den }
    }

    /// `self / k` for a positive `k`.
    pub fn divide_by(&self, k: i64) -> (r: Ratio)
        requires
            k > 0,
            fits_i64(self@.1 * k),
        ensures
            r@ == (self@.0, self@.1 * k),
    {
        proof {
            use_type_invariant(self);
            assert(self.den * k > 0) by (nonlinear_arith)
                requires
                    self.den > 0,
                    k > 0,
            ;
        }
        Ratio { num: self.num, den: self.den * k }
    }

    /// `self + other`, over the product of the denominators.
    pub fn plus(&self, other: &Ratio) -> (r: Ratio)
        requires
            fits_i64(q_add(self@, other@).0),
            fits_i64(q_add(self@, other@).1),
        ensures
            r@ == q_add(self@, other@),
    {
        proof {
            use_type_invariant(self);
            use_type_invariant(other);
            assert(self.den * other.den > 0) by (nonlinear_arith)
                requires
                    self.den > 0,
                    other.den > 0,
            ;
        }
        let a = mul_wide(self.num, other.den);
        let b = mul_wide(other.num, self.den);
        let d = mul_wide(self.den, other.den);
        Ratio { num: (a + b) as i64, den: d as i64 }
    }

    /// `self * other`.
    pub fn times(&self, other: &Ratio) -> (r: Ratio)
        requires
            fits_i64(self@.0 * other@.0),
            fits_i64(self@.1 * other@.1),
        ensures
            r@ == (self@.0 * other@.0, self@.1 * other@.1),
    {
        proof {
            use_type_invariant(self);
            use_type_invariant(other);
            assert(self.den * other.den > 0) by (nonlinear_arith)
                requires
                    self.den > 0,
                    other.den > 0,
            ;
        }
        let n = mul_wide(self.num, other.num);
        let d = mul_wide(self.den, other.den);
        Ratio { num: n as i64, den: d as i64 }
    }

    /// `self - other`, over the product of the denominators.
    pub fn minus(&self, other: &Ratio) -> (r: Ratio)
        requires
            fits_i64(q_sub(self@, other@).0),
            fits_i64(q_sub(self@, other@).1),
        ensures
            r@ == q_sub(self@, other@),
    {
        proof {
            use_type_invariant(self);
            use_type_invariant(other);
            assert(self.den * other.den > 0) by (nonlinear_arith)
                requires
                    self.den > 0,
                    other.den > 0,
            ;
        }
        let a = mul_wide(self.num, other.den);
        let b = mul_wide(other.num, self.den);
        let d = mul_wide(self.den, other.den);
        Ratio { num: (a - b) as i64, den: d as i64 }
    }

    /// Whether `self` and `other` are equal within the tolerance of 32-bit
    /// floats (see `near_equal`).
    pub fn near(&self, other: &Ratio) -> (r: bool)
        ensures
            r == near_equal(self@, other@),
    {
        proof {
            use_type_invariant(self);
            use_type_invariant(other);
        }
        let an = self.num;
        let ad = self.den;
        let bn = other.num;
        let bd = other.den;
        let p = mul_wide(an, bd);
        let q = mul_wide(bn, ad);
        let d = mul_wide(ad, bd);
        proof {
            assert(-0x4000_0000_0000_0000_0000_0000_0000_0000 < p < 0x4000_0000_0000_0000_0000_0000_0000_0000)
                by (nonlinear_arith)
                requires
                    p == an * bd,
                    -0x8000_0000_0000_0000 <= an < 0x8000_0000_0000_0000,
                    0 < bd < 0x8000_0000_0000_0000,
            ;
            assert(-0x4000_0000_0000_0000_0000_0000_0000_0000 < q < 0x4000_0000_0000_0000_0000_0000_0000_0000)
                by (nonlinear_arith)
                requires
                    q == bn * ad,
                    -0x8000_0000_0000_0000 <= bn < 0x8000_0000_0000_0000,
                    0 < ad < 0x8000_0000_0000_0000,
            ;
            assert(0 < d < 0x4000_0000_0000_0000_0000_0000_0000_0000) by (nonlinear_arith)
                requires
                    d == ad * bd,
                    0 < ad < 0x8000_0000_0000_0000,
                    0 < bd < 0x8000_0000_0000_0000,
            ;
        }
        let diff: i128 = p - q;
        let diff_abs: u128 = if diff < 0 { (-diff) as u128 } else { diff as u128 };
        let a_abs: u128 = if an < 0 { (-(an as i128)) as u128 } else { an as u128 };
        let b_abs: u128 = if bn < 0 { (-(bn as i128)) as u128 } else { bn as u128 };
        proof {
            assert(a_abs * bd <= 0x8000_0000_0000_0000 * bd && 0x8000_0000_0000_0000 * bd <= 0x8000_0000_0000_0000 * (ad * bd))
                by (nonlinear_arith)
                requires
                    0 <= a_abs <= 0x8000_0000_0000_0000,
                    0 < bd,
                    0 < ad,
            ;
            assert(b_abs * ad <= 0x8000_0000_0000_0000 * ad && 0x8000_0000_0000_0000 * ad <= 0x8000_0000_0000_0000 * (ad * bd))
                by (nonlinear_arith)
                requires
                    0 <= b_abs <= 0x8000_0000_0000_0000,
                    0 < bd,
                    0 < ad,
            ;
            assert(0 <= a_abs * bd && 0 <= b_abs * ad) by (nonlinear_arith)
                requires
                    0 <= a_abs,
                    0 <= b_abs,
                    0 < bd,
                    0 < ad,
            ;
            assert(2 * 0x8000_0000_0000_0000 * d < f32_max_int() * d) by (nonlinear_arith)
                requires
                    d > 0,
            ;
        }
        let norm: u128 = a_abs * (bd as u128) + b_abs * (ad as u128);
        let bound: u128 = if (d as u128) > norm { d as u128 } else { norm };
        let limit = (bound - 1) / 65536;
        proof {
            let m = (bound - 1) as int;
            vstd::arithmetic::div_mod::lemma_fundamental_div_mod(m, 65536);
            assert((diff_abs <= limit) == (65536 * diff_abs < bound)) by (nonlinear_arith)
                requires
                    m == 65536 * limit + m % 65536,
                    0 <= m % 65536 < 65536,
                    m == bound - 1,
                    diff_abs >= 0,
            ;
        }
        diff_abs <= limit
    }

    /// Whether `self <= other` as rational values.
    pub fn le(&self, other: &Ratio) -> (r: bool)
        ensures
            r == q_le(self@, other@),
    {
        proof {
            use_type_invariant(self);
            use_type_invariant(other);
        }
        mul_wide(self.num, other.den) <= mul_wide(other.num, self.den)
    }

    /// Whether `self < other` as rational values.
    pub fn lt(&self, other: &Ratio) -> (r: bool)
        ensures
            r == q_lt(self@, other@),
    {
        proof {
            use_type_invariant(self);
            use_type_invariant(other);
        }
        mul_wide(self.num, other.den) < mul_wide(other.num, self.den)
    }

    /// Whether `self` and `other` denote the same rational value.
    pub fn same_value(&self, other: &Ratio) -> (r: bool)
        ensures
            r == q_eq(self@, other@),
    {
        proof {
            use_type_invariant(self);
            use_type_invariant(other);
        }
        mul_wide(self.num, other.den) == mul_wide(other.num, self.den)
    }

    /// The lesser of the two values.
    pub fn min(self, other: Ratio) -> (r: Ratio)
        ensures
            r@ == q_min(self@, other@),
    {
        if self.le(&other) {
            self
        } else {
            other
        }
    }

    /// The greater of the two values.
    pub fn max(self, other: Ratio) -> (r: Ratio)
        ensures
            r@ == q_max(self@, other@),
    {
        if other.le(&self) {
            self
        } else {
            other
        }
    }
}

} // verus!
