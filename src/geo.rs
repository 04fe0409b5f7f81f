use crate::ratio::{fits_i64, mul_wide, near_equal, q_add, q_eq, q_le, q_lt, q_scale, q_sub, Ratio};
use vstd::prelude::*;

verus! {

/// A point in batch-local or screen coordinates.
#[derive(Clone, Copy, Debug)]
pub struct Point {
    pub x: Ratio,
    pub y: Ratio,
}

/// Whether `q_add` or `q_sub` of `a` and `b` fits in 64 bits.
pub open spec fn sum_fits(a: (int, int), b: (int, int)) -> bool {
    &&& fits_i64(q_add(a, b).0)
    &&& fits_i64(q_sub(a, b).0)
    &&& fits_i64(a.1 * b.1)
}

impl Point {
    /// The point moved by `d`.
    pub fn plus(&self, d: Dimensions) -> (r: Point)
        requires
            sum_fits(self.x@, d.width@),
            sum_fits(self.y@, d.height@),
        ensures
            r.x@ == q_add(self.x@, d.width@),
            r.y@ == q_add(self.y@, d.height@),
    {
        Point { x: self.x.plus(&d.width), y: self.y.plus(&d.height) }
    }

    /// The point moved by `-d`.
    pub fn minus(&self, d: Dimensions) -> (r: Point)
        requires
            sum_fits(self.x@, d.width@),
            sum_fits(self.y@, d.height@),
        ensures
            r.x@ == q_sub(self.x@, d.width@),
            r.y@ == q_sub(self.y@, d.height@),
    {
        Point { x: self.x.minus(&d.width), y: self.y.minus(&d.height) }
    }

    pub fn to_array(&self) -> (r: [Ratio; 2])
        ensures
            r[0] == self.x,
            r[1] == self.y,
    {
        [self.x, self.y]
    }
}

/// The width and height of a rectangle.
#[derive(Clone, Copy, Debug)]
pub struct Dimensions {
    pub width: Ratio,
    pub height: Ratio,
}

impl Dimensions {
    /// Both sides multiplied by `k`.
    pub fn scaled(&self, k: i64) -> (r: Dimensions)
        requires
            fits_i64(self.width@.0 * k),
            fits_i64(self.height@.0 * k),
        ensures
            r.width@ == q_scale(self.width@, k as int),
            r.height@ == q_scale(self.height@, k as int),
    {
        Dimensions { width: self.width.scale_by(k), height: self.height.scale_by(k) }
    }

    /// Both sides divided by a positive `k`.
    pub fn divided(&self, k: i64) -> (r: Dimensions)
        requires
            k > 0,
            fits_i64(self.width@.1 * k),
            fits_i64(self.height@.1 * k),
        ensures
            r.width@ == (self.width@.0, self.width@.1 * k),
            r.height@ == (self.height@.0, self.height@.1 * k),
    {
        Dimensions { width: self.width.divide_by(k), height: self.height.divide_by(k) }
    }

    /// The side-by-side sum.
    pub fn plus(&self, o: Dimensions) -> (r: Dimensions)
        requires
            sum_fits(self.width@, o.width@),
            sum_fits(self.height@, o.height@),
        ensures
            r.width@ == q_add(self.width@, o.width@),
            r.height@ == q_add(self.height@, o.height@),
    {
        Dimensions { width: self.width.plus(&o.width), height: self.height.plus(&o.height) }
    }

    /// The side-by-side difference.
    pub fn minus(&self, o: Dimensions) -> (r: Dimensions)
        requires
            sum_fits(self.width@, o.width@),
            sum_fits(self.height@, o.height@),
        ensures
            r.width@ == q_sub(self.width@, o.width@),
            r.height@ == q_sub(self.height@, o.height@),
    {
        Dimensions { width: self.width.minus(&o.width), height: self.height.minus(&o.height) }
    }

    /// The side-by-side product.
    pub fn times(&self, o: Dimensions) -> (r: Dimensions)
        requires
            fits_i64(self.width@.0 * o.width@.0),
            fits_i64(self.width@.1 * o.width@.1),
            fits_i64(self.height@.0 * o.height@.0),
            fits_i64(self.height@.1 * o.height@.1),
        ensures
            r.width@ == (self.width@.0 * o.width@.0, self.width@.1 * o.width@.1),
            r.height@ == (self.height@.0 * o.height@.0, self.height@.1 * o.height@.1),
    {
        Dimensions { width: self.width.times(&o.width), height: self.height.times(&o.height) }
    }

    pub fn to_array(&self) -> (r: [Ratio; 2])
        ensures
            r[0] == self.width,
            r[1] == self.height,
    {
        [self.width, self.height]
    }
}

/// The lesser of two ratios, the first one on a tie.
pub open spec fn pick_min(a: Ratio, b: Ratio) -> Ratio {
    if q_le(a@, b@) { a } else { b }
}

/// The greater of two ratios, the first one on a tie.
pub open spec fn pick_max(a: Ratio, b: Ratio) -> Ratio {
    if q_le(b@, a@) { a } else { b }
}

/// Whether `(x1, y1, x2, y2)` spans a rectangle that is not degenerate,
/// nor close to it: neither the x values nor the y values are equal within
/// the tolerance of `near_equal`.
pub open spec fn spans_area(x1: Ratio, y1: Ratio, x2: Ratio, y2: Ratio) -> bool {
    !near_equal(x1@, x2@) && !near_equal(y1@, y2@)
}

/// Whether `(ulx, uly, lrx, lry)` is an upper-left / lower-right pair with
/// a non-empty interior.
pub open spec fn well_ordered(v: (Ratio, Ratio, Ratio, Ratio)) -> bool {
    q_lt(v.0@, v.2@) && q_lt(v.1@, v.3@)
}

/// An axis-aligned, non-degenerate rectangle given by its upper-left and
/// lower-right corners (the origin is the upper-left of the space).
#[derive(Clone, Copy, Debug)]
pub struct Rect {
    upper_left: [Ratio; 2],
    lower_right: [Ratio; 2],
}

impl View for Rect {
    /// `(upper_left.x, upper_left.y, lower_right.x, lower_right.y)`
    type V = (Ratio, Ratio, Ratio, Ratio);

    closed spec fn view(&self) -> (Ratio, Ratio, Ratio, Ratio) {
        (self.upper_left[0], self.upper_left[1], self.lower_right[0], self.lower_right[1])
    }
}

impl Rect {
    /// The rectangle with corners `(x1, y1)` and `(x2, y2)` in any order;
    /// `None` when it would be degenerate or close to degenerate (x values,
    /// or y values, equal within the tolerance of `near_equal`).
    pub fn new(x1: Ratio, y1: Ratio, x2: Ratio, y2: Ratio) -> (r: Option<Rect>)
        ensures
            r is None <==> !spans_area(x1, y1, x2, y2),
            r is Some ==> r->0@ == (
                pick_min(x1, x2),
                pick_min(y1, y2),
                pick_max(x1, x2),
                pick_max(y1, y2),
            ),
            r is Some ==> well_ordered(r->0@),
    {
        if x1.near(&x2) || y1.near(&y2) {
            None
        } else {
            let ulx = if x1.le(&x2) { x1 } else { x2 };
            let uly = if y1.le(&y2) { y1 } else { y2 };
            let lrx = if x2.le(&x1) { x1 } else { x2 };
            let lry = if y2.le(&y1) { y1 } else { y2 };
            proof {
                broadcast use crate::ratio::lemma_ratio_den_pos;
                if q_eq(x1@, x2@) {
                    crate::ratio::lemma_equal_is_near(x1@, x2@);
                }
                if q_eq(y1@, y2@) {
                    crate::ratio::lemma_equal_is_near(y1@, y2@);
                }
                lemma_strict_order(x1@, x2@);
                lemma_strict_order(y1@, y2@);
            }
            Some(Rect { upper_left: [ulx, uly], lower_right: [lrx, lry] })
        }
    }

    /// The rectangle with upper-left `(x1, y1)` and lower-right `(x2, y2)`.
    pub fn from_ordered(x1: Ratio, y1: Ratio, x2: Ratio, y2: Ratio) -> (r: Rect)
        requires
            q_lt(x1@, x2@),
            q_lt(y1@, y2@),
        ensures
            r@ == (x1, y1, x2, y2),
    {
        Rect { upper_left: [x1, y1], lower_right: [x2, y2] }
    }

    /// The rectangle of size `dim` centered on `center`.
    pub fn centered(center: Point, dim: Dimensions) -> (r: Rect)
        requires
            q_pos(dim.width@),
            q_pos(dim.height@),
            centered_fits(center.x@, dim.width@),
            centered_fits(center.y@, dim.height@),
        ensures
            r@.0@ == centered_lo(center.x@, dim.width@),
            r@.1@ == centered_lo(center.y@, dim.height@),
            r@.2@ == centered_hi(center.x@, dim.width@),
            r@.3@ == centered_hi(center.y@, dim.height@),
    {
        let (x1, x2) = centered_span(center.x, dim.width);
        let (y1, y2) = centered_span(center.y, dim.height);
        Rect::from_ordered(x1, y1, x2, y2)
    }

    pub fn upper_left(&self) -> (r: [Ratio; 2])
        ensures
            r[0] == self@.0,
            r[1] == self@.1,
    {
        self.upper_left
    }

    pub fn lower_right(&self) -> (r: [Ratio; 2])
        ensures
            r[0] == self@.2,
            r[1] == self@.3,
    {
        self.lower_right
    }
}

/// The near edge of a span of size `w` centered on `c`: `c - w / 2`.
pub open spec fn centered_lo(c: (int, int), w: (int, int)) -> (int, int) {
    (2 * c.0 * w.1 - w.0 * c.1, 2 * c.1 * w.1)
}

/// The far edge of a span of size `w` centered on `c`: `c + w / 2`.
pub open spec fn centered_hi(c: (int, int), w: (int, int)) -> (int, int) {
    (2 * c.0 * w.1 + w.0 * c.1, 2 * c.1 * w.1)
}

/// Whether both edges of the span of size `w` centered on `c` can be held
/// in 64 bits.
pub open spec fn centered_fits(c: (int, int), w: (int, int)) -> bool {
    &&& fits_i64(centered_lo(c, w).0)
    &&& fits_i64(centered_hi(c, w).0)
    &&& fits_i64(centered_lo(c, w).1)
}

/// Whether a size is positive.
pub open spec fn q_pos(w: (int, int)) -> bool {
    w.0 > 0
}

/// The span of size `w` centered on `c`.
fn centered_span(c: Ratio, w: Ratio) -> (r: (Ratio, Ratio))
    requires
        centered_fits(c@, w@),
        q_pos(w@),
    ensures
        r.0@ == centered_lo(c@, w@),
        r.1@ == centered_hi(c@, w@),
        q_lt(r.0@, r.1@),
{
    proof {
        broadcast use crate::ratio::lemma_ratio_den_pos;
    }
    let cn = c.numer();
    let cd = c.denom();
    let wn = w.numer();
    let wd = w.denom();
    let a = mul_wide(cn, wd);
    let b = mul_wide(wn, cd);
    let d = mul_wide(cd, wd);
    proof {
        assert(2 * a - b == centered_lo(c@, w@).0) by (nonlinear_arith)
            requires a == cn * wd, b == wn * cd, c@ == (cn as int, cd as int), w@ == (wn as int, wd as int);
        assert(2 * a + b == centered_hi(c@, w@).0) by (nonlinear_arith)
            requires a == cn * wd, b == wn * cd, c@ == (cn as int, cd as int), w@ == (wn as int, wd as int);
        assert(2 * d == centered_lo(c@, w@).1 && d > 0) by (nonlinear_arith)
            requires d == cd * wd, c@ == (cn as int, cd as int), w@ == (wn as int, wd as int), cd > 0, wd > 0;
        assert((2 * a - b) * (2 * d) < (2 * a + b) * (2 * d)) by (nonlinear_arith)
            requires b == wn * cd, wn > 0, cd > 0, d > 0;
    }
    let den = (2 * d) as i64;
    (Ratio::new((2 * a - b) as i64, den), Ratio::new((2 * a + b) as i64, den))
}

/// Of two distinct rationals, the lesser lies strictly below the greater.
pub proof fn lemma_strict_order(a: (int, int), b: (int, int))
    requires
        a.1 > 0,
        b.1 > 0,
        !q_eq(a, b),
    ensures
        q_le(a, b) ==> q_lt(a, b),
        !q_le(a, b) ==> q_lt(b, a),
        q_le(b, a) ==> q_lt(b, a),
        !q_le(b, a) ==> q_lt(a, b),
{
}

} // verus!
