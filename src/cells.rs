use crate::geo::Rect;
use crate::ratio::{q_le, q_lt, Ratio};
use vstd::prelude::*;

verus! {

/// The linear index of cell `(row, col)` in a row-major grid of `ncols`
/// columns.
pub open spec fn cell_index_of(ncols: int, row: int, col: int) -> int {
    row * ncols + col
}

/// The `(row, col)` of the cell with linear index `i`.
pub open spec fn cell_coord_of(ncols: int, i: int) -> (int, int) {
    (i / ncols, i % ncols)
}

/// The near edge, along one axis, of cell `k` of `n` equal cells spanning
/// `[0, 1]`, after trimming `trim / 2` of the cell size from each side.
/// The result is `(numerator, denominator)`.
pub open spec fn trimmed_lo(k: int, n: int, trim: (int, int)) -> (int, int) {
    (2 * k * trim.1 + trim.0, 2 * n * trim.1)
}

/// The far edge, along one axis, of the trimmed cell `k` of `n`.
pub open spec fn trimmed_hi(k: int, n: int, trim: (int, int)) -> (int, int) {
    (2 * (k + 1) * trim.1 - trim.0, 2 * n * trim.1)
}

/// Whether `trim` (numerator, denominator) lies in `[0, 1)`.
pub open spec fn trim_in_range(trim: (int, int)) -> bool {
    trim.1 > 0 && 0 <= trim.0 < trim.1
}

/// Whether `trim` (numerator, denominator) lies in `[0, 1]`.
pub open spec fn trim_admissible(trim: (int, int)) -> bool {
    trim.1 > 0 && 0 <= trim.0 <= trim.1
}

/// The trim actually applied: a trim of 1, which would shrink a cell to
/// its center point, is clamped to `1 - 1 / (2 d)` (with `d` its
/// denominator), which leaves a sliver around the center; smaller trims
/// are applied as they are.
pub open spec fn clamped_trim(trim: (int, int)) -> (int, int) {
    if trim.0 < trim.1 {
        trim
    } else {
        (2 * trim.1 - 1, 2 * trim.1)
    }
}

/// Whether `r` lies within the untrimmed cell `i` of a grid of `ncols`
/// columns and `nrows` rows, with a non-empty interior.
pub open spec fn inside_cell(r: Rect, i: int, nrows: int, ncols: int) -> bool {
    let (row, col) = cell_coord_of(ncols, i);
    &&& q_lt(r@.0@, r@.2@)
    &&& q_lt(r@.1@, r@.3@)
    &&& q_le(trimmed_lo(col, ncols, (0, 1)), r@.0@)
    &&& q_le(trimmed_lo(row, nrows, (0, 1)), r@.1@)
    &&& q_le(r@.2@, trimmed_hi(col, ncols, (0, 1)))
    &&& q_le(r@.3@, trimmed_hi(row, nrows, (0, 1)))
}

/// How a sprite sheet is divided into `nrows` by `ncols` equal cells.
#[derive(Clone, Copy, Debug)]
pub struct SpriteMapDimensions {
    nrows: u32,
    ncols: u32,
}

impl SpriteMapDimensions {
    #[verifier::type_invariant]
    spec fn inv(self) -> bool {
        self.nrows > 0 && self.ncols > 0
    }

    pub closed spec fn rows(&self) -> int {
        if self.nrows > 0 { self.nrows as int } else { 1 }
    }

    pub closed spec fn cols(&self) -> int {
        if self.ncols > 0 { self.ncols as int } else { 1 }
    }

    /// Whether `(row_col.0, row_col.1)` can be linearised within `u32`.
    pub open spec fn index_fits(&self, row: int, col: int) -> bool {
        0 <= cell_index_of(self.cols(), row, col) <= u32::MAX
    }

    /// Whether the trimmed cell edges for `trim` can be held in 64 bits.
    pub open spec fn trim_fits(&self, trim: (int, int)) -> bool {
        2 * self.rows() * trim.1 <= i64::MAX && 2 * self.cols() * trim.1 <= i64::MAX
    }

    /// Whether `r` is the rectangle of cell `i` trimmed by `trim` along
    /// both axes.
    pub open spec fn is_cell_rect(&self, r: Rect, i: int, trim: (int, int)) -> bool {
        self.is_cell_rect_xy(r, i, trim, trim)
    }

    /// Whether `r` is the rectangle of cell `i` trimmed by `trim_x`
    /// horizontally and by `trim_y` vertically.
    pub open spec fn is_cell_rect_xy(&self, r: Rect, i: int, trim_x: (int, int), trim_y: (int, int)) -> bool {
        let (row, col) = cell_coord_of(self.cols(), i);
        &&& r@.0@ == trimmed_lo(col, self.cols(), trim_x)
        &&& r@.1@ == trimmed_lo(row, self.rows(), trim_y)
        &&& r@.2@ == trimmed_hi(col, self.cols(), trim_x)
        &&& r@.3@ == trimmed_hi(row, self.rows(), trim_y)
    }

    /// The layout of the glyph atlas: 3 rows of 32 cells.
    pub closed spec fn atlas_spec() -> SpriteMapDimensions {
        SpriteMapDimensions { nrows: 3, ncols: 32 }
    }

    /// The layout of the glyph atlas: 3 rows of 32 cells.
    pub fn atlas() -> (r: SpriteMapDimensions)
        ensures
            r == SpriteMapDimensions::atlas_spec(),
            r.rows() == 3,
            r.cols() == 32,
    {
        SpriteMapDimensions { nrows: 3, ncols: 32 }
    }

    pub fn new(nrows: u32, ncols: u32) -> (r: SpriteMapDimensions)
        requires
            nrows > 0,
            ncols > 0,
        ensures
            r.rows() == nrows,
            r.cols() == ncols,
    {
        SpriteMapDimensions { nrows, ncols }
    }

    /// The number of rows of cells.
    pub fn nrows(&self) -> (r: u32)
        ensures
            r == self.rows(),
            r > 0,
    {
        proof {
            use_type_invariant(self);
        }
        self.nrows
    }

    /// The number of columns of cells.
    pub fn ncols(&self) -> (r: u32)
        ensures
            r == self.cols(),
            r > 0,
    {
        proof {
            use_type_invariant(self);
        }
        self.ncols
    }

    /// The linear index of the cell at `[row, col]`.
    pub fn cell_index(&self, row_col: [u32; 2]) -> (r: u32)
        requires
            self.index_fits(row_col[0] as int, row_col[1] as int),
        ensures
            r == cell_index_of(self.cols(), row_col[0] as int, row_col[1] as int),
    {
        proof {
            use_type_invariant(self);
        }
        let row = row_col[0];
        let col = row_col[1];
        proof {
            assert(0 <= row * self.ncols <= row * self.ncols + col) by (nonlinear_arith);
        }
        row * self.ncols + col
    }

    /// The `[row, col]` of the cell with linear index `cell_index`.
    pub fn cell_coord(&self, cell_index: u32) -> (r: [u32; 2])
        ensures
            (r[0] as int, r[1] as int) == cell_coord_of(self.cols(), cell_index as int),
    {
        proof {
            use_type_invariant(self);
        }
        [cell_index / self.ncols, cell_index % self.ncols]
    }

    /// The source rectangle of cell `cell_index`, in sheet coordinates
    /// `[0, 1]`, shrunk by `trim / 2` of the cell size on each side; a
    /// trim of 1 is clamped (see `clamped_trim`), so the rectangle is never
    /// degenerate.
    pub fn rect_for_cell(&self, cell_index: u32, trim: Ratio) -> (r: Rect)
        requires
            (cell_index as int) < self.rows() * self.cols(),
            trim_admissible(trim@),
            self.trim_fits(clamped_trim(trim@)),
        ensures
            self.is_cell_rect(r, cell_index as int, clamped_trim(trim@)),
            inside_cell(r, cell_index as int, self.rows(), self.cols()),
    {
        self.rect_for_cell_xy(cell_index, trim, trim)
    }

    /// The source rectangle of cell `cell_index`, shrunk by `trim_x / 2`
    /// of the cell width on the left and right and by `trim_y / 2` of the
    /// cell height on the top and bottom, each trim of 1 being clamped.
    pub fn rect_for_cell_xy(&self, cell_index: u32, trim_x: Ratio, trim_y: Ratio) -> (r: Rect)
        requires
            (cell_index as int) < self.rows() * self.cols(),
            trim_admissible(trim_x@),
            trim_admissible(trim_y@),
            self.trim_fits(clamped_trim(trim_x@)),
            self.trim_fits(clamped_trim(trim_y@)),
        ensures
            self.is_cell_rect_xy(r, cell_index as int, clamped_trim(trim_x@), clamped_trim(trim_y@)),
            inside_cell(r, cell_index as int, self.rows(), self.cols()),
    {
        proof {
            use_type_invariant(self);
        }
        let tx = self.clamp_trim(trim_x);
        let ty = self.clamp_trim(trim_y);
        let rc = self.cell_coord(cell_index);
        let (lox, hix) = trimmed_edges(rc[1], self.ncols, tx);
        proof {
            lemma_row_below(cell_index as int, self.rows(), self.cols());
        }
        let (loy, hiy) = trimmed_edges(rc[0], self.nrows, ty);
        let r = Rect::from_ordered(lox, loy, hix, hiy);
        proof {
            lemma_trimmed_cell_inside(rc[1] as int, self.cols(), tx@);
            lemma_trimmed_cell_inside(rc[0] as int, self.rows(), ty@);
        }
        r
    }

    /// The trim applied for `trim`.
    fn clamp_trim(&self, trim: Ratio) -> (r: Ratio)
        requires
            trim_admissible(trim@),
            self.trim_fits(clamped_trim(trim@)),
        ensures
            r@ == clamped_trim(trim@),
            trim_in_range(r@),
    {
        proof {
            use_type_invariant(self);
        }
        let n = trim.numer();
        let d = trim.denom();
        if n < d {
            trim
        } else {
            proof {
                assert(2 * d <= 2 * self.cols() * (2 * d)) by (nonlinear_arith)
                    requires self.cols() >= 1, d > 0;
            }
            Ratio::new(2 * d - 1, 2 * d)
        }
    }

    /// The width of one cell in sheet coordinates.
    pub fn cell_width(&self) -> (r: Ratio)
        ensures
            r@ == (1int, self.cols()),
    {
        proof {
            use_type_invariant(self);
        }
        Ratio::new(1, self.ncols as i64)
    }

    /// The height of one cell in sheet coordinates.
    pub fn cell_height(&self) -> (r: Ratio)
        ensures
            r@ == (1int, self.rows()),
    {
        proof {
            use_type_invariant(self);
        }
        Ratio::new(1, self.nrows as i64)
    }
}

/// Both counts of a grid are positive and fit in `u32`.
pub broadcast proof fn lemma_dims_bounded(d: SpriteMapDimensions)
    ensures
        0 < #[trigger] d.rows() <= u32::MAX,
        0 < #[trigger] d.cols() <= u32::MAX,
{
}

/// The glyph atlas has 3 rows of 32 cells.
pub proof fn lemma_atlas_dims()
    ensures
        SpriteMapDimensions::atlas_spec().rows() == 3,
        SpriteMapDimensions::atlas_spec().cols() == 32,
{
}

/// A row index computed from a valid cell index lies below the row count.
pub proof fn lemma_row_below(i: int, nrows: int, ncols: int)
    requires
        0 <= i < nrows * ncols,
        ncols > 0,
    ensures
        i / ncols < nrows,
{
    assert(i / ncols < nrows) by (nonlinear_arith)
        requires
            0 <= i < nrows * ncols,
            ncols > 0,
    ;
}

/// The near and far edges of trimmed cell `k` of `n` along one axis.
fn trimmed_edges(k: u32, n: u32, trim: Ratio) -> (r: (Ratio, Ratio))
    requires
        k < n,
        trim_in_range(trim@),
        2 * n * trim@.1 <= i64::MAX,
    ensures
        r.0@ == trimmed_lo(k as int, n as int, trim@),
        r.1@ == trimmed_hi(k as int, n as int, trim@),
        q_lt(r.0@, r.1@),
{
    let tn = trim.numer();
    let td = trim.denom();
    let kk = k as i64;
    let nn = n as i64;
    proof {
        assert(2 * (kk + 1) * td <= 2 * nn * td) by (nonlinear_arith)
            requires
                kk < nn,
                td > 0,
        ;
        assert(0 <= (2 * kk) * td && (2 * kk) * td + 2 * td == (2 * (kk + 1)) * td)
            by (nonlinear_arith)
            requires
                kk >= 0,
                td > 0,
        ;
    }
    let den = 2 * nn * td;
    let lo = 2 * kk * td + tn;
    let hi = 2 * (kk + 1) * td - tn;
    proof {
        assert(lo * den < hi * den) by (nonlinear_arith)
            requires
                lo == 2 * kk * td + tn,
                hi == 2 * (kk + 1) * td - tn,
                0 <= tn < td,
                den > 0,
        ;
    }
    (Ratio::new(lo, den), Ratio::new(hi, den))
}

/// Linearising the coordinates of a cell gives back its index.
pub proof fn lemma_cell_round_trip(ncols: int, i: int)
    requires
        ncols > 0,
        i >= 0,
    ensures
        ({
            let (row, col) = cell_coord_of(ncols, i);
            &&& cell_index_of(ncols, row, col) == i
            &&& cell_coord_of(ncols, cell_index_of(ncols, row, col)) == cell_coord_of(ncols, i)
        }),
{
    vstd::arithmetic::div_mod::lemma_fundamental_div_mod(i, ncols);
    vstd::arithmetic::mul::lemma_mul_is_commutative(ncols, i / ncols);
}

/// For a trim in `[0, 1)`, a trimmed cell is non-degenerate and lies within
/// the untrimmed cell, along each axis.
pub proof fn lemma_trimmed_cell_inside(k: int, n: int, trim: (int, int))
    requires
        0 <= k < n,
        trim_in_range(trim),
    ensures
        q_lt(trimmed_lo(k, n, trim), trimmed_hi(k, n, trim)),
        q_le(trimmed_lo(k, n, (0, 1)), trimmed_lo(k, n, trim)),
        q_le(trimmed_hi(k, n, trim), trimmed_hi(k, n, (0, 1))),
{
    let (tn, td) = trim;
    assert((2 * k * td + tn) * (2 * n * td) < (2 * (k + 1) * td - tn) * (2 * n * td))
        by (nonlinear_arith)
        requires
            0 <= tn < td,
            n > 0,
    ;
    assert((2 * k * 1 + 0) * (2 * n * td) <= (2 * k * td + tn) * (2 * n * 1))
        by (nonlinear_arith)
        requires
            0 <= tn,
            td > 0,
            n > 0,
            k >= 0,
    ;
    assert((2 * (k + 1) * td - tn) * (2 * n * 1) <= (2 * (k + 1) * 1 - 0) * (2 * n * td))
        by (nonlinear_arith)
        requires
            0 <= tn,
            td > 0,
            n > 0,
    ;
}

/// For a trim in `[0, 1]`, the rectangle of a cell trimmed by the applied
/// trim has a non-empty interior and lies within the untrimmed rectangle
/// of the same cell; below 1 the applied trim is the trim itself.
pub proof fn lemma_cell_rect_inside(dims: SpriteMapDimensions, i: int, trim: (int, int), r: Rect, full: Rect)
    requires
        0 <= i < dims.rows() * dims.cols(),
        trim_admissible(trim),
        dims.is_cell_rect(r, i, clamped_trim(trim)),
        dims.is_cell_rect(full, i, (0, 1)),
    ensures
        trim.0 < trim.1 ==> clamped_trim(trim) == trim,
        q_lt(r@.0@, r@.2@),
        q_lt(r@.1@, r@.3@),
        q_le(full@.0@, r@.0@),
        q_le(full@.1@, r@.1@),
        q_le(r@.2@, full@.2@),
        q_le(r@.3@, full@.3@),
{
    lemma_dims_bounded(dims);
    lemma_row_below(i, dims.rows(), dims.cols());
    let (row, col) = cell_coord_of(dims.cols(), i);
    lemma_trimmed_cell_inside(col, dims.cols(), clamped_trim(trim));
    lemma_trimmed_cell_inside(row, dims.rows(), clamped_trim(trim));
}

/// Coordinates of a cell within the grid linearise to an index whose
/// coordinates are the same ones.
pub proof fn lemma_coord_round_trip(nrows: int, ncols: int, row: int, col: int)
    requires
        0 <= row < nrows,
        0 <= col < ncols,
    ensures
        0 <= cell_index_of(ncols, row, col) < nrows * ncols,
        cell_coord_of(ncols, cell_index_of(ncols, row, col)) == (row, col),
{
    vstd::arithmetic::div_mod::lemma_fundamental_div_mod_converse(row * ncols + col, ncols, row, col);
    assert(row * ncols + col < nrows * ncols) by (nonlinear_arith)
        requires
            0 <= row < nrows,
            0 <= col < ncols,
    ;
    assert(0 <= row * ncols) by (nonlinear_arith)
        requires
            row >= 0,
            ncols > 0,
    ;
}

} // verus!
