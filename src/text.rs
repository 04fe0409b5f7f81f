use crate::batch::SpriteBatch;
use crate::cells::{clamped_trim, SpriteMapDimensions};
use crate::charmap::{char_to_cell_index, glyph_cell, CHARMAP_NCOLS, CHARMAP_NROWS, CHAR_EMPTY_SPACE_INDEX};
use crate::error::{error_of, A2DError, ErrorKind};
use crate::geo::{q_pos, Dimensions, Rect};
use crate::inst::is_white;
use crate::map::SpriteMap;
use crate::ratio::{fits_i64, q_add, q_lt, q_scale, Ratio};
use crate::sheet::SpriteSheet;
use std::rc::Rc;
use vstd::prelude::*;

verus! {

broadcast use crate::cells::lemma_dims_bounded, crate::ratio::lemma_ratio_den_pos;

/// The cursor and glyphs after one character of `write_str`: a character
/// at a column inside the grid is drawn there; a newline then moves to the
/// start of the next row, anything else one column right. Nothing happens
/// once the cursor is below the last row.
pub open spec fn text_step(nrows: int, ncols: int, st: (int, int, Seq<u32>), ch: char) -> (int, int, Seq<u32>) {
    let (row, col, g) = st;
    if row >= nrows {
        st
    } else {
        let g2 = if col < ncols { g.update(row * ncols + col, glyph_cell(ch) as u32) } else { g };
        if ch == '\n' {
            (row + 1, 0, g2)
        } else {
            (row, if col < ncols { col + 1 } else { col }, g2)
        }
    }
}

/// The cursor and glyphs after writing `s` from state `st`.
pub open spec fn text_run(nrows: int, ncols: int, st: (int, int, Seq<u32>), s: Seq<char>) -> (int, int, Seq<u32>)
    decreases s.len(),
{
    if s.len() == 0 {
        st
    } else {
        text_step(nrows, ncols, text_run(nrows, ncols, st, s.drop_last()), s.last())
    }
}

/// Whether `r` is the destination of the slot at `(row, col)` for
/// character cells of width `w` (and height `12 w / 7`), before the grid's
/// translation.
pub open spec fn is_slot_rect(w: (int, int), r: Rect, row: int, col: int) -> bool {
    &&& r@.0@ == (w.0 * col, w.1)
    &&& r@.1@ == (12 * w.0 * row, 7 * w.1)
    &&& r@.2@ == (w.0 * (col + 1), w.1)
    &&& r@.3@ == (12 * w.0 * (row + 1), 7 * w.1)
}

/// A fixed grid of character slots drawn with the monospace glyph atlas.
/// Slot `(row, col)` is instance `row * ncols + col` of the batch, made
/// blank when the grid is made; writing a character changes the atlas cell
/// that the slot shows.
#[derive(Debug)]
pub struct TextGrid {
    smap: SpriteMap,
    dim: [u32; 2],
    char_dim: Dimensions,
    glyphs: Vec<u32>,
}

impl TextGrid {
    pub closed spec fn smap_spec(&self) -> SpriteMap {
        self.smap
    }

    pub closed spec fn rows(&self) -> int {
        self.dim[0] as int
    }

    pub closed spec fn cols(&self) -> int {
        self.dim[1] as int
    }

    pub closed spec fn char_dim_spec(&self) -> Dimensions {
        self.char_dim
    }

    /// The atlas cell shown by each slot, row-major.
    pub closed spec fn glyphs_spec(&self) -> Seq<u32> {
        self.glyphs@
    }

    pub open spec fn instances_spec(&self) -> Seq<crate::inst::Instance> {
        self.smap_spec().batch_spec().instances_spec()
    }

    /// Each slot has its instance, and each instance shows its slot's
    /// glyph from the atlas.
    pub open spec fn wf(&self) -> bool {
        &&& self.smap_spec().wf()
        &&& self.smap_spec().dims_spec().rows() == CHARMAP_NROWS
        &&& self.smap_spec().dims_spec().cols() == CHARMAP_NCOLS
        &&& self.rows() * self.cols() <= u32::MAX
        &&& self.glyphs_spec().len() == self.rows() * self.cols()
        &&& self.instances_spec().len() == self.glyphs_spec().len()
        &&& forall|k: int| 0 <= k < self.glyphs_spec().len() ==> {
            &&& #[trigger] self.glyphs_spec()[k] < CHARMAP_NROWS * CHARMAP_NCOLS
            &&& self.smap_spec().is_source_of(self.instances_spec()[k]@.0, self.glyphs_spec()[k] as int)
        }
    }

    /// The slots' destinations, rotations and color factors are those of
    /// `other`.
    pub open spec fn same_layout(&self, other: &TextGrid) -> bool {
        &&& self.rows() == other.rows()
        &&& self.cols() == other.cols()
        &&& self.char_dim_spec() == other.char_dim_spec()
        &&& self.smap_spec().batch_spec().translation_spec() == other.smap_spec().batch_spec().translation_spec()
        &&& self.instances_spec().len() == other.instances_spec().len()
        &&& forall|k: int| 0 <= k < self.instances_spec().len() ==> {
            &&& (#[trigger] self.instances_spec()[k])@.1 == other.instances_spec()[k]@.1
            &&& self.instances_spec()[k]@.2 == other.instances_spec()[k]@.2
            &&& self.instances_spec()[k]@.3 == other.instances_spec()[k]@.3
        }
    }

    /// Whether a grid of `dim` slots of width `char_width` has all its
    /// coordinates within 64 bits and its slot count within `u32`.
    pub open spec fn size_fits(char_width: (int, int), dim: [u32; 2]) -> bool {
        &&& dim[0] * dim[1] <= u32::MAX
        &&& char_width.0 * dim[1] <= i64::MAX
        &&& 12 * char_width.0 <= i64::MAX
        &&& 12 * char_width.0 * dim[0] <= i64::MAX
        &&& 7 * char_width.1 <= i64::MAX
    }

    /// A grid of `dim = [nrows, ncols]` blank slots drawn from the atlas
    /// `sheet`, with its upper-left corner at the origin. Each slot is
    /// `char_width` wide and `12 / 7` as high: a 3:4 glyph box, adjusted
    /// for the atlas cells being trimmed by 30% horizontally and by 10%
    /// vertically.
    pub fn new(sheet: Rc<SpriteSheet>, char_width: Ratio, dim: [u32; 2]) -> (r: TextGrid)
        requires
            q_pos(char_width@),
            TextGrid::size_fits(char_width@, dim),
        ensures
            r.wf(),
            r.rows() == dim[0],
            r.cols() == dim[1],
            r.char_dim_spec().width == char_width,
            r.char_dim_spec().height@ == (12 * char_width@.0, 7 * char_width@.1),
            r.smap_spec().batch_spec().sheet_spec() == sheet,
            forall|k: int| 0 <= k < r.glyphs_spec().len() ==> #[trigger] r.glyphs_spec()[k] == CHAR_EMPTY_SPACE_INDEX,
            forall|k: int| 0 <= k < r.instances_spec().len() ==> {
                &&& is_slot_rect(
                    char_width@,
                    (#[trigger] r.instances_spec()[k])@.1,
                    k / (dim[1] as int),
                    k % (dim[1] as int),
                )
                &&& r.instances_spec()[k]@.2@ == (0int, 1int)
                &&& is_white(r.instances_spec()[k]@.3)
            },
            r.instances_spec().len() == dim[0] * dim[1],
            r.smap_spec().batch_spec().translation_spec()[0]@ == (0int, 1int),
            r.smap_spec().batch_spec().translation_spec()[1]@ == (0int, 1int),
    {
        let nrows = dim[0];
        let ncols = dim[1];
        let char_height = char_width.scale_by(12).divide_by(7);
        let char_dim = Dimensions { width: char_width, height: char_height };
        let trim_x = Ratio::new(3, 10);
        let trim_y = Ratio::new(1, 10);
        assert(clamped_trim(trim_x@) == trim_x@ && clamped_trim(trim_y@) == trim_y@);
        let mut smap = SpriteMap::with_trims(
            sheet,
            SpriteMapDimensions::new(CHARMAP_NROWS, CHARMAP_NCOLS),
            char_dim,
            [trim_x, trim_y],
        );
        let n = nrows * ncols;
        let mut glyphs: Vec<u32> = Vec::new();
        let mut k: u32 = 0;
        while k < n
            invariant
                k <= n,
                n == nrows * ncols,
                TextGrid::size_fits(char_width@, dim),
                nrows == dim[0],
                ncols == dim[1],
                q_pos(char_width@),
                char_height@ == (12 * char_width@.0, 7 * char_width@.1),
                smap.wf(),
                smap.dims_spec().rows() == CHARMAP_NROWS,
                smap.dims_spec().cols() == CHARMAP_NCOLS,
                smap.dst_dim_spec() == char_dim,
                smap.batch_spec().sheet_spec() == sheet,
                smap.batch_spec().translation_spec()[0]@ == (0int, 1int),
                smap.batch_spec().translation_spec()[1]@ == (0int, 1int),
                glyphs@.len() == k,
                smap.batch_spec().instances_spec().len() == k,
                forall|j: int| 0 <= j < k ==> {
                    &&& #[trigger] glyphs@[j] == CHAR_EMPTY_SPACE_INDEX
                    &&& smap.is_source_of(smap.batch_spec().instances_spec()[j]@.0, CHAR_EMPTY_SPACE_INDEX as int)
                    &&& is_slot_rect(char_width@, smap.batch_spec().instances_spec()[j]@.1, j / (ncols as int), j % (ncols as int))
                    &&& smap.batch_spec().instances_spec()[j]@.2@ == (0int, 1int)
                    &&& is_white(smap.batch_spec().instances_spec()[j]@.3)
                },
            decreases n - k,
        {
            let row = k / ncols;
            let col = k % ncols;
            proof {
                crate::cells::lemma_row_below(k as int, nrows as int, ncols as int);
                let a = char_width@.0;
                assert(a * col < a * ncols && a * (col + 1) <= a * ncols && 0 <= a * col) by (nonlinear_arith)
                    requires
                        col < ncols,
                        a > 0,
                ;
                assert(12 * a * row < 12 * a * nrows && 12 * a * (row + 1) <= 12 * a * nrows && 0 <= 12 * a * row)
                    by (nonlinear_arith)
                    requires
                        row < nrows,
                        a > 0,
                ;
            }
            let x1 = char_width.scale_by(col as i64);
            let x2 = char_width.scale_by(col as i64 + 1);
            let y1 = char_height.scale_by(row as i64);
            let y2 = char_height.scale_by(row as i64 + 1);
            proof {
                let (a, b) = char_width@;
                assert(q_lt(x1@, x2@)) by (nonlinear_arith)
                    requires
                        x1@ == (a * col, b),
                        x2@ == (a * (col + 1), b),
                        a > 0,
                        b > 0,
                ;
                assert(q_lt(y1@, y2@)) by (nonlinear_arith)
                    requires
                        y1@ == (12 * a * row, 7 * b),
                        y2@ == (12 * a * (row + 1), 7 * b),
                        a > 0,
                        b > 0,
                ;
            }
            let dst = Rect::from_ordered(x1, y1, x2, y2);
            let ghost before = smap.batch_spec().instances_spec();
            smap.add_at(dst, CHAR_EMPTY_SPACE_INDEX);
            glyphs.push(CHAR_EMPTY_SPACE_INDEX);
            proof {
                let now = smap.batch_spec().instances_spec();
                assert forall|j: int| 0 <= j < k + 1 implies {
                    &&& #[trigger] glyphs@[j] == CHAR_EMPTY_SPACE_INDEX
                    &&& smap.is_source_of(now[j]@.0, CHAR_EMPTY_SPACE_INDEX as int)
                    &&& is_slot_rect(char_width@, now[j]@.1, j / (ncols as int), j % (ncols as int))
                    &&& now[j]@.2@ == (0int, 1int)
                    &&& is_white(now[j]@.3)
                } by {
                    if j < k {
                        assert(now[j] == before[j]);
                    }
                }
            }
            k = k + 1;
        }
        proof {
            assert forall|j: int| 0 <= j < n implies {
                &&& is_slot_rect(
                    char_width@,
                    (#[trigger] smap.batch_spec().instances_spec()[j])@.1,
                    j / (ncols as int),
                    j % (ncols as int),
                )
                &&& smap.batch_spec().instances_spec()[j]@.2@ == (0int, 1int)
                &&& is_white(smap.batch_spec().instances_spec()[j]@.3)
            } by {
                assert(glyphs@[j] == CHAR_EMPTY_SPACE_INDEX);
            }
        }
        TextGrid { smap, dim, char_dim, glyphs }
    }

    /// `new` where its size bounds hold; a `Config` error when
    /// `char_width` is not positive or the grid does not fit 64-bit
    /// coordinates and `u32` slot counts.
    pub fn try_new(sheet: Rc<SpriteSheet>, char_width: Ratio, dim: [u32; 2]) -> (r: Result<TextGrid, A2DError>)
        ensures
            r is Ok <==> q_pos(char_width@) && TextGrid::size_fits(char_width@, dim),
            r is Err ==> r->Err_0.kind_spec() == ErrorKind::Config,
            r matches Ok(g) ==> {
                &&& g.wf()
                &&& g.rows() == dim[0]
                &&& g.cols() == dim[1]
                &&& g.char_dim_spec().width == char_width
                &&& g.char_dim_spec().height@ == (12 * char_width@.0, 7 * char_width@.1)
                &&& g.smap_spec().batch_spec().sheet_spec() == sheet
                &&& forall|k: int| 0 <= k < g.glyphs_spec().len() ==> #[trigger] g.glyphs_spec()[k] == CHAR_EMPTY_SPACE_INDEX
            },
    {
        let a = char_width.numer() as i128;
        let b = char_width.denom() as i128;
        let rows = dim[0] as i128;
        let cols = dim[1] as i128;
        let max = i64::MAX as i128;
        if a <= 0 {
            return Err(error_of(ErrorKind::Config, "the character width must be positive"));
        }
        proof {
            assert(0 <= rows * cols <= 0xffff_ffff * 0xffff_ffff) by (nonlinear_arith)
                requires 0 <= rows <= 0xffff_ffff, 0 <= cols <= 0xffff_ffff;
            assert(0 < a * cols + a <= 0x7fff_ffff_ffff_ffff * 0x1_0000_0000) by (nonlinear_arith)
                requires 0 < a <= 0x7fff_ffff_ffff_ffff, 0 <= cols <= 0xffff_ffff;
            assert(0 <= 12 * a * rows <= 12 * 0x7fff_ffff_ffff_ffff * 0xffff_ffff) by (nonlinear_arith)
                requires 0 < a <= 0x7fff_ffff_ffff_ffff, 0 <= rows <= 0xffff_ffff;
        }
        if rows * cols > u32::MAX as i128 || a * cols > max || 12 * a > max || 12 * a * rows > max || 7 * b > max {
            return Err(error_of(ErrorKind::Config, "the text grid does not fit 64-bit coordinates"));
        }
        Ok(TextGrid::new(sheet, char_width, dim))
    }

    /// The width of a character slot.
    pub fn char_width(&self) -> (r: Ratio)
        ensures
            r == self.char_dim_spec().width,
    {
        self.char_dim.width
    }

    /// The height of a character slot.
    pub fn char_height(&self) -> (r: Ratio)
        ensures
            r == self.char_dim_spec().height,
    {
        self.char_dim.height
    }

    pub fn char_dim(&self) -> (r: Dimensions)
        ensures
            r == self.char_dim_spec(),
    {
        self.char_dim
    }

    /// Whether the on-screen rectangle of slot `(row, col)` has all its
    /// coordinates within 64 bits.
    pub open spec fn coord_fits(&self, row: int, col: int) -> bool {
        let w = self.char_dim_spec().width@;
        let h = self.char_dim_spec().height@;
        let t = self.smap_spec().batch_spec().translation_spec();
        &&& fits_i64(w.0 * (col + 1))
        &&& fits_i64(h.0 * (row + 1))
        &&& fits_i64(q_add(q_scale(w, col), t[0]@).0)
        &&& fits_i64(q_add(q_scale(w, col + 1), t[0]@).0)
        &&& fits_i64(q_add(q_scale(w, col), t[0]@).1)
        &&& fits_i64(q_add(q_scale(h, row), t[1]@).0)
        &&& fits_i64(q_add(q_scale(h, row + 1), t[1]@).0)
        &&& fits_i64(q_add(q_scale(h, row), t[1]@).1)
    }

    /// Where slot `[row, col]` is drawn: the slot's box moved by the
    /// grid's translation.
    pub fn rect_for_coord(&self, row_col: [u32; 2]) -> (r: Rect)
        requires
            q_pos(self.char_dim_spec().width@),
            q_pos(self.char_dim_spec().height@),
            self.coord_fits(row_col[0] as int, row_col[1] as int),
        ensures
            ({
                let w = self.char_dim_spec().width@;
                let h = self.char_dim_spec().height@;
                let t = self.smap_spec().batch_spec().translation_spec();
                let (row, col) = (row_col[0] as int, row_col[1] as int);
                &&& r@.0@ == q_add(q_scale(w, col), t[0]@)
                &&& r@.1@ == q_add(q_scale(h, row), t[1]@)
                &&& r@.2@ == q_add(q_scale(w, col + 1), t[0]@)
                &&& r@.3@ == q_add(q_scale(h, row + 1), t[1]@)
            }),
    {
        let row = row_col[0] as i64;
        let col = row_col[1] as i64;
        let t = self.smap.translation();
        let w = self.char_dim.width;
        let h = self.char_dim.height;
        proof {
            let (a, b) = w@;
            assert(0 <= a * col <= a * (col + 1)) by (nonlinear_arith)
                requires
                    a > 0,
                    col >= 0,
            ;
            let (c, d) = h@;
            assert(0 <= c * row <= c * (row + 1)) by (nonlinear_arith)
                requires
                    c > 0,
                    row >= 0,
            ;
        }
        let x1 = w.scale_by(col).plus(&t[0]);
        let x2 = w.scale_by(col + 1).plus(&t[0]);
        let y1 = h.scale_by(row).plus(&t[1]);
        let y2 = h.scale_by(row + 1).plus(&t[1]);
        proof {
            lemma_shift_keeps_order(w@, col as int, t[0]@);
            lemma_shift_keeps_order(h@, row as int, t[1]@);
        }
        Rect::from_ordered(x1, y1, x2, y2)
    }

    fn write_slot(&mut self, k: usize, ch: char)
        requires
            old(self).wf(),
            k < old(self).glyphs_spec().len(),
        ensures
            final(self).wf(),
            final(self).same_layout(old(self)),
            final(self).glyphs_spec() == old(self).glyphs_spec().update(k as int, glyph_cell(ch) as u32),
            final(self).smap_spec().batch_spec().sheet_spec() == old(self).smap_spec().batch_spec().sheet_spec(),
    {
        let cell = char_to_cell_index(ch);
        let ghost before = self.smap.batch_spec().instances_spec();
        let r = self.smap.set_cell(k, cell);
        self.glyphs.set(k, cell);
        proof {
            let now = self.smap.batch_spec().instances_spec();
            assert forall|j: int| 0 <= j < self.glyphs@.len() implies {
                &&& #[trigger] self.glyphs@[j] < CHARMAP_NROWS * CHARMAP_NCOLS
                &&& self.smap.is_source_of(now[j]@.0, self.glyphs@[j] as int)
            } by {
                if j != k {
                    assert(now[j] == before[j]);
                }
            }
            assert forall|j: int| 0 <= j < now.len() implies {
                &&& (#[trigger] now[j])@.1 == before[j]@.1
                &&& now[j]@.2 == before[j]@.2
                &&& now[j]@.3 == before[j]@.3
            } by {
                if j != k {
                    assert(now[j] == before[j]);
                }
            }
        }
    }

    /// Shows `ch` in slot `[row, col]`; characters outside `'!'..='~'` show
    /// the blank cell. An `Index` error, with nothing changed, when the slot
    /// is outside the grid.
    pub fn write_ch(&mut self, coord: [u32; 2], ch: char) -> (r: Result<(), A2DError>)
        requires
            old(self).wf(),
        ensures
            final(self).wf(),
            final(self).same_layout(old(self)),
            r is Ok <==> coord[0] < old(self).rows() && coord[1] < old(self).cols(),
            r is Ok ==> final(self).glyphs_spec() == old(self).glyphs_spec().update(
                coord[0] * old(self).cols() + coord[1],
                glyph_cell(ch) as u32,
            ),
            r is Err ==> final(self).glyphs_spec() == old(self).glyphs_spec()
                && r->Err_0.kind_spec() == ErrorKind::Index,
    {
        let row = coord[0];
        let col = coord[1];
        if row < self.dim[0] && col < self.dim[1] {
            proof {
                assert(row * self.dim[1] + col < self.dim[0] * self.dim[1]) by (nonlinear_arith)
                    requires
                        row < self.dim[0],
                        col < self.dim[1],
                ;
            }
            let k = (row * self.dim[1] + col) as usize;
            self.write_slot(k, ch);
            Ok(())
        } else {
            Err(error_of(ErrorKind::Index, "grid coordinate out of range"))
        }
    }

    /// Writes `s` from slot `coord`, left to right without wrapping: a
    /// newline moves to the start of the next row, characters past the end
    /// of a row are dropped, and writing stops below the last row.
    pub fn write_str(&mut self, coord: [u32; 2], s: &str)
        requires
            old(self).wf(),
        ensures
            final(self).wf(),
            final(self).same_layout(old(self)),
            final(self).glyphs_spec() == text_run(
                old(self).rows(),
                old(self).cols(),
                (coord[0] as int, coord[1] as int, old(self).glyphs_spec()),
                s@,
            ).2,
    {
        let nrows = self.dim[0];
        let ncols = self.dim[1];
        let mut row = coord[0];
        let mut col = coord[1];
        let ghost start = (coord[0] as int, coord[1] as int, self.glyphs@);
        let ghost orig = *self;
        proof {
            broadcast use vstd::string::axiom_spec_iter;
        }
        for ch in it: s.chars()
            invariant
                self.wf(),
                self.same_layout(&orig),
                nrows == self.rows(),
                ncols == self.cols(),
                it.seq() == s@,
                (row as int, col as int, self.glyphs@) == text_run(
                    nrows as int,
                    ncols as int,
                    start,
                    s@.subrange(0, it.index() as int),
                ),
        {
            proof {
                let pre = s@.subrange(0, it.index() + 1);
                assert(pre.drop_last() =~= s@.subrange(0, it.index() as int));
            }
            if row < nrows {
                if col < ncols {
                    proof {
                        assert(row * ncols + col < nrows * ncols) by (nonlinear_arith)
                            requires
                                row < nrows,
                                col < ncols,
                        ;
                    }
                    let k = (row * ncols + col) as usize;
                    self.write_slot(k, ch);
                }
                if ch == '\n' {
                    row = row + 1;
                    col = 0;
                } else if col < ncols {
                    col = col + 1;
                }
            }
        }
        proof {
            assert(s@.subrange(0, s@.len() as int) =~= s@);
        }
    }

    /// The number of rows of slots.
    pub fn nrows(&self) -> (r: u32)
        ensures
            r == self.rows(),
    {
        self.dim[0]
    }

    /// The number of columns of slots.
    pub fn ncols(&self) -> (r: u32)
        ensures
            r == self.cols(),
    {
        self.dim[1]
    }

    /// `[nrows, ncols]`.
    pub fn dimensions(&self) -> (r: [u32; 2])
        ensures
            r[0] == self.rows(),
            r[1] == self.cols(),
    {
        self.dim
    }

    /// The atlas cell shown in slot `[row, col]`; `None` outside the grid.
    pub fn glyph_at(&self, coord: [u32; 2]) -> (r: Option<u32>)
        requires
            self.wf(),
        ensures
            r is Some <==> coord[0] < self.rows() && coord[1] < self.cols(),
            r is Some ==> r->0 == self.glyphs_spec()[coord[0] * self.cols() + coord[1]],
    {
        if coord[0] < self.dim[0] && coord[1] < self.dim[1] {
            proof {
                assert(coord[0] * self.dim[1] + coord[1] < self.dim[0] * self.dim[1]) by (nonlinear_arith)
                    requires
                        coord[0] < self.dim[0],
                        coord[1] < self.dim[1],
                ;
            }
            Some(self.glyphs[(coord[0] * self.dim[1] + coord[1]) as usize])
        } else {
            None
        }
    }

    /// The batch drawing the grid.
    pub fn batch(&self) -> (r: &SpriteBatch)
        ensures
            *r == self.smap_spec().batch_spec(),
    {
        self.smap.batch()
    }

    pub fn set_translation(&mut self, translation: [Ratio; 2])
        requires
            old(self).wf(),
        ensures
            final(self).wf(),
            final(self).smap_spec().batch_spec().translation_spec() == translation,
            final(self).instances_spec() == old(self).instances_spec(),
            final(self).glyphs_spec() == old(self).glyphs_spec(),
            final(self).char_dim_spec() == old(self).char_dim_spec(),
            final(self).rows() == old(self).rows(),
            final(self).cols() == old(self).cols(),
    {
        self.smap.set_translation(translation);
    }

    pub fn translation(&self) -> (r: [Ratio; 2])
        ensures
            r == self.smap_spec().batch_spec().translation_spec(),
    {
        self.smap.translation()
    }
}

/// Writing `"AB\nC"` from the upper-left slot of a grid at least two
/// columns wide and two rows high shows `A` at `(0, 0)`, `B` at `(0, 1)`
/// and `C` at `(1, 0)`.
pub proof fn lemma_write_two_lines(nrows: int, ncols: int, glyphs: Seq<u32>)
    requires
        nrows >= 2,
        ncols >= 2,
        glyphs.len() == nrows * ncols,
    ensures
        ({
            let g = text_run(nrows, ncols, (0, 0, glyphs), seq!['A', 'B', '\n', 'C']).2;
            &&& g[0] == glyph_cell('A')
            &&& g[1] == glyph_cell('B')
            &&& g[ncols] == glyph_cell('C')
        }),
{
    let s = seq!['A', 'B', '\n', 'C'];
    assert(2 < nrows * ncols && ncols < nrows * ncols && 1 < ncols) by (nonlinear_arith)
        requires
            nrows >= 2,
            ncols >= 2,
    ;
    let s1 = seq!['A'];
    let s2 = seq!['A', 'B'];
    let s3 = seq!['A', 'B', '\n'];
    assert(s1.drop_last() =~= Seq::<char>::empty());
    assert(s2.drop_last() =~= s1);
    assert(s3.drop_last() =~= s2);
    assert(s.drop_last() =~= s3);
    reveal_with_fuel(text_run, 2);
    let st0 = (0int, 0int, glyphs);
    assert(text_run(nrows, ncols, st0, Seq::<char>::empty()) == st0);
    let st1 = text_run(nrows, ncols, st0, s1);
    assert(st1 == text_step(nrows, ncols, st0, 'A'));
    assert(st1.0 == 0 && st1.1 == 1 && st1.2[0] == glyph_cell('A'));
    let st2 = text_run(nrows, ncols, st0, s2);
    assert(st2 == text_step(nrows, ncols, st1, 'B'));
    assert(st2.0 == 0 && st2.1 == 2 && st2.2[0] == glyph_cell('A') && st2.2[1] == glyph_cell('B'));
    let st3 = text_run(nrows, ncols, st0, s3);
    assert(st3 == text_step(nrows, ncols, st2, '\n'));
    assert(st3.0 == 1 && st3.1 == 0 && st3.2.len() == glyphs.len());
    assert(st3.2[0] == glyph_cell('A') && st3.2[1] == glyph_cell('B'));
    let st4 = text_run(nrows, ncols, st0, s);
    assert(st4 == text_step(nrows, ncols, st3, 'C'));
}

/// Adding the same offset to `w * k` and `w * (k + 1)` keeps them in order
/// for a positive `w`.
pub proof fn lemma_shift_keeps_order(w: (int, int), k: int, t: (int, int))
    requires
        w.0 > 0,
        w.1 > 0,
        t.1 > 0,
    ensures
        q_lt(q_add(q_scale(w, k), t), q_add(q_scale(w, k + 1), t)),
{
    let (a, b) = w;
    let (c, d) = t;
    assert((a * k * d + c * b) * (b * d) < (a * (k + 1) * d + c * b) * (b * d)) by (nonlinear_arith)
        requires
            a > 0,
            b > 0,
            d > 0,
    ;
}

} // verus!
