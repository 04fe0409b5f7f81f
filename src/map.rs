use crate::batch::SpriteBatch;
use crate::cells::{cell_coord_of, cell_index_of, clamped_trim, trim_admissible, SpriteMapDimensions};
use crate::error::{A2DError, ErrorKind};
use crate::geo::{centered_fits, centered_hi, centered_lo, q_pos, Dimensions, Point, Rect};
use crate::inst::Instance;
use crate::ratio::Ratio;
use crate::sheet::SpriteSheet;
use std::rc::Rc;
use vstd::prelude::*;

verus! {

broadcast use crate::cells::lemma_dims_bounded;

/// A sprite batch over a sheet made of equal cells, addressed by cell
/// index. New instances get a fixed default destination size.
#[derive(Debug)]
pub struct SpriteMap {
    batch: SpriteBatch,
    dimensions: SpriteMapDimensions,
    default_dst_dim: Dimensions,
    border_trim: [Ratio; 2],
}

impl SpriteMap {
    pub closed spec fn batch_spec(&self) -> SpriteBatch {
        self.batch
    }

    pub closed spec fn dims_spec(&self) -> SpriteMapDimensions {
        self.dimensions
    }

    pub closed spec fn dst_dim_spec(&self) -> Dimensions {
        self.default_dst_dim
    }

    /// The horizontal and vertical trim factors, each in `[0, 1)`.
    pub closed spec fn trim_spec(&self) -> [Ratio; 2] {
        self.border_trim
    }

    /// The fixed parameters are usable: trims in `[0, 1)` whose cell edges
    /// fit in 64 bits, and a positive default size.
    pub open spec fn wf(&self) -> bool {
        &&& trim_admissible(self.trim_spec()[0]@)
        &&& trim_admissible(self.trim_spec()[1]@)
        &&& self.dims_spec().trim_fits(clamped_trim(self.trim_spec()[0]@))
        &&& self.dims_spec().trim_fits(clamped_trim(self.trim_spec()[1]@))
        &&& q_pos(self.dst_dim_spec().width@)
        &&& q_pos(self.dst_dim_spec().height@)
    }

    /// Whether `r` shows cell `cell_index` of this map's sheet.
    pub open spec fn is_source_of(&self, r: Rect, cell_index: int) -> bool {
        self.dims_spec().is_cell_rect_xy(
            r,
            cell_index,
            clamped_trim(self.trim_spec()[0]@),
            clamped_trim(self.trim_spec()[1]@),
        )
    }

    /// Whether `r` is the default-size rectangle centered on `center`.
    pub open spec fn is_dst_at(&self, r: Rect, center: Point) -> bool {
        &&& r@.0@ == centered_lo(center.x@, self.dst_dim_spec().width@)
        &&& r@.1@ == centered_lo(center.y@, self.dst_dim_spec().height@)
        &&& r@.2@ == centered_hi(center.x@, self.dst_dim_spec().width@)
        &&& r@.3@ == centered_hi(center.y@, self.dst_dim_spec().height@)
    }

    /// Whether a default-size rectangle centered on `center` fits in 64 bits.
    pub open spec fn center_fits(&self, center: Point) -> bool {
        centered_fits(center.x@, self.dst_dim_spec().width@)
            && centered_fits(center.y@, self.dst_dim_spec().height@)
    }

    /// A map trimming `border_trim_factor / 2` of each cell on every side;
    /// a factor of 1 is clamped (see `clamped_trim`).
    pub fn new(
        sheet: Rc<SpriteSheet>,
        dimensions: SpriteMapDimensions,
        default_dst_dim: Dimensions,
        border_trim_factor: Ratio,
    ) -> (r: SpriteMap)
        requires
            trim_admissible(border_trim_factor@),
            dimensions.trim_fits(clamped_trim(border_trim_factor@)),
            q_pos(default_dst_dim.width@),
            q_pos(default_dst_dim.height@),
        ensures
            r.wf(),
            r.dims_spec() == dimensions,
            r.dst_dim_spec() == default_dst_dim,
            r.trim_spec() == [border_trim_factor, border_trim_factor],
            r.batch_spec().instances_spec().len() == 0,
            r.batch_spec().sheet_spec() == sheet,
            r.batch_spec().translation_spec()[0]@ == (0int, 1int),
            r.batch_spec().translation_spec()[1]@ == (0int, 1int),
            r.batch_spec().scale_spec()[0]@ == (1int, 1int),
            r.batch_spec().scale_spec()[1]@ == (1int, 1int),
    {
        SpriteMap::with_trims(sheet, dimensions, default_dst_dim, [border_trim_factor, border_trim_factor])
    }

    /// A map trimming `trims[0] / 2` of each cell on the left and right and
    /// `trims[1] / 2` on the top and bottom.
    pub fn with_trims(
        sheet: Rc<SpriteSheet>,
        dimensions: SpriteMapDimensions,
        default_dst_dim: Dimensions,
        trims: [Ratio; 2],
    ) -> (r: SpriteMap)
        requires
            trim_admissible(trims[0]@),
            trim_admissible(trims[1]@),
            dimensions.trim_fits(clamped_trim(trims[0]@)),
            dimensions.trim_fits(clamped_trim(trims[1]@)),
            q_pos(default_dst_dim.width@),
            q_pos(default_dst_dim.height@),
        ensures
            r.wf(),
            r.dims_spec() == dimensions,
            r.dst_dim_spec() == default_dst_dim,
            r.trim_spec() == trims,
            r.batch_spec().instances_spec().len() == 0,
            r.batch_spec().sheet_spec() == sheet,
            r.batch_spec().translation_spec()[0]@ == (0int, 1int),
            r.batch_spec().translation_spec()[1]@ == (0int, 1int),
            r.batch_spec().scale_spec()[0]@ == (1int, 1int),
            r.batch_spec().scale_spec()[1]@ == (1int, 1int),
    {
        SpriteMap {
            batch: SpriteBatch::new(sheet),
            dimensions,
            default_dst_dim,
            border_trim: trims,
        }
    }

    /// The number of rows of cells.
    pub fn nrows(&self) -> (r: u32)
        ensures
            r == self.dims_spec().rows(),
    {
        self.dimensions.nrows()
    }

    /// The number of columns of cells.
    pub fn ncols(&self) -> (r: u32)
        ensures
            r == self.dims_spec().cols(),
    {
        self.dimensions.ncols()
    }

    /// The linear index of the cell at `[row, col]`.
    pub fn cell_index(&self, row_col: [u32; 2]) -> (r: u32)
        requires
            self.dims_spec().index_fits(row_col[0] as int, row_col[1] as int),
        ensures
            r == cell_index_of(self.dims_spec().cols(), row_col[0] as int, row_col[1] as int),
    {
        self.dimensions.cell_index(row_col)
    }

    /// The `[row, col]` of the cell with linear index `cell_index`.
    pub fn cell_coord(&self, cell_index: u32) -> (r: [u32; 2])
        ensures
            (r[0] as int, r[1] as int) == cell_coord_of(self.dims_spec().cols(), cell_index as int),
    {
        self.dimensions.cell_coord(cell_index)
    }

    fn rect_for_cell(&self, cell_index: u32) -> (r: Rect)
        requires
            self.wf(),
            (cell_index as int) < self.dims_spec().rows() * self.dims_spec().cols(),
        ensures
            self.is_source_of(r, cell_index as int),
    {
        self.dimensions.rect_for_cell_xy(cell_index, self.border_trim[0], self.border_trim[1])
    }

    /// Makes instance `instance_index` show cell `cell_index`; an `Index`
    /// error, with nothing changed, when there is no such instance.
    pub fn set_cell(&mut self, instance_index: usize, cell_index: u32) -> (r: Result<(), A2DError>)
        requires
            old(self).wf(),
            (cell_index as int) < old(self).dims_spec().rows() * old(self).dims_spec().cols(),
        ensures
            final(self).wf(),
            final(self).dims_spec() == old(self).dims_spec(),
            final(self).dst_dim_spec() == old(self).dst_dim_spec(),
            final(self).trim_spec() == old(self).trim_spec(),
            final(self).batch_spec().sheet_spec() == old(self).batch_spec().sheet_spec(),
            final(self).batch_spec().translation_spec() == old(self).batch_spec().translation_spec(),
            final(self).batch_spec().scale_spec() == old(self).batch_spec().scale_spec(),
            r is Ok <==> instance_index < old(self).batch_spec().instances_spec().len(),
            r is Err ==> r->Err_0.kind_spec() == ErrorKind::Index
                && final(self).batch_spec().instances_spec() == old(self).batch_spec().instances_spec(),
            r is Ok ==> {
                let old_insts = old(self).batch_spec().instances_spec();
                let new_insts = final(self).batch_spec().instances_spec();
                &&& new_insts.len() == old_insts.len()
                &&& forall|k: int| 0 <= k < old_insts.len() && k != instance_index ==> new_insts[k] == old_insts[k]
                &&& old(self).is_source_of(new_insts[instance_index as int]@.0, cell_index as int)
                &&& new_insts[instance_index as int]@.1 == old_insts[instance_index as int]@.1
                &&& new_insts[instance_index as int]@.2 == old_insts[instance_index as int]@.2
                &&& new_insts[instance_index as int]@.3 == old_insts[instance_index as int]@.3
            },
    {
        let src = self.rect_for_cell(cell_index);
        match self.batch.get_mut(instance_index) {
            Ok(inst) => {
                inst.set_src(src);
                Ok(())
            },
            Err(e) => Err(e),
        }
    }

    /// Adds an instance showing cell `cell_index` in the default-size
    /// rectangle centered on `center`; returns its index.
    pub fn add(&mut self, center: Point, cell_index: u32) -> (r: usize)
        requires
            old(self).wf(),
            (cell_index as int) < old(self).dims_spec().rows() * old(self).dims_spec().cols(),
            old(self).center_fits(center),
        ensures
            final(self).wf(),
            final(self).dims_spec() == old(self).dims_spec(),
            final(self).dst_dim_spec() == old(self).dst_dim_spec(),
            final(self).trim_spec() == old(self).trim_spec(),
            final(self).batch_spec().sheet_spec() == old(self).batch_spec().sheet_spec(),
            final(self).batch_spec().translation_spec() == old(self).batch_spec().translation_spec(),
            final(self).batch_spec().scale_spec() == old(self).batch_spec().scale_spec(),
            r == old(self).batch_spec().instances_spec().len(),
            final(self).batch_spec().instances_spec().drop_last() == old(self).batch_spec().instances_spec(),
            final(self).batch_spec().instances_spec().len() == r + 1,
            old(self).is_source_of(final(self).batch_spec().instances_spec().last()@.0, cell_index as int),
            old(self).is_dst_at(final(self).batch_spec().instances_spec().last()@.1, center),
            final(self).batch_spec().instances_spec().last()@.2@ == (0int, 1int),
            crate::inst::is_white(final(self).batch_spec().instances_spec().last()@.3),
    {
        let dst = Rect::centered(center, self.default_dst_dim);
        self.add_at(dst, cell_index)
    }

    /// Adds an instance showing cell `cell_index` in the rectangle `dst`,
    /// unrotated and untinted; returns its index.
    pub fn add_at(&mut self, dst: Rect, cell_index: u32) -> (r: usize)
        requires
            old(self).wf(),
            (cell_index as int) < old(self).dims_spec().rows() * old(self).dims_spec().cols(),
        ensures
            final(self).wf(),
            final(self).dims_spec() == old(self).dims_spec(),
            final(self).dst_dim_spec() == old(self).dst_dim_spec(),
            final(self).trim_spec() == old(self).trim_spec(),
            final(self).batch_spec().sheet_spec() == old(self).batch_spec().sheet_spec(),
            final(self).batch_spec().translation_spec() == old(self).batch_spec().translation_spec(),
            final(self).batch_spec().scale_spec() == old(self).batch_spec().scale_spec(),
            r == old(self).batch_spec().instances_spec().len(),
            final(self).batch_spec().instances_spec().drop_last() == old(self).batch_spec().instances_spec(),
            final(self).batch_spec().instances_spec().len() == r + 1,
            old(self).is_source_of(final(self).batch_spec().instances_spec().last()@.0, cell_index as int),
            final(self).batch_spec().instances_spec().last()@.1 == dst,
            final(self).batch_spec().instances_spec().last()@.2@ == (0int, 1int),
            crate::inst::is_white(final(self).batch_spec().instances_spec().last()@.3),
    {
        let src = self.rect_for_cell(cell_index);
        let inst = Instance::builder().src(src).dest(dst).build();
        let r = self.batch.add(inst);
        proof {
            assert(self.batch.instances_spec().drop_last() =~= old(self).batch.instances_spec());
        }
        r
    }

    /// Moves instance `instance_index` so that its default-size rectangle
    /// is centered on `new_center`; an `Index` error, with nothing changed,
    /// when there is no such instance.
    pub fn move_to(&mut self, instance_index: usize, new_center: Point) -> (r: Result<(), A2DError>)
        requires
            old(self).wf(),
            old(self).center_fits(new_center),
        ensures
            final(self).wf(),
            final(self).dims_spec() == old(self).dims_spec(),
            final(self).dst_dim_spec() == old(self).dst_dim_spec(),
            final(self).trim_spec() == old(self).trim_spec(),
            final(self).batch_spec().sheet_spec() == old(self).batch_spec().sheet_spec(),
            final(self).batch_spec().translation_spec() == old(self).batch_spec().translation_spec(),
            final(self).batch_spec().scale_spec() == old(self).batch_spec().scale_spec(),
            r is Ok <==> instance_index < old(self).batch_spec().instances_spec().len(),
            r is Err ==> r->Err_0.kind_spec() == ErrorKind::Index
                && final(self).batch_spec().instances_spec() == old(self).batch_spec().instances_spec(),
            r is Ok ==> {
                let old_insts = old(self).batch_spec().instances_spec();
                let new_insts = final(self).batch_spec().instances_spec();
                &&& new_insts.len() == old_insts.len()
                &&& forall|k: int| 0 <= k < old_insts.len() && k != instance_index ==> new_insts[k] == old_insts[k]
                &&& old(self).is_dst_at(new_insts[instance_index as int]@.1, new_center)
                &&& new_insts[instance_index as int]@.0 == old_insts[instance_index as int]@.0
                &&& new_insts[instance_index as int]@.2 == old_insts[instance_index as int]@.2
                &&& new_insts[instance_index as int]@.3 == old_insts[instance_index as int]@.3
            },
    {
        let dst = Rect::centered(new_center, self.default_dst_dim);
        match self.batch.get_mut(instance_index) {
            Ok(inst) => {
                inst.set_dest(dst);
                Ok(())
            },
            Err(e) => Err(e),
        }
    }

    pub fn translation(&self) -> (r: [Ratio; 2])
        ensures
            r == self.batch_spec().translation_spec(),
    {
        self.batch.translation()
    }

    pub fn batch(&self) -> (r: &SpriteBatch)
        ensures
            *r == self.batch_spec(),
    {
        &self.batch
    }

    pub fn set_translation(&mut self, translation: [Ratio; 2])
        ensures
            final(self).batch_spec().translation_spec() == translation,
            final(self).batch_spec().instances_spec() == old(self).batch_spec().instances_spec(),
            final(self).batch_spec().scale_spec() == old(self).batch_spec().scale_spec(),
            final(self).batch_spec().sheet_spec() == old(self).batch_spec().sheet_spec(),
            final(self).dims_spec() == old(self).dims_spec(),
            final(self).dst_dim_spec() == old(self).dst_dim_spec(),
            final(self).trim_spec() == old(self).trim_spec(),
    {
        self.batch.set_translation(translation)
    }

    /// The width of one cell in sheet coordinates.
    pub fn cell_width(&self) -> (r: Ratio)
        ensures
            r@ == (1int, self.dims_spec().cols()),
    {
        self.dimensions.cell_width()
    }

    /// The height of one cell in sheet coordinates.
    pub fn cell_height(&self) -> (r: Ratio)
        ensures
            r@ == (1int, self.dims_spec().rows()),
    {
        self.dimensions.cell_height()
    }
}

} // verus!
