use crate::batch::{flush_range, Batch, FlushRange, SpriteBatch, SpriteDesc, SpriteUpdate};
use crate::cells::SpriteMapDimensions;
use crate::charmap::{char_to_cell_index, glyph_cell, CHAR_EMPTY_SPACE_INDEX};
use crate::color::Color;
use crate::error::{error_of, A2DError, ErrorKind};
use crate::geo::Rect;
use crate::ratio::{q_lt, Ratio};
use crate::sheet::{color_bytes, decoded_rgba, SpriteSheet};
use crate::slots::{SpriteBatchDesc, SpriteBatchId, SpriteSheetId, SLOT_LIMIT};
use std::rc::Rc;
use vstd::prelude::*;

verus! {

/// One draw of a frame: batch slot `slot`, with `instance_count` instances.
#[derive(Clone, Copy, Debug, PartialEq, Eq, Structural)]
pub struct DrawCall {
    pub slot: usize,
    pub instance_count: usize,
}

/// The draws of a frame: one per non-empty batch, in slot order. Empty
/// batches are skipped, since a GPU buffer of size zero cannot be made.
pub open spec fn plan_of(batches: Seq<Option<SpriteBatch>>) -> Seq<DrawCall>
    decreases batches.len(),
{
    if batches.len() == 0 {
        seq![]
    } else {
        let prev = plan_of(batches.drop_last());
        match batches.last() {
            Some(b) => if b.instances_spec().len() > 0 {
                prev.push(DrawCall { slot: (batches.len() - 1) as usize, instance_count: b.instances_spec().len() as usize })
            } else {
                prev
            },
            None => prev,
        }
    }
}

/// What a draw of a frame draws from.
#[derive(Clone, Copy, Debug, PartialEq, Eq, Structural)]
pub enum DrawSource {
    /// The sprite batch in a batch slot.
    Slot(usize),
    /// The pixel canvas.
    PixelCanvas,
    /// The screen text grid.
    TextGrid,
}

/// One draw of a frame: `instance_count` instances from `source`.
#[derive(Clone, Copy, Debug, PartialEq, Eq, Structural)]
pub struct FrameDraw {
    pub source: DrawSource,
    pub instance_count: usize,
}

/// The slot draws of a frame as frame draws.
pub open spec fn slot_draws(plan: Seq<DrawCall>) -> Seq<FrameDraw> {
    plan.map_values(|d: DrawCall| FrameDraw { source: DrawSource::Slot(d.slot), instance_count: d.instance_count })
}

/// The draws of a frame, in order: the non-empty batch slots in slot
/// order, then the pixel canvas, then the screen text grid, each of the
/// last two only when it exists and has instances. Later draws are drawn
/// over earlier ones.
pub open spec fn frame_plan_of(batches: Seq<Option<SpriteBatch>>, pixels: Option<PixelCanvas>, text: Option<ScreenText>) -> Seq<FrameDraw> {
    let base = slot_draws(plan_of(batches));
    let with_pixels = match pixels {
        Some(c) => if c.batch.flushed_spec().len() > 0 {
            base.push(FrameDraw { source: DrawSource::PixelCanvas, instance_count: c.batch.flushed_spec().len() as usize })
        } else {
            base
        },
        None => base,
    };
    match text {
        Some(t) => if t.batch.flushed_spec().len() > 0 {
            with_pixels.push(FrameDraw { source: DrawSource::TextGrid, instance_count: t.batch.flushed_spec().len() as usize })
        } else {
            with_pixels
        },
        None => with_pixels,
    }
}

/// The number of columns of the screen text grid when it is made on first
/// use.
pub const DEFAULT_TEXT_NCOLS: u32 = 80;

/// The screen text grid: a device-mapped batch of `nrows * ncols` glyph
/// slots over the glyph atlas, slot `(row, col)` being instance
/// `ncols * row + col`.
#[derive(Debug)]
pub struct ScreenText {
    pub batch: Batch,
    pub nrows: u32,
    pub ncols: u32,
}

/// The number of text rows that fit a screen of scale `(w, h)` with
/// `ncols` columns of cells `w / ncols` wide and `3 / 2` as high.
pub open spec fn text_rows(w: (int, int), h: (int, int), ncols: int) -> int {
    if h.0 <= 0 {
        0
    } else {
        (h.0 * (2 * w.1 * ncols)) / (h.1 * (3 * w.0))
    }
}

/// Whether `r` is the destination of screen text slot `(row, col)` for a
/// screen of width `w` split in `ncols` columns: cells `w / ncols` wide
/// and `3 / 2` as high, side by side from the origin:
/// `[col * cw, row * ch, (col + 1) * cw, (row + 1) * ch]`.
pub open spec fn is_text_cell(w: (int, int), ncols: int, r: Rect, row: int, col: int) -> bool {
    &&& r@.0@ == (w.0 * col, w.1 * ncols)
    &&& r@.2@ == (w.0 * (col + 1), w.1 * ncols)
    &&& r@.1@ == (3 * w.0 * row, 2 * w.1 * ncols)
    &&& r@.3@ == (3 * w.0 * (row + 1), 2 * w.1 * ncols)
}

/// Whether `r` is the unit square of pixel `(x, y)`.
pub open spec fn is_pixel_rect(r: Rect, x: int, y: int) -> bool {
    &&& r@.0@ == (x, 1int)
    &&& r@.1@ == (y, 1int)
    &&& r@.2@ == (x + 1, 1int)
    &&& r@.3@ == (y + 1, 1int)
}

/// Whether a screen text grid for scale `(w, h)` and `ncols` columns can
/// be laid out within 64-bit coordinates and `u32` slot counts.
pub open spec fn text_fits(w: (int, int), h: (int, int), ncols: int) -> bool {
    &&& w.0 > 0
    &&& ncols > 0
    &&& 2 * w.1 * ncols <= i64::MAX
    &&& 3 * w.0 <= i64::MAX
    &&& w.0 * ncols <= i64::MAX
    &&& text_rows(w, h, ncols) <= u32::MAX
    &&& text_rows(w, h, ncols) * ncols <= u32::MAX
    &&& 3 * w.0 * text_rows(w, h, ncols) <= i64::MAX
}

/// The slot index and atlas cell of each character of `s` that
/// `draw_text` queues, writing from `(row, col)` on a grid of `nrows` by
/// `ncols`: characters past the end of the row or outside the grid are
/// skipped, and characters the atlas does not hold show the blank cell.
pub open spec fn screen_writes(nrows: int, ncols: int, row: int, col: int, s: Seq<char>) -> Seq<(int, int)>
    decreases s.len(),
{
    if s.len() == 0 {
        seq![]
    } else {
        let prev = screen_writes(nrows, ncols, row, col, s.drop_last());
        let c = col + s.len() - 1;
        let ch = s.last();
        if row < nrows && c < ncols {
            prev.push((ncols * row + c, glyph_cell(ch)))
        } else {
            prev
        }
    }
}

/// Whether `ups` queues, in order, the source rectangle of each cell of
/// `writes` at its slot.
pub open spec fn queues_cells(ups: Seq<(usize, SpriteUpdate)>, writes: Seq<(int, int)>) -> bool {
    &&& ups.len() == writes.len()
    &&& forall|j: int| 0 <= j < writes.len() ==> {
        &&& (#[trigger] ups[j]).0 == writes[j].0
        &&& ups[j].1 matches SpriteUpdate::Src(r)
            && SpriteMapDimensions::atlas_spec().is_cell_rect(r, writes[j].1, (0, 1))
    }
}

/// Queued cells concatenate.
pub proof fn lemma_queues_concat(
    a: Seq<(usize, SpriteUpdate)>,
    x: Seq<(int, int)>,
    b: Seq<(usize, SpriteUpdate)>,
    y: Seq<(int, int)>,
)
    requires
        queues_cells(a, x),
        queues_cells(b, y),
    ensures
        queues_cells(a + b, x + y),
{
    assert forall|j: int| 0 <= j < (x + y).len() implies {
        &&& (#[trigger] (a + b)[j]).0 == (x + y)[j].0
        &&& (a + b)[j].1 matches SpriteUpdate::Src(r)
            && SpriteMapDimensions::atlas_spec().is_cell_rect(r, (x + y)[j].1, (0, 1))
    } by {
        if j < a.len() {
            assert((a + b)[j] == a[j]);
            assert((x + y)[j] == x[j]);
        } else {
            assert((a + b)[j] == b[j - a.len()]);
            assert((x + y)[j] == y[j - x.len()]);
        }
    }
}

/// Whether `t` is the screen text grid that `init_text_grid` lays out for
/// scale `(w, h)`, `ncols` columns and the glyph atlas `atlas`, whatever
/// its queue holds: every record shows the blank cell, unrotated and
/// untinted, at its slot.
pub open spec fn is_fresh_text(t: ScreenText, w: (int, int), h: (int, int), ncols: int, atlas: Rc<SpriteSheet>) -> bool {
    let recs = t.batch.flushed_spec();
    &&& t.ncols == ncols
    &&& t.nrows == text_rows(w, h, ncols)
    &&& t.batch.sheet_spec() == atlas
    &&& forall|k: int| 0 <= k < recs.len() ==> {
        &&& is_text_cell(w, ncols, (#[trigger] recs[k]).1, k / ncols, k % ncols)
        &&& SpriteMapDimensions::atlas_spec().is_cell_rect(recs[k].0, CHAR_EMPTY_SPACE_INDEX as int, (0, 1))
        &&& recs[k].2@ == (0int, 1int)
        &&& crate::inst::is_white(recs[k].3)
    }
}

impl ScreenText {
    /// A batch over the glyph atlas with one instance per slot.
    pub open spec fn wf(&self) -> bool {
        &&& self.batch.wf()
        &&& self.batch.dims_spec() == SpriteMapDimensions::atlas_spec()
        &&& self.batch.flushed_spec().len() == self.nrows * self.ncols
        &&& self.nrows * self.ncols <= u32::MAX
    }
}

/// A canvas of `width` by `height` one-unit squares, one instance each:
/// pixel `(x, y)` is instance `y * width + x`, drawn at
/// `[x, y, x + 1, y + 1]`, and is colored through its color factor.
#[derive(Debug)]
pub struct PixelCanvas {
    pub batch: Batch,
    pub width: u32,
    pub height: u32,
}

impl PixelCanvas {
    /// A batch with one instance per pixel.
    pub open spec fn wf(&self) -> bool {
        &&& self.batch.wf()
        &&& self.batch.flushed_spec().len() == self.width * self.height
        &&& self.width * self.height <= u32::MAX
    }
}

/// What a sheet slot is set to.
pub enum SpriteSheetDesc<'a> {
    /// Empty the slot.
    Clear,
    /// A one-pixel sheet of one color.
    Color(Color),
    /// A sheet decoded from image bytes.
    Bytes(&'a [u8]),
    /// A sheet made elsewhere, possibly shared with other slots.
    Sheet(Rc<SpriteSheet>),
}

/// The state that decides what a frame draws: a global scale (the
/// coordinates of the lower-right corner of the screen; the upper-left is
/// the origin) and fixed slots of sprite sheets and sprite batches.
#[derive(Debug)]
pub struct Compositor {
    scale: [Ratio; 2],
    sheets: Vec<Option<Rc<SpriteSheet>>>,
    batches: Vec<Option<SpriteBatch>>,
    text_atlas: Option<Rc<SpriteSheet>>,
    text: Option<ScreenText>,
    pixels: Option<PixelCanvas>,
}

impl Compositor {
    pub closed spec fn scale_spec(&self) -> [Ratio; 2] {
        self.scale
    }

    pub closed spec fn sheets_spec(&self) -> Seq<Option<Rc<SpriteSheet>>> {
        self.sheets@
    }

    pub closed spec fn batches_spec(&self) -> Seq<Option<SpriteBatch>> {
        self.batches@
    }

    pub closed spec fn text_spec(&self) -> Option<ScreenText> {
        self.text
    }

    pub closed spec fn text_atlas_spec(&self) -> Option<Rc<SpriteSheet>> {
        self.text_atlas
    }

    pub closed spec fn pixels_spec(&self) -> Option<PixelCanvas> {
        self.pixels
    }

    /// There are `SLOT_LIMIT` sheet slots and `SLOT_LIMIT` batch slots,
    /// and the screen text grid, if any, is well formed.
    pub open spec fn wf(&self) -> bool {
        &&& self.sheets_spec().len() == SLOT_LIMIT
        &&& self.batches_spec().len() == SLOT_LIMIT
        &&& self.text_spec() is Some ==> self.text_spec()->0.wf()
        &&& self.pixels_spec() is Some ==> self.pixels_spec()->0.wf()
    }

    /// All slots empty, with the screen spanning `[0, 1]` on both axes.
    pub fn new() -> (r: Compositor)
        ensures
            r.wf(),
            forall|i: int| 0 <= i < SLOT_LIMIT ==> (#[trigger] r.sheets_spec()[i]) is None,
            forall|i: int| 0 <= i < SLOT_LIMIT ==> (#[trigger] r.batches_spec()[i]) is None,
            r.scale_spec()[0]@ == (1int, 1int) && r.scale_spec()[1]@ == (1int, 1int),
            r.text_spec() is None,
            r.text_atlas_spec() is None,
            r.pixels_spec() is None,
    {
        let mut sheets: Vec<Option<Rc<SpriteSheet>>> = Vec::new();
        let mut batches: Vec<Option<SpriteBatch>> = Vec::new();
        let mut i: usize = 0;
        while i < SLOT_LIMIT
            invariant
                i <= SLOT_LIMIT,
                sheets@.len() == i,
                batches@.len() == i,
                forall|j: int| 0 <= j < i ==> (#[trigger] sheets@[j]) is None,
                forall|j: int| 0 <= j < i ==> (#[trigger] batches@[j]) is None,
            decreases SLOT_LIMIT - i,
        {
            sheets.push(None);
            batches.push(None);
            i = i + 1;
        }
        Compositor { scale: [Ratio::one(), Ratio::one()], sheets, batches, text_atlas: None, text: None, pixels: None }
    }

    /// The coordinates of the screen's lower-right corner.
    pub fn scale(&self) -> (r: [Ratio; 2])
        ensures
            r == self.scale_spec(),
    {
        self.scale
    }

    pub fn set_scale(&mut self, new_scale: [Ratio; 2])
        ensures
            final(self).scale_spec() == new_scale,
            final(self).sheets_spec() == old(self).sheets_spec(),
            final(self).batches_spec() == old(self).batches_spec(),
            final(self).text_spec() == old(self).text_spec(),
            final(self).text_atlas_spec() == old(self).text_atlas_spec(),
    {
        self.scale = new_scale;
    }

    /// Takes note of a new window size, in pixels: the scale becomes that
    /// size, and the screen text grid, laid out for the old size, is
    /// dropped.
    pub fn resized(&mut self, width: u32, height: u32)
        ensures
            final(self).scale_spec()[0]@ == (width as int, 1int),
            final(self).scale_spec()[1]@ == (height as int, 1int),
            final(self).sheets_spec() == old(self).sheets_spec(),
            final(self).batches_spec() == old(self).batches_spec(),
            final(self).text_spec() is None,
            final(self).text_atlas_spec() == old(self).text_atlas_spec(),
    {
        self.scale = [Ratio::from_int(width as i64), Ratio::from_int(height as i64)];
        self.text = None;
    }

    /// The sheet in slot `id`, if any.
    pub fn sheet(&self, id: SpriteSheetId) -> (r: Option<Rc<SpriteSheet>>)
        requires
            self.wf(),
        ensures
            r == self.sheets_spec()[id.id_spec() as int],
    {
        let i = id.get() as usize;
        match &self.sheets[i] {
            Some(s) => Some(s.clone()),
            None => None,
        }
    }

    /// Puts a sheet made from `desc` in slot `id`, or empties the slot. A
    /// sheet that cannot be decoded leaves the slot as it was and gives the
    /// decoding error.
    pub fn set_sheet(&mut self, id: SpriteSheetId, desc: SpriteSheetDesc) -> (r: Result<(), A2DError>)
        requires
            old(self).wf(),
        ensures
            final(self).wf(),
            final(self).batches_spec() == old(self).batches_spec(),
            final(self).scale_spec() == old(self).scale_spec(),
            final(self).text_spec() == old(self).text_spec(),
            final(self).text_atlas_spec() == old(self).text_atlas_spec(),
            r is Ok ==> final(self).sheets_spec().len() == old(self).sheets_spec().len()
                && forall|j: int| 0 <= j < SLOT_LIMIT && j != id.id_spec() ==>
                    #[trigger] final(self).sheets_spec()[j] == old(self).sheets_spec()[j],
            r is Err ==> final(self).sheets_spec() == old(self).sheets_spec(),
            desc is Clear ==> r is Ok && final(self).sheets_spec()[id.id_spec() as int] is None,
            desc matches SpriteSheetDesc::Color(c) ==> {
                let slot = final(self).sheets_spec()[id.id_spec() as int];
                &&& r is Ok
                &&& slot is Some
                &&& slot->0.width_spec() == 1 && slot->0.height_spec() == 1
                &&& slot->0.pixels_spec() == color_bytes(seq![c])
            },
            desc matches SpriteSheetDesc::Sheet(s) ==> r is Ok && final(self).sheets_spec()[id.id_spec() as int] == Some(s),
            desc matches SpriteSheetDesc::Bytes(b) ==> (r is Ok <==> SpriteSheet::decodes(b@)),
            desc matches SpriteSheetDesc::Bytes(b) ==> (r is Ok ==> {
                let slot = final(self).sheets_spec()[id.id_spec() as int];
                let (w, h, p) = decoded_rgba(b@)->0;
                &&& slot is Some
                &&& slot->0.width_spec() == w && slot->0.height_spec() == h
                &&& slot->0.pixels_spec() == p
            }),
            desc is Bytes && r is Err ==> (r->Err_0.kind_spec() == ErrorKind::Decode
                || r->Err_0.kind_spec() == ErrorKind::Format),
    {
        let i = id.get() as usize;
        let sheet = match desc {
            SpriteSheetDesc::Clear => None,
            SpriteSheetDesc::Color(c) => Some(SpriteSheet::from_color(c)),
            SpriteSheetDesc::Sheet(s) => Some(s),
            SpriteSheetDesc::Bytes(b) => match SpriteSheet::from_bytes(b) {
                Ok(s) => Some(s),
                Err(e) => {
                    return Err(e);
                },
            },
        };
        self.sheets.set(i, sheet);
        Ok(())
    }

    /// Puts a new empty batch over the sheet in slot `desc` in batch slot
    /// `id`, or empties it; a `Config` error, with nothing changed, when the
    /// named sheet slot is empty.
    pub fn set_batch(&mut self, id: SpriteBatchId, desc: SpriteBatchDesc) -> (r: Result<(), A2DError>)
        requires
            old(self).wf(),
        ensures
            final(self).wf(),
            final(self).sheets_spec() == old(self).sheets_spec(),
            final(self).scale_spec() == old(self).scale_spec(),
            final(self).text_spec() == old(self).text_spec(),
            final(self).text_atlas_spec() == old(self).text_atlas_spec(),
            desc is Clear ==> r is Ok && final(self).batches_spec() == old(self).batches_spec().update(id.id_spec() as int, None),
            desc matches SpriteBatchDesc::Sheet(s) ==> {
                let slot = old(self).sheets_spec()[s.id_spec() as int];
                &&& (r is Ok <==> slot is Some)
                &&& r is Err ==> final(self).batches_spec() == old(self).batches_spec()
                    && r->Err_0.kind_spec() == ErrorKind::Config
                &&& r is Ok ==> {
                    let b = final(self).batches_spec()[id.id_spec() as int];
                    &&& final(self).batches_spec().len() == old(self).batches_spec().len()
                    &&& forall|j: int| 0 <= j < SLOT_LIMIT && j != id.id_spec() ==>
                        #[trigger] final(self).batches_spec()[j] == old(self).batches_spec()[j]
                    &&& b is Some
                    &&& b->0.sheet_spec() == slot->0
                    &&& b->0.instances_spec().len() == 0
                    &&& b->0.scale_spec()[0]@ == (1int, 1int) && b->0.scale_spec()[1]@ == (1int, 1int)
                    &&& b->0.translation_spec()[0]@ == (0int, 1int) && b->0.translation_spec()[1]@ == (0int, 1int)
                }
            },
    {
        let i = id.get() as usize;
        let batch = match desc {
            SpriteBatchDesc::Clear => None,
            SpriteBatchDesc::Sheet(sheet_id) => match self.sheet(sheet_id) {
                Some(sheet) => Some(SpriteBatch::new(sheet)),
                None => {
                    return Err(error_of(ErrorKind::Config, "there is no sprite sheet in the given slot"));
                },
            },
        };
        self.batches.set(i, batch);
        Ok(())
    }

    /// The batch in slot `id`; a `Config` error when the slot is empty.
    pub fn get_batch(&self, id: SpriteBatchId) -> (r: Result<&SpriteBatch, A2DError>)
        requires
            self.wf(),
        ensures
            r is Ok <==> self.batches_spec()[id.id_spec() as int] is Some,
            r is Ok ==> *r->Ok_0 == self.batches_spec()[id.id_spec() as int]->0,
            r is Err ==> r->Err_0.kind_spec() == ErrorKind::Config,
    {
        let i = id.get() as usize;
        match &self.batches[i] {
            Some(b) => Ok(b),
            None => Err(error_of(ErrorKind::Config, "no batch in the given slot")),
        }
    }

    /// The batch in slot `id`, to be changed in place; a `Config` error
    /// when the slot is empty.
    pub fn get_batch_mut(&mut self, id: SpriteBatchId) -> (r: Result<&mut SpriteBatch, A2DError>)
        requires
            old(self).wf(),
        ensures
            r is Ok <==> old(self).batches_spec()[id.id_spec() as int] is Some,
            r is Err ==> r->Err_0.kind_spec() == ErrorKind::Config,
            r is Err ==> final(self).batches_spec() =~= old(self).batches_spec(),
            r is Err ==> final(self).sheets_spec() == old(self).sheets_spec(),
            r is Err ==> final(self).scale_spec() == old(self).scale_spec(),
            final(self).text_spec() == old(self).text_spec(),
            final(self).text_atlas_spec() == old(self).text_atlas_spec(),
            r matches Ok(b) ==> *b == old(self).batches_spec()[id.id_spec() as int]->0
                && final(self).batches_spec() == old(self).batches_spec().update(id.id_spec() as int, Some(*final(b)))
                && final(self).sheets_spec() == old(self).sheets_spec()
                && final(self).scale_spec() == old(self).scale_spec(),
    {
        let i = id.get() as usize;
        match &mut self.batches[i] {
            Some(b) => Ok(b),
            None => Err(error_of(ErrorKind::Config, "no batch in the given slot")),
        }
    }

    /// The number of instances in batch slot `slot`; `None` when the slot
    /// is out of range or empty.
    pub fn nsprites(&self, slot: usize) -> (r: Option<usize>)
        requires
            self.wf(),
        ensures
            slot >= SLOT_LIMIT ==> r is None,
            slot < SLOT_LIMIT ==> match self.batches_spec()[slot as int] {
                Some(b) => r == Some(b.instances_spec().len() as usize),
                None => r is None,
            },
    {
        if slot >= self.batches.len() {
            return None;
        }
        match &self.batches[slot] {
            Some(b) => Some(b.len()),
            None => None,
        }
    }

    /// Whether `draw_char` and `draw_text` can work: there is a screen text
    /// grid, or one of `DEFAULT_TEXT_NCOLS` columns can be made.
    pub open spec fn text_ready(&self) -> bool {
        ||| self.text_spec() is Some
        ||| self.text_atlas_spec() is Some && text_fits(
            self.scale_spec()[0]@,
            self.scale_spec()[1]@,
            DEFAULT_TEXT_NCOLS as int,
        )
    }

    /// What `draw_char` or `draw_text` leaves: `writes` queued after what
    /// was queued before on the existing grid, or, when there was none, a
    /// new grid of `DEFAULT_TEXT_NCOLS` columns with just `writes` queued.
    pub open spec fn queued_text(old_c: Compositor, new_c: Compositor, writes_of: spec_fn(int, int) -> Seq<(int, int)>) -> bool {
        let t1 = new_c.text_spec()->0;
        &&& new_c.text_spec() is Some
        &&& match old_c.text_spec() {
            Some(t0) => {
                &&& t1.nrows == t0.nrows && t1.ncols == t0.ncols
                &&& t1.batch.sheet_spec() == t0.batch.sheet_spec()
                &&& t1.batch.flushed_spec() == t0.batch.flushed_spec()
                &&& t0.batch.pending_spec().len() <= t1.batch.pending_spec().len()
                &&& t1.batch.pending_spec().subrange(0, t0.batch.pending_spec().len() as int) == t0.batch.pending_spec()
                &&& queues_cells(
                    t1.batch.pending_spec().subrange(t0.batch.pending_spec().len() as int, t1.batch.pending_spec().len() as int),
                    writes_of(t0.nrows as int, t0.ncols as int),
                )
            },
            None => {
                &&& is_fresh_text(
                    t1,
                    old_c.scale_spec()[0]@,
                    old_c.scale_spec()[1]@,
                    DEFAULT_TEXT_NCOLS as int,
                    old_c.text_atlas_spec()->0,
                )
                &&& queues_cells(t1.batch.pending_spec(), writes_of(t1.nrows as int, t1.ncols as int))
            },
        }
    }

    /// Sets the glyph atlas that the screen text grid draws from.
    pub fn set_text_atlas(&mut self, atlas: Rc<SpriteSheet>)
        ensures
            final(self).text_atlas_spec() == Some(atlas),
            final(self).text_spec() == old(self).text_spec(),
            final(self).sheets_spec() == old(self).sheets_spec(),
            final(self).batches_spec() == old(self).batches_spec(),
            final(self).scale_spec() == old(self).scale_spec(),
    {
        self.text_atlas = Some(atlas);
    }

    /// The screen text grid, if it has been made.
    pub fn text_grid(&self) -> (r: Option<&ScreenText>)
        ensures
            match self.text_spec() {
                Some(t) => r is Some && *r->0 == t,
                None => r is None,
            },
    {
        match &self.text {
            Some(t) => Some(t),
            None => None,
        }
    }

    /// Makes the screen text grid cover the screen with `ncols` columns:
    /// cells are `width / ncols` wide and `3 / 2` as high, side by side
    /// from the origin, with as many rows as fit the height; every slot
    /// starts blank.
    /// A `Config` error, with nothing changed, when there is no glyph atlas
    /// or the grid cannot be laid out (no columns, a non-positive width, or
    /// sizes beyond 64-bit coordinates).
    pub fn init_text_grid(&mut self, ncols: u32) -> (r: Result<(), A2DError>)
        requires
            old(self).wf(),
        ensures
            final(self).wf(),
            final(self).sheets_spec() == old(self).sheets_spec(),
            final(self).batches_spec() == old(self).batches_spec(),
            final(self).scale_spec() == old(self).scale_spec(),
            final(self).text_atlas_spec() == old(self).text_atlas_spec(),
            r is Ok <==> old(self).text_atlas_spec() is Some
                && text_fits(old(self).scale_spec()[0]@, old(self).scale_spec()[1]@, ncols as int),
            r is Err ==> r->Err_0.kind_spec() == ErrorKind::Config
                && final(self).text_spec() == old(self).text_spec(),
            r is Ok ==> {
                let t = final(self).text_spec()->0;
                &&& final(self).text_spec() is Some
                &&& is_fresh_text(
                    t,
                    old(self).scale_spec()[0]@,
                    old(self).scale_spec()[1]@,
                    ncols as int,
                    old(self).text_atlas_spec()->0,
                )
                &&& t.batch.pending_spec().len() == 0
            },
    {
        let atlas = match &self.text_atlas {
            Some(a) => a.clone(),
            None => {
                return Err(error_of(ErrorKind::Config, "no glyph atlas for the text grid"));
            },
        };
        let ghost (w, h) = (self.scale[0]@, self.scale[1]@);
        let wn = self.scale[0].numer();
        let wd = self.scale[0].denom();
        let hn = self.scale[1].numer();
        let hd = self.scale[1].denom();
        if wn <= 0 || ncols == 0 {
            return Err(error_of(ErrorKind::Config, "the text grid cannot be laid out"));
        }
        let nc = ncols as i128;
        proof {
            assert(0 < 2 * wd * nc <= 2 * 0x7fff_ffff_ffff_ffff * 0xffff_ffff) by (nonlinear_arith)
                requires 0 < wd <= 0x7fff_ffff_ffff_ffff, 0 < nc <= 0xffff_ffff;
            assert(0 < wn * nc <= 0x7fff_ffff_ffff_ffff * 0xffff_ffff) by (nonlinear_arith)
                requires 0 < wn <= 0x7fff_ffff_ffff_ffff, 0 < nc <= 0xffff_ffff;
        }
        let den2 = 2 * (wd as i128) * nc;
        let three = 3 * (wn as i128);
        let span = (wn as i128) * nc;
        if den2 > i64::MAX as i128 || three > i64::MAX as i128 || span > i64::MAX as i128 {
            return Err(error_of(ErrorKind::Config, "the text grid cannot be laid out"));
        }
        let rows: i128 = if hn <= 0 {
            0
        } else {
            proof {
                assert(0 < hn * (2 * wd * nc) <= 0x7fff_ffff_ffff_ffff * 0x7fff_ffff_ffff_ffff) by (nonlinear_arith)
                    requires 0 < hn <= 0x7fff_ffff_ffff_ffff, 0 < 2 * wd * nc <= 0x7fff_ffff_ffff_ffff;
                assert(0 < hd * (3 * wn) <= 0x7fff_ffff_ffff_ffff * 0x7fff_ffff_ffff_ffff) by (nonlinear_arith)
                    requires 0 < hd <= 0x7fff_ffff_ffff_ffff, 0 < 3 * wn <= 0x7fff_ffff_ffff_ffff;
            }
            ((hn as i128) * (2 * (wd as i128) * nc)) / ((hd as i128) * (3 * (wn as i128)))
        };
        proof {
            assert(rows == text_rows(w, h, ncols as int));
            if hn > 0 {
                assert(rows >= 0) by (nonlinear_arith)
                    requires rows == (hn * (2 * wd * nc)) / (hd * (3 * wn)), hn > 0, wd > 0, nc > 0, hd > 0, wn > 0;
            }
        }
        if rows > u32::MAX as i128 {
            return Err(error_of(ErrorKind::Config, "the text grid cannot be laid out"));
        }
        proof {
            assert(0 <= rows * nc <= 0xffff_ffff * 0xffff_ffff) by (nonlinear_arith)
                requires 0 <= rows <= 0xffff_ffff, 0 < nc <= 0xffff_ffff;
            assert(0 <= 3 * wn * rows <= 3 * 0x7fff_ffff_ffff_ffff * 0xffff_ffff) by (nonlinear_arith)
                requires 0 <= rows <= 0xffff_ffff, 0 < wn <= 0x7fff_ffff_ffff_ffff;
        }
        if rows * nc > u32::MAX as i128 || 3 * (wn as i128) * rows > i64::MAX as i128 {
            return Err(error_of(ErrorKind::Config, "the text grid cannot be laid out"));
        }
        let nrows = rows as u32;
        let n = nrows * ncols;
        proof {
            assert(wd * ncols <= 2 * wd * ncols && 0 < wd * ncols && 2 * wd <= 2 * wd * ncols) by (nonlinear_arith)
                requires wd > 0, ncols > 0;
        }
        let dx = wd * (ncols as i64);
        let dy = 2 * wd * (ncols as i64);
        let mut descs: Vec<SpriteDesc> = Vec::new();
        let mut k: u32 = 0;
        while k < n
            invariant
                k <= n,
                n == nrows * ncols,
                ncols > 0,
                nrows == text_rows(w, h, ncols as int),
                text_fits(w, h, ncols as int),
                w == (wn as int, wd as int),
                wn > 0,
                wd > 0,
                wn * ncols <= i64::MAX,
                3 * wn * nrows <= i64::MAX,
                3 * wn <= i64::MAX,
                dx == wd * ncols,
                dy == 2 * wd * ncols,
                descs@.len() == k,
                forall|j: int| 0 <= j < k ==> {
                    &&& is_text_cell(w, ncols as int, (#[trigger] descs@[j]).dst, j / (ncols as int), j % (ncols as int))
                    &&& descs@[j].src == CHAR_EMPTY_SPACE_INDEX
                    &&& descs@[j].rotate@ == (0int, 1int)
                    &&& crate::inst::is_white(descs@[j].color)
                },
            decreases n - k,
        {
            let row = k / ncols;
            let col = k % ncols;
            proof {
                crate::cells::lemma_row_below(k as int, nrows as int, ncols as int);
                assert(0 <= wn * col && wn * col <= wn * ncols && wn * (col + 1) <= wn * ncols)
                    by (nonlinear_arith)
                    requires 0 <= col < ncols, wn > 0;
                assert(0 <= 3 * wn * row && 3 * wn * row <= 3 * wn * nrows && 3 * wn * (row + 1) <= 3 * wn * nrows)
                    by (nonlinear_arith)
                    requires 0 <= row < nrows, wn > 0;
                assert(dx > 0 && dy > 0) by (nonlinear_arith)
                    requires dx == wd * ncols, dy == 2 * wd * ncols, wd > 0, ncols > 0;
            }
            let x1 = Ratio::new(wn * (col as i64), dx);
            let x2 = Ratio::new(wn * (col as i64 + 1), dx);
            let y1 = Ratio::new(3 * wn * (row as i64), dy);
            let y2 = Ratio::new(3 * wn * (row as i64 + 1), dy);
            proof {
                assert(q_lt(x1@, x2@)) by (nonlinear_arith)
                    requires x1@ == (wn * col, dx as int), x2@ == (wn * (col + 1), dx as int), wn > 0, dx > 0;
                assert(q_lt(y1@, y2@)) by (nonlinear_arith)
                    requires y1@ == (3 * wn * row, dy as int), y2@ == (3 * wn * (row + 1), dy as int), wn > 0, dy > 0;
            }
            let dst = Rect::from_ordered(x1, y1, x2, y2);
            descs.push(SpriteDesc { src: CHAR_EMPTY_SPACE_INDEX, dst, rotate: Ratio::zero(), color: Color::white() });
            k = k + 1;
        }
        let batch = Batch::new(atlas, SpriteMapDimensions::atlas(), descs.as_slice());
        self.text = Some(ScreenText { batch, nrows, ncols });
        Ok(())
    }

    /// Queues showing `ch` in slot `(row, col)` of the screen text grid,
    /// making the grid with `DEFAULT_TEXT_NCOLS` columns first if there is
    /// none. Characters the atlas does not hold show the blank cell; slots
    /// outside the grid are ignored. A `Config` error, with nothing changed,
    /// when there is no grid and none can be made.
    pub fn draw_char(&mut self, row: u32, col: u32, ch: char) -> (r: Result<(), A2DError>)
        requires
            old(self).wf(),
        ensures
            final(self).wf(),
            final(self).sheets_spec() == old(self).sheets_spec(),
            final(self).batches_spec() == old(self).batches_spec(),
            final(self).scale_spec() == old(self).scale_spec(),
            final(self).text_atlas_spec() == old(self).text_atlas_spec(),
            r is Ok <==> old(self).text_ready(),
            r is Err ==> r->Err_0.kind_spec() == ErrorKind::Config && final(self).text_spec() == old(self).text_spec(),
            r is Ok ==> Compositor::queued_text(
                *old(self),
                *final(self),
                |nrows: int, ncols: int| screen_writes(nrows, ncols, row as int, col as int, seq![ch]),
            ),
    {
        let ghost fresh = self.text.is_none();
        if self.text.is_none() {
            match self.init_text_grid(DEFAULT_TEXT_NCOLS) {
                Ok(()) => {},
                Err(e) => {
                    return Err(e);
                },
            }
        }
        let ghost mid = *self;
        self.queue_char(row, col, ch);
        proof {
            if fresh {
                let t1 = self.text->0;
                assert(t1.batch.pending_spec().subrange(0, t1.batch.pending_spec().len() as int) =~= t1.batch.pending_spec());
                assert(mid.text->0.batch.pending_spec().len() == 0);
            }
        }
        Ok(())
    }

    /// Queues the characters of `text` left to right from `(row, col)` of
    /// the screen text grid, as `draw_char` does for each: making the grid
    /// first if there is none, skipping what falls outside it, and showing
    /// the blank cell for characters the atlas does not hold.
    pub fn draw_text(&mut self, row: u32, col: u32, text: &str) -> (r: Result<(), A2DError>)
        requires
            old(self).wf(),
        ensures
            final(self).wf(),
            final(self).sheets_spec() == old(self).sheets_spec(),
            final(self).batches_spec() == old(self).batches_spec(),
            final(self).scale_spec() == old(self).scale_spec(),
            final(self).text_atlas_spec() == old(self).text_atlas_spec(),
            r is Ok <==> old(self).text_ready(),
            r is Err ==> r->Err_0.kind_spec() == ErrorKind::Config && final(self).text_spec() == old(self).text_spec(),
            r is Ok ==> Compositor::queued_text(
                *old(self),
                *final(self),
                |nrows: int, ncols: int| screen_writes(nrows, ncols, row as int, col as int, text@),
            ),
    {
        let ghost fresh = self.text.is_none();
        if self.text.is_none() {
            match self.init_text_grid(DEFAULT_TEXT_NCOLS) {
                Ok(()) => {},
                Err(e) => {
                    return Err(e);
                },
            }
        }
        let ghost t0 = self.text->0;
        let ghost queued_before = t0.batch.pending_spec();
        let mut c: u64 = col as u64;
        proof {
            broadcast use vstd::string::axiom_spec_iter;
            assert(t0.batch.pending_spec().subrange(0, queued_before.len() as int) =~= queued_before);
            assert(t0.batch.pending_spec().subrange(queued_before.len() as int, queued_before.len() as int) =~= Seq::<(usize, SpriteUpdate)>::empty());
            assert(text@.subrange(0, 0) =~= Seq::<char>::empty());
        }
        for ch in it: text.chars()
            invariant
                self.wf(),
                self.text_spec() is Some,
                self.sheets_spec() == old(self).sheets_spec(),
                self.batches_spec() == old(self).batches_spec(),
                self.scale_spec() == old(self).scale_spec(),
                self.text_atlas_spec() == old(self).text_atlas_spec(),
                it.seq() == text@,
                c == if col + it.index() <= u32::MAX { col + it.index() } else { u32::MAX + 1 },
                ({
                    let t1 = self.text_spec()->0;
                    &&& t1.nrows == t0.nrows && t1.ncols == t0.ncols
                    &&& t1.batch.sheet_spec() == t0.batch.sheet_spec()
                    &&& t1.batch.flushed_spec() == t0.batch.flushed_spec()
                    &&& queued_before.len() <= t1.batch.pending_spec().len()
                    &&& t1.batch.pending_spec().subrange(0, queued_before.len() as int) == queued_before
                    &&& queues_cells(
                        t1.batch.pending_spec().subrange(queued_before.len() as int, t1.batch.pending_spec().len() as int),
                        screen_writes(t0.nrows as int, t0.ncols as int, row as int, col as int, text@.subrange(0, it.index() as int)),
                    )
                }),
        {
            let ghost before = self.text->0.batch.pending_spec();
            let ghost i = it.index();
            if c <= u32::MAX as u64 {
                self.queue_char(row, c as u32, ch);
            }
            proof {
                reveal_with_fuel(screen_writes, 2);
                let pre = text@.subrange(0, i + 1);
                assert(pre.drop_last() =~= text@.subrange(0, i as int));
                assert(pre.last() == ch);
                assert(seq![ch].drop_last() =~= Seq::<char>::empty());
                let now = self.text->0.batch.pending_spec();
                if c > u32::MAX {
                    assert(now == before);
                }
                let old_w = screen_writes(t0.nrows as int, t0.ncols as int, row as int, col as int, text@.subrange(0, i as int));
                let new_w = screen_writes(t0.nrows as int, t0.ncols as int, row as int, col as int, pre);
                if c <= u32::MAX {
                    let one = screen_writes(t0.nrows as int, t0.ncols as int, row as int, c as int, seq![ch]);
                    assert(new_w =~= old_w + one);
                } else {
                    assert(new_w =~= old_w);
                }
                assert(now.subrange(0, queued_before.len() as int) =~= queued_before);
                let a = before.subrange(queued_before.len() as int, before.len() as int);
                let b = now.subrange(before.len() as int, now.len() as int);
                assert(now.subrange(queued_before.len() as int, now.len() as int) =~= a + b);
                if c <= u32::MAX {
                    let one = screen_writes(t0.nrows as int, t0.ncols as int, row as int, c as int, seq![ch]);
                    lemma_queues_concat(a, old_w, b, one);
                } else {
                    assert(b.len() == 0);
                    assert(a + b =~= a);
                    assert(old_w + Seq::<(int, int)>::empty() =~= old_w);
                }
            }
            if c <= u32::MAX as u64 {
                c = c + 1;
            }
        }
        proof {
            assert(text@.subrange(0, text@.len() as int) =~= text@);
            if fresh {
                let t1 = self.text->0;
                assert(queued_before.len() == 0);
                assert(t1.batch.pending_spec().subrange(0, t1.batch.pending_spec().len() as int) =~= t1.batch.pending_spec());
            }
        }
        Ok(())
    }

    /// Flushes the screen text grid's queued updates; returns the span of
    /// records to write to GPU memory, `None` when nothing was queued or
    /// there is no grid.
    pub fn flush_text(&mut self) -> (r: Option<FlushRange>)
        requires
            old(self).wf(),
        ensures
            final(self).wf(),
            final(self).sheets_spec() == old(self).sheets_spec(),
            final(self).batches_spec() == old(self).batches_spec(),
            final(self).scale_spec() == old(self).scale_spec(),
            old(self).text_spec() is None ==> r is None && final(self).text_spec() is None,
            old(self).text_spec() is Some ==> {
                let t0 = old(self).text_spec()->0;
                let t1 = final(self).text_spec()->0;
                &&& final(self).text_spec() is Some
                &&& r == flush_range(t0.batch.pending_spec())
                &&& t1.nrows == t0.nrows && t1.ncols == t0.ncols
                &&& t1.batch.flushed_spec() == t0.batch.visible_spec()
                &&& t1.batch.pending_spec().len() == 0
            },
    {
        match &mut self.text {
            Some(t) => {
                proof {
                    crate::batch::lemma_apply_all_len(t.batch.flushed_spec(), t.batch.pending_spec());
                }
                t.batch.flush()
            },
            None => None,
        }
    }

    /// Queues `ch` at `(row, col)` of an existing screen text grid.
    fn queue_char(&mut self, row: u32, col: u32, ch: char)
        requires
            old(self).wf(),
            old(self).text_spec() is Some,
        ensures
            final(self).wf(),
            final(self).sheets_spec() == old(self).sheets_spec(),
            final(self).batches_spec() == old(self).batches_spec(),
            final(self).scale_spec() == old(self).scale_spec(),
            final(self).text_atlas_spec() == old(self).text_atlas_spec(),
            final(self).text_spec() is Some,
            ({
                let t0 = old(self).text_spec()->0;
                let t1 = final(self).text_spec()->0;
                &&& t1.nrows == t0.nrows && t1.ncols == t0.ncols
                &&& t1.batch.sheet_spec() == t0.batch.sheet_spec()
                &&& t1.batch.dims_spec() == t0.batch.dims_spec()
                &&& t1.batch.flushed_spec() == t0.batch.flushed_spec()
                &&& t0.batch.pending_spec().len() <= t1.batch.pending_spec().len()
                &&& t1.batch.pending_spec().subrange(0, t0.batch.pending_spec().len() as int) == t0.batch.pending_spec()
                &&& queues_cells(
                    t1.batch.pending_spec().subrange(t0.batch.pending_spec().len() as int, t1.batch.pending_spec().len() as int),
                    screen_writes(t0.nrows as int, t0.ncols as int, row as int, col as int, seq![ch]),
                )
            }),
    {
        proof {
            reveal_with_fuel(screen_writes, 2);
            crate::cells::lemma_atlas_dims();
            assert(seq![ch].drop_last() =~= Seq::<char>::empty());
        }
        match &mut self.text {
            Some(t) => {
                let ghost before = t.batch.pending_spec();
                if row < t.nrows && col < t.ncols {
                    let cell = char_to_cell_index(ch);
                    proof {
                        assert(t.ncols * row + col < t.nrows * t.ncols) by (nonlinear_arith)
                            requires row < t.nrows, col < t.ncols;
                    }
                    let k = (t.ncols * row + col) as usize;
                    let _ = t.batch.queue_src(k, cell);
                    proof {
                        let now = t.batch.pending_spec();
                        assert(now.subrange(0, before.len() as int) =~= before);
                        let sub = now.subrange(before.len() as int, now.len() as int);
                        assert(sub.len() == 1);
                        assert(sub[0] == now.last());
                    }
                } else {
                    proof {
                        assert(t.batch.pending_spec().subrange(0, before.len() as int) =~= before);
                    }
                }
            },
            None => {},
        }
    }

    /// Makes the pixel canvas: `width` by `height` unit squares over
    /// `sheet`, each showing the whole sheet, unrotated and untinted. A
    /// `Config` error, with nothing changed, when it would have more than
    /// `u32::MAX` pixels.
    pub fn init_pixel_canvas(&mut self, width: u32, height: u32, sheet: Rc<SpriteSheet>) -> (r: Result<(), A2DError>)
        requires
            old(self).wf(),
        ensures
            final(self).wf(),
            final(self).sheets_spec() == old(self).sheets_spec(),
            final(self).batches_spec() == old(self).batches_spec(),
            final(self).scale_spec() == old(self).scale_spec(),
            final(self).text_spec() == old(self).text_spec(),
            final(self).text_atlas_spec() == old(self).text_atlas_spec(),
            r is Ok <==> width * height <= u32::MAX,
            r is Err ==> r->Err_0.kind_spec() == ErrorKind::Config && final(self).pixels_spec() == old(self).pixels_spec(),
            r is Ok ==> {
                let c = final(self).pixels_spec()->0;
                let recs = c.batch.flushed_spec();
                &&& final(self).pixels_spec() is Some
                &&& c.width == width && c.height == height
                &&& c.batch.sheet_spec() == sheet
                &&& c.batch.pending_spec().len() == 0
                &&& forall|k: int| 0 <= k < recs.len() ==> {
                    &&& is_pixel_rect((#[trigger] recs[k]).1, k % (width as int), k / (width as int))
                    &&& recs[k].2@ == (0int, 1int)
                    &&& crate::inst::is_white(recs[k].3)
                }
            },
    {
        proof {
            assert(0 <= (width as int) * (height as int) <= 0xffff_ffff * 0xffff_ffff) by (nonlinear_arith);
        }
        if (width as u64) * (height as u64) > u32::MAX as u64 {
            return Err(error_of(ErrorKind::Config, "the pixel canvas is too large"));
        }
        let n = width * height;
        let mut descs: Vec<SpriteDesc> = Vec::new();
        let mut k: u32 = 0;
        while k < n
            invariant
                k <= n,
                n == width * height,
                descs@.len() == k,
                forall|j: int| 0 <= j < k ==> {
                    &&& is_pixel_rect((#[trigger] descs@[j]).dst, j % (width as int), j / (width as int))
                    &&& descs@[j].src == 0
                    &&& descs@[j].rotate@ == (0int, 1int)
                    &&& crate::inst::is_white(descs@[j].color)
                },
            decreases n - k,
        {
            let x = k % width;
            let y = k / width;
            let x1 = Ratio::from_int(x as i64);
            let x2 = Ratio::from_int(x as i64 + 1);
            let y1 = Ratio::from_int(y as i64);
            let y2 = Ratio::from_int(y as i64 + 1);
            let dst = Rect::from_ordered(x1, y1, x2, y2);
            descs.push(SpriteDesc { src: 0, dst, rotate: Ratio::zero(), color: Color::white() });
            k = k + 1;
        }
        let batch = Batch::new(sheet, SpriteMapDimensions::new(1, 1), descs.as_slice());
        self.pixels = Some(PixelCanvas { batch, width, height });
        Ok(())
    }

    /// The pixel canvas, if it has been made.
    pub fn pixel_canvas(&self) -> (r: Option<&PixelCanvas>)
        ensures
            match self.pixels_spec() {
                Some(c) => r is Some && *r->0 == c,
                None => r is None,
            },
    {
        match &self.pixels {
            Some(c) => Some(c),
            None => None,
        }
    }

    /// Queues coloring pixel `(x, y)` of the pixel canvas: its instance's
    /// color factor becomes `color`. A `Config` error when there is no
    /// canvas, an `Index` error when the pixel is outside it; nothing is
    /// queued on an error.
    pub fn set_pixel(&mut self, x: u32, y: u32, color: Color) -> (r: Result<(), A2DError>)
        requires
            old(self).wf(),
        ensures
            final(self).wf(),
            final(self).sheets_spec() == old(self).sheets_spec(),
            final(self).batches_spec() == old(self).batches_spec(),
            final(self).scale_spec() == old(self).scale_spec(),
            final(self).text_spec() == old(self).text_spec(),
            final(self).text_atlas_spec() == old(self).text_atlas_spec(),
            old(self).pixels_spec() is None ==> r is Err && r->Err_0.kind_spec() == ErrorKind::Config
                && final(self).pixels_spec() is None,
            old(self).pixels_spec() is Some ==> {
                let c0 = old(self).pixels_spec()->0;
                let c1 = final(self).pixels_spec()->0;
                &&& final(self).pixels_spec() is Some
                &&& c1.width == c0.width && c1.height == c0.height
                &&& c1.batch.sheet_spec() == c0.batch.sheet_spec()
                &&& c1.batch.flushed_spec() == c0.batch.flushed_spec()
                &&& (r is Ok <==> x < c0.width && y < c0.height)
                &&& r is Ok ==> c1.batch.pending_spec() == c0.batch.pending_spec().push(
                    ((y * c0.width + x) as usize, SpriteUpdate::Color(color)),
                )
                &&& r is Err ==> r->Err_0.kind_spec() == ErrorKind::Index
                    && c1.batch.pending_spec() == c0.batch.pending_spec()
            },
    {
        match &mut self.pixels {
            Some(c) => {
                if x < c.width && y < c.height {
                    proof {
                        assert(y * c.width + x < c.width * c.height) by (nonlinear_arith)
                            requires x < c.width, y < c.height;
                    }
                    let k = (y * c.width + x) as usize;
                    c.batch.queue_color(k, color)
                } else {
                    Err(error_of(ErrorKind::Index, "pixel outside the canvas"))
                }
            },
            None => Err(error_of(ErrorKind::Config, "there is no pixel canvas")),
        }
    }

    /// Flushes the pixel canvas's queued updates; returns the span of
    /// records to write to GPU memory, `None` when nothing was queued or
    /// there is no canvas.
    pub fn flush_pixels(&mut self) -> (r: Option<FlushRange>)
        requires
            old(self).wf(),
        ensures
            final(self).wf(),
            final(self).sheets_spec() == old(self).sheets_spec(),
            final(self).batches_spec() == old(self).batches_spec(),
            final(self).scale_spec() == old(self).scale_spec(),
            final(self).text_spec() == old(self).text_spec(),
            old(self).pixels_spec() is None ==> r is None && final(self).pixels_spec() is None,
            old(self).pixels_spec() is Some ==> {
                let c0 = old(self).pixels_spec()->0;
                let c1 = final(self).pixels_spec()->0;
                &&& final(self).pixels_spec() is Some
                &&& r == flush_range(c0.batch.pending_spec())
                &&& c1.width == c0.width && c1.height == c0.height
                &&& c1.batch.flushed_spec() == c0.batch.visible_spec()
                &&& c1.batch.pending_spec().len() == 0
            },
    {
        match &mut self.pixels {
            Some(c) => {
                proof {
                    crate::batch::lemma_apply_all_len(c.batch.flushed_spec(), c.batch.pending_spec());
                }
                c.batch.flush()
            },
            None => None,
        }
    }

    /// All the draws of the next frame, in the order they are drawn: the
    /// non-empty batch slots in slot order, then the pixel canvas, then the
    /// screen text grid.
    pub fn frame_plan(&self) -> (r: Vec<FrameDraw>)
        ensures
            r@ == frame_plan_of(self.batches_spec(), self.pixels_spec(), self.text_spec()),
    {
        let slots = self.render_plan();
        let mut r: Vec<FrameDraw> = Vec::new();
        let mut i: usize = 0;
        while i < slots.len()
            invariant
                i <= slots@.len(),
                r@ == slot_draws(slots@.subrange(0, i as int)),
            decreases slots@.len() - i,
        {
            let d = slots[i];
            r.push(FrameDraw { source: DrawSource::Slot(d.slot), instance_count: d.instance_count });
            proof {
                assert(r@ =~= slot_draws(slots@.subrange(0, i + 1)));
            }
            i = i + 1;
        }
        proof {
            assert(slots@.subrange(0, slots@.len() as int) =~= slots@);
        }
        match &self.pixels {
            Some(c) => {
                let n = c.batch.len();
                if n > 0 {
                    r.push(FrameDraw { source: DrawSource::PixelCanvas, instance_count: n });
                }
            },
            None => {},
        }
        match &self.text {
            Some(t) => {
                let n = t.batch.len();
                if n > 0 {
                    r.push(FrameDraw { source: DrawSource::TextGrid, instance_count: n });
                }
            },
            None => {},
        }
        r
    }

    /// The draws of the next frame: one per non-empty batch, in slot
    /// order.
    pub fn render_plan(&self) -> (r: Vec<DrawCall>)
        ensures
            r@ == plan_of(self.batches_spec()),
    {
        let mut plan: Vec<DrawCall> = Vec::new();
        let mut i: usize = 0;
        while i < self.batches.len()
            invariant
                i <= self.batches@.len(),
                plan@ == plan_of(self.batches@.subrange(0, i as int)),
            decreases self.batches@.len() - i,
        {
            proof {
                let pre = self.batches@.subrange(0, i + 1);
                assert(pre.drop_last() =~= self.batches@.subrange(0, i as int));
            }
            match &self.batches[i] {
                Some(b) => {
                    let n = b.len();
                    if n > 0 {
                        plan.push(DrawCall { slot: i, instance_count: n });
                    }
                },
                None => {},
            }
            i = i + 1;
        }
        proof {
            assert(self.batches@.subrange(0, self.batches@.len() as int) =~= self.batches@);
        }
        plan
    }
}

} // verus!
