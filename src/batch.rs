use crate::cells::SpriteMapDimensions;
use crate::color::Color;
use crate::error::{error_of, A2DError, ErrorKind};
use crate::geo::Rect;
use crate::inst::Instance;
use crate::ratio::Ratio;
use crate::sheet::SpriteSheet;
use std::rc::Rc;
use vstd::prelude::*;

verus! {

broadcast use crate::cells::lemma_dims_bounded;

/// The view of an instance: `(src, dst, rotate, color_factor)`.
pub type InstanceView = (Rect, Rect, Ratio, Color);

/// The views of a list of instances.
pub open spec fn views_of(s: Seq<Instance>) -> Seq<InstanceView> {
    s.map_values(|i: Instance| i@)
}

/// An ordered collection of instances drawn with one sprite sheet, kept in
/// host memory: edits apply at once, and the whole list is uploaded when a
/// frame is drawn. `scale` is applied before `translation` to every
/// instance of the batch.
#[derive(Debug)]
pub struct SpriteBatch {
    sheet: Rc<SpriteSheet>,
    instances: Vec<Instance>,
    scale: [Ratio; 2],
    translation: [Ratio; 2],
}

impl SpriteBatch {
    pub closed spec fn sheet_spec(&self) -> Rc<SpriteSheet> {
        self.sheet
    }

    pub closed spec fn instances_spec(&self) -> Seq<Instance> {
        self.instances@
    }

    pub closed spec fn scale_spec(&self) -> [Ratio; 2] {
        self.scale
    }

    pub closed spec fn translation_spec(&self) -> [Ratio; 2] {
        self.translation
    }

    /// An empty batch with unit scale and no translation.
    pub fn new(sheet: Rc<SpriteSheet>) -> (r: SpriteBatch)
        ensures
            r.sheet_spec() == sheet,
            r.instances_spec().len() == 0,
            r.scale_spec()[0]@ == (1int, 1int) && r.scale_spec()[1]@ == (1int, 1int),
            r.translation_spec()[0]@ == (0int, 1int) && r.translation_spec()[1]@ == (0int, 1int),
    {
        SpriteBatch {
            sheet,
            instances: Vec::new(),
            scale: [Ratio::one(), Ratio::one()],
            translation: [Ratio::zero(), Ratio::zero()],
        }
    }

    pub fn sheet(&self) -> (r: &SpriteSheet)
        ensures
            *r == *self.sheet_spec(),
    {
        &self.sheet
    }

    /// The sheet, shared.
    pub fn shared_sheet(&self) -> (r: Rc<SpriteSheet>)
        ensures
            r == self.sheet_spec(),
    {
        self.sheet.clone()
    }

    /// The per-batch scaling applied before the batch translation.
    pub fn scale(&self) -> (r: [Ratio; 2])
        ensures
            r == self.scale_spec(),
    {
        self.scale
    }

    pub fn set_scale(&mut self, scale: [Ratio; 2])
        ensures
            final(self).scale_spec() == scale,
            final(self).instances_spec() == old(self).instances_spec(),
            final(self).translation_spec() == old(self).translation_spec(),
            final(self).sheet_spec() == old(self).sheet_spec(),
    {
        self.scale = scale;
    }

    pub fn translation(&self) -> (r: [Ratio; 2])
        ensures
            r == self.translation_spec(),
    {
        self.translation
    }

    pub fn set_translation(&mut self, translation: [Ratio; 2])
        ensures
            final(self).translation_spec() == translation,
            final(self).instances_spec() == old(self).instances_spec(),
            final(self).scale_spec() == old(self).scale_spec(),
            final(self).sheet_spec() == old(self).sheet_spec(),
    {
        self.translation = translation;
    }

    pub fn instances(&self) -> (r: &[Instance])
        ensures
            r@ == self.instances_spec(),
    {
        self.instances.as_slice()
    }

    /// The instance at index `i`; an `Index` error when there is none.
    pub fn get(&self, i: usize) -> (r: Result<&Instance, A2DError>)
        ensures
            r is Ok <==> i < self.instances_spec().len(),
            r is Ok ==> *r->Ok_0 == self.instances_spec()[i as int],
            r is Err ==> r->Err_0.kind_spec() == ErrorKind::Index,
    {
        if i < self.instances.len() {
            Ok(&self.instances[i])
        } else {
            Err(error_of(ErrorKind::Index, "no instance at this index"))
        }
    }

    /// The instance at index `i`, to be changed in place; an `Index` error,
    /// with nothing changed, when there is none.
    pub fn get_mut(&mut self, i: usize) -> (r: Result<&mut Instance, A2DError>)
        ensures
            r is Ok <==> i < old(self).instances_spec().len(),
            r is Err ==> r->Err_0.kind_spec() == ErrorKind::Index
                && final(self).instances_spec() == old(self).instances_spec(),
            r matches Ok(inst) ==> *inst == old(self).instances_spec()[i as int]
                && final(self).instances_spec() == old(self).instances_spec().update(i as int, *final(inst)),
            final(self).scale_spec() == old(self).scale_spec(),
            final(self).translation_spec() == old(self).translation_spec(),
            final(self).sheet_spec() == old(self).sheet_spec(),
    {
        if i < self.instances.len() {
            Ok(&mut self.instances[i])
        } else {
            Err(error_of(ErrorKind::Index, "no instance at this index"))
        }
    }

    pub fn len(&self) -> (r: usize)
        ensures
            r == self.instances_spec().len(),
    {
        self.instances.len()
    }

    /// Replaces the instance at index `i`; an `Index` error when there is
    /// none.
    pub fn set(&mut self, i: usize, inst: Instance) -> (r: Result<(), A2DError>)
        ensures
            r is Ok <==> i < old(self).instances_spec().len(),
            r is Ok ==> final(self).instances_spec() == old(self).instances_spec().update(i as int, inst),
            r is Err ==> final(self).instances_spec() == old(self).instances_spec()
                && r->Err_0.kind_spec() == ErrorKind::Index,
            final(self).scale_spec() == old(self).scale_spec(),
            final(self).translation_spec() == old(self).translation_spec(),
            final(self).sheet_spec() == old(self).sheet_spec(),
    {
        if i < self.instances.len() {
            self.instances[i] = inst;
            Ok(())
        } else {
            Err(error_of(ErrorKind::Index, "no instance at this index"))
        }
    }

    /// Appends an instance; it is drawn after those already present.
    pub fn add(&mut self, inst: Instance) -> (r: usize)
        ensures
            r == old(self).instances_spec().len(),
            final(self).instances_spec() == old(self).instances_spec().push(inst),
            final(self).scale_spec() == old(self).scale_spec(),
            final(self).translation_spec() == old(self).translation_spec(),
            final(self).sheet_spec() == old(self).sheet_spec(),
    {
        let n = self.instances.len();
        self.instances.push(inst);
        n
    }

    /// Appends each of `items` in order, as repeated `add`; the first lands
    /// at the old length.
    pub fn add_all(&mut self, items: &[Instance])
        ensures
            final(self).instances_spec() == append_each(old(self).instances_spec(), items@),
            final(self).instances_spec().len() == old(self).instances_spec().len() + items@.len(),
            final(self).scale_spec() == old(self).scale_spec(),
            final(self).translation_spec() == old(self).translation_spec(),
            final(self).sheet_spec() == old(self).sheet_spec(),
    {
        let ghost start = self.instances_spec();
        let mut i: usize = 0;
        proof {
            assert(items@.subrange(0, 0) =~= Seq::<Instance>::empty());
        }
        while i < items.len()
            invariant
                i <= items@.len(),
                self.instances_spec() == append_each(start, items@.subrange(0, i as int)),
                self.instances_spec().len() == start.len() + i,
                self.scale_spec() == old(self).scale_spec(),
                self.translation_spec() == old(self).translation_spec(),
                self.sheet_spec() == old(self).sheet_spec(),
            decreases items@.len() - i,
        {
            self.add(items[i]);
            proof {
                let pre = items@.subrange(0, i + 1);
                assert(pre.drop_last() =~= items@.subrange(0, i as int));
                assert(pre.last() == items@[i as int]);
            }
            i = i + 1;
        }
        proof {
            assert(items@.subrange(0, items@.len() as int) =~= items@);
        }
    }

    pub fn last(&self) -> (r: Option<&Instance>)
        ensures
            self.instances_spec().len() == 0 ==> r is None,
            self.instances_spec().len() > 0 ==> r is Some && *r->0 == self.instances_spec().last(),
    {
        self.instances.as_slice().last()
    }

    /// Removes the last instance, if any.
    pub fn pop(&mut self)
        ensures
            old(self).instances_spec().len() == 0 ==> final(self).instances_spec() == old(self).instances_spec(),
            old(self).instances_spec().len() > 0 ==> final(self).instances_spec() == old(self).instances_spec().drop_last(),
            final(self).scale_spec() == old(self).scale_spec(),
            final(self).translation_spec() == old(self).translation_spec(),
            final(self).sheet_spec() == old(self).sheet_spec(),
    {
        let _ = self.instances.pop();
    }
}

} // verus!

verus! {

/// The result of appending each of `items`, in order, to `s`.
pub open spec fn append_each(s: Seq<Instance>, items: Seq<Instance>) -> Seq<Instance>
    decreases items.len(),
{
    if items.len() == 0 {
        s
    } else {
        append_each(s, items.drop_last()).push(items.last())
    }
}

/// Adding `k` instances one by one to an empty batch leaves exactly those
/// `k` instances, each retrievable unchanged at its insertion index.
pub proof fn lemma_add_to_empty(items: Seq<Instance>)
    ensures
        append_each(Seq::empty(), items).len() == items.len(),
        forall|i: int| 0 <= i < items.len() ==> #[trigger] append_each(Seq::empty(), items)[i] == items[i],
    decreases items.len(),
{
    if items.len() > 0 {
        lemma_add_to_empty(items.drop_last());
        assert(append_each(Seq::empty(), items) =~= items);
    } else {
        assert(append_each(Seq::empty(), items) =~= items);
    }
}

/// One deferred change to an instance.
#[derive(Clone, Copy, Debug)]
pub enum SpriteUpdate {
    Src(Rect),
    Dst(Rect),
    Rotate(Ratio),
    Color(Color),
}

/// The instance view after applying an update.
pub open spec fn apply_update(v: InstanceView, u: SpriteUpdate) -> InstanceView {
    match u {
        SpriteUpdate::Src(r) => (r, v.1, v.2, v.3),
        SpriteUpdate::Dst(r) => (v.0, r, v.2, v.3),
        SpriteUpdate::Rotate(a) => (v.0, v.1, a, v.3),
        SpriteUpdate::Color(c) => (v.0, v.1, v.2, c),
    }
}

/// The instance views after applying the queued updates in order, so that
/// of two updates to one field of one index the later wins.
pub open spec fn apply_all(s: Seq<InstanceView>, ups: Seq<(usize, SpriteUpdate)>) -> Seq<InstanceView>
    decreases ups.len(),
{
    if ups.len() == 0 {
        s
    } else {
        let prev = apply_all(s, ups.drop_last());
        let (i, u) = ups.last();
        if (i as int) < prev.len() {
            prev.update(i as int, apply_update(prev[i as int], u))
        } else {
            prev
        }
    }
}

/// Applying updates keeps the number of records.
pub proof fn lemma_apply_all_len(s: Seq<InstanceView>, ups: Seq<(usize, SpriteUpdate)>)
    ensures
        apply_all(s, ups).len() == s.len(),
    decreases ups.len(),
{
    if ups.len() > 0 {
        lemma_apply_all_len(s, ups.drop_last());
    }
}

/// The least index named by a non-empty update queue.
pub open spec fn min_index(ups: Seq<(usize, SpriteUpdate)>) -> int
    decreases ups.len(),
{
    if ups.len() <= 1 {
        ups[0].0 as int
    } else {
        let m = min_index(ups.drop_last());
        if (ups.last().0 as int) < m { ups.last().0 as int } else { m }
    }
}

/// The greatest index named by a non-empty update queue.
pub open spec fn max_index(ups: Seq<(usize, SpriteUpdate)>) -> int
    decreases ups.len(),
{
    if ups.len() <= 1 {
        ups[0].0 as int
    } else {
        let m = max_index(ups.drop_last());
        if (ups.last().0 as int) > m { ups.last().0 as int } else { m }
    }
}

/// The span `[first, last]` of instance records rewritten by a flush.
#[derive(Clone, Copy, Debug, PartialEq, Eq, Structural)]
pub struct FlushRange {
    pub first: usize,
    pub last: usize,
}

/// The span of records that a flush of the queue `ups` rewrites.
pub open spec fn flush_range(ups: Seq<(usize, SpriteUpdate)>) -> Option<FlushRange> {
    if ups.len() == 0 {
        None
    } else {
        Some(FlushRange { first: min_index(ups) as usize, last: max_index(ups) as usize })
    }
}

/// A flush empties the queue, and a flush of an empty queue rewrites no
/// record and leaves the records as they are: flushing twice in a row
/// writes nothing the second time.
pub proof fn lemma_flush_idempotent(flushed: Seq<InstanceView>, pending: Seq<(usize, SpriteUpdate)>)
    ensures
        flush_range(Seq::empty()) is None,
        apply_all(apply_all(flushed, pending), Seq::empty()) == apply_all(flushed, pending),
{
}

/// The source rectangle of cell `index` in an untrimmed grid.
pub fn src_index_to_rect(dims: &SpriteMapDimensions, index: u32) -> (r: Rect)
    requires
        (index as int) < dims.rows() * dims.cols(),
    ensures
        dims.is_cell_rect(r, index as int, (0, 1)),
{
    dims.rect_for_cell(index, Ratio::zero())
}

/// A sprite to place in a new `Batch`: a cell of the sheet, where to draw
/// it, its rotation and its color factor.
#[derive(Clone, Copy, Debug)]
pub struct SpriteDesc {
    pub src: u32,
    pub dst: Rect,
    pub rotate: Ratio,
    pub color: Color,
}

/// A batch whose records live in GPU-visible memory. Its host copy holds
/// what that memory holds as of the last flush; edits are queued as
/// updates keyed by index and written by `flush`, which rewrites only the
/// contiguous span of records that the queue touches. The number of
/// instances is fixed when the batch is made.
#[derive(Debug)]
pub struct Batch {
    sheet: Rc<SpriteSheet>,
    dims: SpriteMapDimensions,
    scale: [Ratio; 2],
    translation: [Ratio; 2],
    instances: Vec<Instance>,
    pending: Vec<(usize, SpriteUpdate)>,
}

impl Batch {
    pub closed spec fn sheet_spec(&self) -> Rc<SpriteSheet> {
        self.sheet
    }

    pub closed spec fn dims_spec(&self) -> SpriteMapDimensions {
        self.dims
    }

    /// What the GPU buffer holds: the records as of the last flush.
    pub closed spec fn flushed_spec(&self) -> Seq<InstanceView> {
        views_of(self.instances@)
    }

    /// The updates queued since the last flush, in order.
    pub closed spec fn pending_spec(&self) -> Seq<(usize, SpriteUpdate)> {
        self.pending@
    }

    pub closed spec fn scale_spec(&self) -> [Ratio; 2] {
        self.scale
    }

    pub closed spec fn translation_spec(&self) -> [Ratio; 2] {
        self.translation
    }

    /// Every queued update names an existing instance.
    pub open spec fn wf(&self) -> bool {
        forall|k: int| 0 <= k < self.pending_spec().len() ==> (#[trigger] self.pending_spec()[k]).0 < self.flushed_spec().len()
    }

    /// What the next draw shows once the queue is flushed.
    pub open spec fn visible_spec(&self) -> Seq<InstanceView> {
        apply_all(self.flushed_spec(), self.pending_spec())
    }

    /// A batch over `sheet`, divided into `dims` cells, with one instance
    /// per description, in order.
    pub fn new(sheet: Rc<SpriteSheet>, dims: SpriteMapDimensions, descs: &[SpriteDesc]) -> (r: Batch)
        requires
            forall|k: int| 0 <= k < descs@.len() ==> ((#[trigger] descs@[k]).src as int) < dims.rows() * dims.cols(),
        ensures
            r.wf(),
            r.sheet_spec() == sheet,
            r.dims_spec() == dims,
            r.pending_spec().len() == 0,
            r.flushed_spec().len() == descs@.len(),
            forall|k: int| 0 <= k < descs@.len() ==> dims.is_cell_rect(
                (#[trigger] r.flushed_spec()[k]).0,
                descs@[k].src as int,
                (0, 1),
            ) && r.flushed_spec()[k].1 == descs@[k].dst && r.flushed_spec()[k].2 == descs@[k].rotate
                && r.flushed_spec()[k].3 == descs@[k].color,
            r.scale_spec()[0]@ == (1int, 1int) && r.scale_spec()[1]@ == (1int, 1int),
            r.translation_spec()[0]@ == (0int, 1int) && r.translation_spec()[1]@ == (0int, 1int),
    {
        let mut instances: Vec<Instance> = Vec::new();
        let mut k: usize = 0;
        while k < descs.len()
            invariant
                k <= descs@.len(),
                instances@.len() == k,
                forall|j: int| 0 <= j < descs@.len() ==> ((#[trigger] descs@[j]).src as int) < dims.rows() * dims.cols(),
                forall|j: int| 0 <= j < k ==> dims.is_cell_rect((#[trigger] instances@[j])@.0, descs@[j].src as int, (0, 1))
                    && instances@[j]@.1 == descs@[j].dst && instances@[j]@.2 == descs@[j].rotate
                    && instances@[j]@.3 == descs@[j].color,
            decreases descs@.len() - k,
        {
            let d = descs[k];
            let src = src_index_to_rect(&dims, d.src);
            instances.push(Instance::new(src, d.dst, d.rotate, d.color));
            k = k + 1;
        }
        Batch {
            sheet,
            dims,
            scale: [Ratio::one(), Ratio::one()],
            translation: [Ratio::zero(), Ratio::zero()],
            instances,
            pending: Vec::new(),
        }
    }

    pub fn sheet(&self) -> (r: &SpriteSheet)
        ensures
            *r == *self.sheet_spec(),
    {
        &self.sheet
    }

    /// The sheet, shared.
    pub fn shared_sheet(&self) -> (r: Rc<SpriteSheet>)
        ensures
            r == self.sheet_spec(),
    {
        self.sheet.clone()
    }

    pub fn scale(&self) -> (r: [Ratio; 2])
        ensures
            r == self.scale_spec(),
    {
        self.scale
    }

    pub fn set_scale(&mut self, scale: [Ratio; 2])
        ensures
            final(self).scale_spec() == scale,
            final(self).translation_spec() == old(self).translation_spec(),
            final(self).flushed_spec() == old(self).flushed_spec(),
            final(self).pending_spec() == old(self).pending_spec(),
    {
        self.scale = scale;
    }

    pub fn translation(&self) -> (r: [Ratio; 2])
        ensures
            r == self.translation_spec(),
    {
        self.translation
    }

    pub fn set_translation(&mut self, translation: [Ratio; 2])
        ensures
            final(self).translation_spec() == translation,
            final(self).scale_spec() == old(self).scale_spec(),
            final(self).flushed_spec() == old(self).flushed_spec(),
            final(self).pending_spec() == old(self).pending_spec(),
    {
        self.translation = translation;
    }

    pub fn len(&self) -> (r: usize)
        ensures
            r == self.flushed_spec().len(),
    {
        self.instances.len()
    }

    /// The records as of the last flush, to be written to GPU memory.
    pub fn instances(&self) -> (r: &[Instance])
        ensures
            views_of(r@) == self.flushed_spec(),
    {
        self.instances.as_slice()
    }

    /// Queues an update of instance `i`; an `Index` error, and nothing
    /// queued, when there is no such instance.
    pub fn queue_update(&mut self, i: usize, update: SpriteUpdate) -> (r: Result<(), A2DError>)
        requires
            old(self).wf(),
        ensures
            final(self).wf(),
            r is Ok <==> i < old(self).flushed_spec().len(),
            r is Ok ==> final(self).pending_spec() == old(self).pending_spec().push((i, update)),
            r is Err ==> final(self).pending_spec() == old(self).pending_spec()
                && r->Err_0.kind_spec() == ErrorKind::Index,
            final(self).flushed_spec() == old(self).flushed_spec(),
            final(self).scale_spec() == old(self).scale_spec(),
            final(self).translation_spec() == old(self).translation_spec(),
            final(self).dims_spec() == old(self).dims_spec(),
            final(self).sheet_spec() == old(self).sheet_spec(),
    {
        if i < self.instances.len() {
            self.pending.push((i, update));
            proof {
                assert(self.flushed_spec().len() == self.instances@.len());
                assert forall|k: int| 0 <= k < self.pending_spec().len() implies (#[trigger] self.pending_spec()[k]).0
                    < self.flushed_spec().len() by {
                    if k < old(self).pending_spec().len() {
                        assert(self.pending_spec()[k] == old(self).pending_spec()[k]);
                    }
                }
            }
            Ok(())
        } else {
            Err(error_of(ErrorKind::Index, "no instance at this index"))
        }
    }

    /// Queues showing cell `cell_index` of the sheet in instance `i`.
    pub fn queue_src(&mut self, i: usize, cell_index: u32) -> (r: Result<(), A2DError>)
        requires
            old(self).wf(),
            (cell_index as int) < old(self).dims_spec().rows() * old(self).dims_spec().cols(),
        ensures
            final(self).wf(),
            r is Ok <==> i < old(self).flushed_spec().len(),
            r is Ok ==> ({
                &&& final(self).pending_spec().len() == old(self).pending_spec().len() + 1
                &&& final(self).pending_spec().drop_last() == old(self).pending_spec()
                &&& final(self).pending_spec().last().0 == i
                &&& final(self).pending_spec().last().1 matches SpriteUpdate::Src(rect)
                    && old(self).dims_spec().is_cell_rect(rect, cell_index as int, (0, 1))
            }),
            r is Err ==> final(self).pending_spec() == old(self).pending_spec()
                && r->Err_0.kind_spec() == ErrorKind::Index,
            final(self).flushed_spec() == old(self).flushed_spec(),
            final(self).scale_spec() == old(self).scale_spec(),
            final(self).translation_spec() == old(self).translation_spec(),
            final(self).dims_spec() == old(self).dims_spec(),
            final(self).sheet_spec() == old(self).sheet_spec(),
    {
        let src = src_index_to_rect(&self.dims, cell_index);
        self.queue_update(i, SpriteUpdate::Src(src))
    }

    /// Queues moving instance `i` to the rectangle `dst`.
    pub fn queue_dst(&mut self, i: usize, dst: Rect) -> (r: Result<(), A2DError>)
        requires
            old(self).wf(),
        ensures
            final(self).wf(),
            r is Ok <==> i < old(self).flushed_spec().len(),
            r is Ok ==> final(self).pending_spec() == old(self).pending_spec().push((i, SpriteUpdate::Dst(dst))),
            r is Err ==> final(self).pending_spec() == old(self).pending_spec()
                && r->Err_0.kind_spec() == ErrorKind::Index,
            final(self).flushed_spec() == old(self).flushed_spec(),
            final(self).scale_spec() == old(self).scale_spec(),
            final(self).translation_spec() == old(self).translation_spec(),
            final(self).dims_spec() == old(self).dims_spec(),
            final(self).sheet_spec() == old(self).sheet_spec(),
    {
        self.queue_update(i, SpriteUpdate::Dst(dst))
    }

    /// Queues setting the clockwise rotation of instance `i`, in radians.
    pub fn queue_rotate(&mut self, i: usize, rotate: Ratio) -> (r: Result<(), A2DError>)
        requires
            old(self).wf(),
        ensures
            final(self).wf(),
            r is Ok <==> i < old(self).flushed_spec().len(),
            r is Ok ==> final(self).pending_spec() == old(self).pending_spec().push((i, SpriteUpdate::Rotate(rotate))),
            r is Err ==> final(self).pending_spec() == old(self).pending_spec()
                && r->Err_0.kind_spec() == ErrorKind::Index,
            final(self).flushed_spec() == old(self).flushed_spec(),
            final(self).scale_spec() == old(self).scale_spec(),
            final(self).translation_spec() == old(self).translation_spec(),
            final(self).dims_spec() == old(self).dims_spec(),
            final(self).sheet_spec() == old(self).sheet_spec(),
    {
        self.queue_update(i, SpriteUpdate::Rotate(rotate))
    }

    /// Queues setting the color factor of instance `i`.
    pub fn queue_color(&mut self, i: usize, color: Color) -> (r: Result<(), A2DError>)
        requires
            old(self).wf(),
        ensures
            final(self).wf(),
            r is Ok <==> i < old(self).flushed_spec().len(),
            r is Ok ==> final(self).pending_spec() == old(self).pending_spec().push((i, SpriteUpdate::Color(color))),
            r is Err ==> final(self).pending_spec() == old(self).pending_spec()
                && r->Err_0.kind_spec() == ErrorKind::Index,
            final(self).flushed_spec() == old(self).flushed_spec(),
            final(self).scale_spec() == old(self).scale_spec(),
            final(self).translation_spec() == old(self).translation_spec(),
            final(self).dims_spec() == old(self).dims_spec(),
            final(self).sheet_spec() == old(self).sheet_spec(),
    {
        self.queue_update(i, SpriteUpdate::Color(color))
    }

    /// Flushes the queue: applies the queued updates, in order, to the
    /// records and empties the queue. Returns the span of records to write
    /// to GPU memory, from the least to the greatest queued index, or
    /// `None`, with nothing changed, when the queue is empty.
    pub fn flush(&mut self) -> (r: Option<FlushRange>)
        ensures
            final(self).wf(),
            r == flush_range(old(self).pending_spec()),
            old(self).pending_spec().len() == 0 ==> final(self).flushed_spec() == old(self).flushed_spec(),
            final(self).flushed_spec() == old(self).visible_spec(),
            final(self).pending_spec().len() == 0,
            final(self).scale_spec() == old(self).scale_spec(),
            final(self).translation_spec() == old(self).translation_spec(),
            final(self).sheet_spec() == old(self).sheet_spec(),
            final(self).dims_spec() == old(self).dims_spec(),
    {
        let mut updates: Vec<(usize, SpriteUpdate)> = Vec::new();
        std::mem::swap(&mut updates, &mut self.pending);
        if updates.len() == 0 {
            return None;
        }
        let mut lo: usize = updates[0].0;
        let mut hi: usize = updates[0].0;
        let mut k: usize = 1;
        proof {
            assert(updates@.subrange(0, 1).len() == 1);
        }
        while k < updates.len()
            invariant
                1 <= k <= updates@.len(),
                lo == min_index(updates@.subrange(0, k as int)),
                hi == max_index(updates@.subrange(0, k as int)),
            decreases updates@.len() - k,
        {
            let i = updates[k].0;
            proof {
                let next = updates@.subrange(0, k + 1);
                assert(next.drop_last() =~= updates@.subrange(0, k as int));
                assert(next.last() == updates@[k as int]);
            }
            if i < lo {
                lo = i;
            }
            if i > hi {
                hi = i;
            }
            k = k + 1;
        }
        proof {
            assert(updates@.subrange(0, updates@.len() as int) =~= updates@);
        }
        let ghost start = views_of(self.instances@);
        let mut j: usize = 0;
        while j < updates.len()
            invariant
                j <= updates@.len(),
                updates@ == old(self).pending_spec(),
                self.instances@.len() == start.len(),
                views_of(self.instances@) == apply_all(start, updates@.subrange(0, j as int)),
                self.pending@.len() == 0,
                self.scale == old(self).scale,
                self.translation == old(self).translation,
                self.sheet == old(self).sheet,
                self.dims == old(self).dims,
            decreases updates@.len() - j,
        {
            let (i, u) = updates[j];
            proof {
                let sub = updates@.subrange(0, j + 1);
                assert(sub.drop_last() =~= updates@.subrange(0, j as int));
                assert(sub.last() == updates@[j as int]);
            }
            if i < self.instances.len() {
                let mut inst = self.instances[i];
                match u {
                    SpriteUpdate::Src(r) => inst.set_src(r),
                    SpriteUpdate::Dst(r) => inst.set_dest(r),
                    SpriteUpdate::Rotate(a) => inst.set_rotation(a),
                    SpriteUpdate::Color(c) => inst.set_color_factor(c),
                }
                let ghost before = self.instances@;
                self.instances.set(i, inst);
                proof {
                    assert(views_of(self.instances@) =~= views_of(before).update(i as int, inst@));
                }
            }
            j = j + 1;
        }
        proof {
            assert(updates@.subrange(0, updates@.len() as int) =~= updates@);
        }
        Some(FlushRange { first: lo, last: hi })
    }
}

} // verus!
