use a2d::{
    Batch, Color, Compositor, DrawCall, ErrorKind, FlushRange, Instance, Point, Dimensions, Ratio, Rect,
    SpriteBatch, SpriteBatchDesc, SpriteBatchId, SpriteDesc, SpriteMap, SpriteMapDimensions, SpriteSheet,
    SpriteSheetDesc, SpriteSheetId, SpriteUpdate, TextGrid, SLOT_LIMIT,
};

fn q(n: i64, d: i64) -> Ratio {
    Ratio::new(n, d)
}

fn whole(n: i64) -> Ratio {
    Ratio::from_int(n)
}

fn rect(x1: i64, y1: i64, x2: i64, y2: i64) -> Rect {
    Rect::new(whole(x1), whole(y1), whole(x2), whole(y2)).unwrap()
}

fn corners(r: &Rect) -> [Ratio; 4] {
    let ul = r.upper_left();
    let lr = r.lower_right();
    [ul[0], ul[1], lr[0], lr[1]]
}

fn rect_is(r: &Rect, v: [Ratio; 4]) -> bool {
    let c = corners(r);
    (0..4).all(|i| c[i].same_value(&v[i]))
}

fn same_instance(a: &Instance, b: &Instance) -> bool {
    let (ca, cb) = (a.components(), b.components());
    ca.len() == cb.len() && (0..ca.len()).all(|k| ca[k] == cb[k])
}

fn white_sheet() -> std::rc::Rc<SpriteSheet> {
    SpriteSheet::from_color(Color::white())
}

fn numbered(k: i64) -> Instance {
    Instance::builder().dest(rect(k, 0, k + 1, 1)).rotate(q(k, 7)).build()
}

#[test]
fn sprite_batch_add_k_instances() {
    for k in [0usize, 1, 5, 40] {
        let mut b = SpriteBatch::new(white_sheet());
        let items: Vec<Instance> = (0..k as i64).map(numbered).collect();
        for (i, inst) in items.iter().enumerate() {
            assert_eq!(b.add(*inst), i);
        }
        assert_eq!(b.len(), k);
        for i in 0..k {
            assert!(same_instance(b.get(i).unwrap(), &items[i]));
        }
        assert_eq!(b.get(k).unwrap_err().kind(), ErrorKind::Index);
    }
}

#[test]
fn sprite_batch_set_last_pop() {
    let mut b = SpriteBatch::new(white_sheet());
    assert!(b.last().is_none());
    b.add(numbered(1));
    b.add(numbered(2));
    assert!(same_instance(b.last().unwrap(), &numbered(2)));
    b.set(0, numbered(9)).unwrap();
    assert!(same_instance(b.get(0).unwrap(), &numbered(9)));
    assert_eq!(b.set(2, numbered(3)).unwrap_err().kind(), ErrorKind::Index);
    b.get_mut(1).unwrap().set_rotation(whole(4));
    assert_eq!(b.get_mut(2).unwrap_err().kind(), ErrorKind::Index);
    assert!(b.get(1).unwrap().rotation().same_value(&whole(4)));
    b.pop();
    assert_eq!(b.len(), 1);
    b.pop();
    b.pop();
    assert_eq!(b.len(), 0);
}

#[test]
fn batch_transform_leaves_instances() {
    let mut b = SpriteBatch::new(white_sheet());
    for k in 0..4 {
        b.add(numbered(k));
    }
    let before: Vec<Instance> = b.instances().to_vec();
    b.set_scale([whole(2), q(1, 2)]);
    b.set_translation([whole(-3), q(5, 4)]);
    assert_eq!(b.scale(), [whole(2), q(1, 2)]);
    assert_eq!(b.translation(), [whole(-3), q(5, 4)]);
    for k in 0..4 {
        assert!(same_instance(&b.instances()[k], &before[k]));
    }
}

fn device_batch(n: u32) -> Batch {
    let descs: Vec<SpriteDesc> = (0..n)
        .map(|k| SpriteDesc { src: k, dst: rect(k as i64, 0, k as i64 + 1, 1), rotate: whole(0), color: Color::white() })
        .collect();
    Batch::new(white_sheet(), SpriteMapDimensions::new(3, 32), &descs)
}

#[test]
fn batch_new_builds_cells() {
    let b = device_batch(3);
    assert_eq!(b.len(), 3);
    assert!(rect_is(&b.instances()[1].src(), [q(1, 32), whole(0), q(2, 32), q(1, 3)]));
    assert!(rect_is(&b.instances()[2].dest(), [whole(2), whole(0), whole(3), whole(1)]));
}

#[test]
fn batch_flush_without_updates_writes_nothing() {
    let mut b = device_batch(4);
    let before: Vec<Instance> = b.instances().to_vec();
    assert_eq!(b.flush(), None);
    assert_eq!(b.flush(), None);
    for k in 0..4 {
        assert!(same_instance(&b.instances()[k], &before[k]));
    }
    b.queue_rotate(2, whole(1)).unwrap();
    assert_eq!(b.flush(), Some(FlushRange { first: 2, last: 2 }));
    assert_eq!(b.flush(), None);
}

#[test]
fn batch_flush_spans_min_to_max_and_last_write_wins() {
    let mut b = device_batch(8);
    b.queue_rotate(5, whole(1)).unwrap();
    b.queue_dst(2, rect(9, 9, 10, 10)).unwrap();
    b.queue_rotate(5, whole(2)).unwrap();
    b.queue_color(6, Color::rgb(whole(0), whole(0), whole(0))).unwrap();
    b.queue_src(3, 95).unwrap();
    // queued but not yet visible
    assert!(b.instances()[5].rotation().same_value(&whole(0)));
    assert_eq!(b.flush(), Some(FlushRange { first: 2, last: 6 }));
    assert!(b.instances()[5].rotation().same_value(&whole(2)));
    assert!(rect_is(&b.instances()[2].dest(), [whole(9), whole(9), whole(10), whole(10)]));
    assert_eq!(b.instances()[6].color_factor().to_u8_array(), [0, 0, 0, 255]);
    assert!(rect_is(&b.instances()[3].src(), [q(31, 32), q(2, 3), whole(1), whole(1)]));
    assert!(b.instances()[4].rotation().same_value(&whole(0)));
}

#[test]
fn batch_queue_out_of_range_is_index_error() {
    let mut b = device_batch(2);
    assert_eq!(b.queue_update(2, SpriteUpdate::Rotate(whole(1))).unwrap_err().kind(), ErrorKind::Index);
    assert_eq!(b.flush(), None);
}

#[test]
fn batch_scale_translation_leave_records() {
    let mut b = device_batch(3);
    b.set_scale([whole(3), whole(3)]);
    b.set_translation([q(1, 2), whole(0)]);
    assert_eq!(b.scale(), [whole(3), whole(3)]);
    assert_eq!(b.translation(), [q(1, 2), whole(0)]);
    assert!(rect_is(&b.instances()[1].dest(), [whole(1), whole(0), whole(2), whole(1)]));
    assert_eq!(b.flush(), None);
}

#[test]
fn sprite_map_add_move_set_cell() {
    let mut m = SpriteMap::new(
        white_sheet(),
        SpriteMapDimensions::new(2, 2),
        Dimensions { width: whole(2), height: whole(4) },
        q(1, 2),
    );
    assert_eq!(m.nrows(), 2);
    assert_eq!(m.ncols(), 2);
    assert_eq!(m.cell_index([1, 1]), 3);
    assert_eq!(m.cell_coord(2), [1, 0]);
    let i = m.add(Point { x: whole(5), y: whole(5) }, 3);
    assert_eq!(i, 0);
    let inst = m.batch().get(0).unwrap();
    assert!(rect_is(&inst.dest(), [whole(4), whole(3), whole(6), whole(7)]));
    assert!(rect_is(&inst.src(), [q(5, 8), q(5, 8), q(7, 8), q(7, 8)]));
    m.move_to(0, Point { x: whole(0), y: whole(0) }).unwrap();
    assert!(rect_is(&m.batch().get(0).unwrap().dest(), [whole(-1), whole(-2), whole(1), whole(2)]));
    m.set_cell(0, 0).unwrap();
    assert!(rect_is(&m.batch().get(0).unwrap().src(), [q(1, 8), q(1, 8), q(3, 8), q(3, 8)]));
    assert_eq!(m.set_cell(1, 0).unwrap_err().kind(), ErrorKind::Index);
    assert_eq!(m.move_to(1, Point { x: whole(0), y: whole(0) }).unwrap_err().kind(), ErrorKind::Index);
    m.set_translation([whole(1), whole(2)]);
    assert_eq!(m.translation(), [whole(1), whole(2)]);
    assert!(m.cell_width().same_value(&q(1, 2)));
}

#[test]
fn text_grid_write_ab_newline_c() {
    let mut g = TextGrid::new(white_sheet(), q(1, 80), [3, 4]);
    g.write_str([0, 0], "AB\nC");
    assert_eq!(g.glyph_at([0, 0]), Some(('A' as u32) - ('!' as u32)));
    assert_eq!(g.glyph_at([0, 1]), Some(('B' as u32) - ('!' as u32)));
    assert_eq!(g.glyph_at([1, 0]), Some(('C' as u32) - ('!' as u32)));
    // the newline itself shows as blank where it was written
    assert_eq!(g.glyph_at([0, 2]), Some(95));
    assert_eq!(g.glyph_at([1, 1]), Some(95));
    // the batch's instances show the written cells
    let dims = SpriteMapDimensions::new(3, 32);
    let a = dims.rect_for_cell_xy(32, q(3, 10), q(1, 10));
    assert!(rect_is(&g.batch().get(0).unwrap().src(), corners(&a)));
}

#[test]
fn text_grid_two_columns() {
    let mut g = TextGrid::new(white_sheet(), q(1, 80), [2, 2]);
    g.write_str([0, 0], "AB\nC");
    assert_eq!(g.glyph_at([0, 0]), Some(32));
    assert_eq!(g.glyph_at([0, 1]), Some(33));
    assert_eq!(g.glyph_at([1, 0]), Some(34));
    assert_eq!(g.glyph_at([1, 1]), Some(95));
}

#[test]
fn text_grid_no_wrap_and_stop_below_last_row() {
    let mut g = TextGrid::new(white_sheet(), whole(1), [2, 3]);
    g.write_str([0, 1], "wxyz\n\n\nabc");
    assert_eq!(g.glyph_at([0, 0]), Some(95));
    assert_eq!(g.glyph_at([0, 1]), Some('w' as u32 - 33));
    assert_eq!(g.glyph_at([0, 2]), Some('x' as u32 - 33));
    assert_eq!(g.glyph_at([1, 0]), Some(95));
    assert_eq!(g.glyph_at([2, 0]), None);
    assert_eq!(g.batch().len(), 6);
}

#[test]
fn text_grid_write_ch_bounds() {
    let mut g = TextGrid::new(white_sheet(), whole(1), [2, 3]);
    g.write_ch([1, 2], '~').unwrap();
    assert_eq!(g.glyph_at([1, 2]), Some(93));
    g.write_ch([1, 2], 'é').unwrap();
    assert_eq!(g.glyph_at([1, 2]), Some(95));
    assert_eq!(g.write_ch([2, 0], 'a').unwrap_err().kind(), ErrorKind::Index);
    assert_eq!(g.write_ch([0, 3], 'a').unwrap_err().kind(), ErrorKind::Index);
}

#[test]
fn text_grid_layout_and_rect_for_coord() {
    let mut g = TextGrid::new(white_sheet(), q(1, 10), [2, 3]);
    assert_eq!(g.dimensions(), [2, 3]);
    assert_eq!((g.nrows(), g.ncols()), (2, 3));
    assert!(g.char_width().same_value(&q(1, 10)));
    assert!(g.char_height().same_value(&q(12, 70)));
    // slot (1, 2) is instance 5
    assert!(rect_is(&g.batch().get(5).unwrap().dest(), [q(2, 10), q(12, 70), q(3, 10), q(24, 70)]));
    g.set_translation([whole(1), q(1, 2)]);
    assert_eq!(g.translation(), [whole(1), q(1, 2)]);
    let r = g.rect_for_coord([1, 2]);
    assert!(rect_is(&r, [q(12, 10), q(12 + 35, 70), q(13, 10), q(24 + 35, 70)]));
}

#[test]
fn sheet_from_rgba_bytes_length_must_match() {
    for (w, h) in [(1u32, 1u32), (2, 3), (7, 1)] {
        let need = (w * h * 4) as usize;
        for len in [0, need - 1, need + 1, need + 4, 2 * need] {
            let e = SpriteSheet::from_rgba_bytes(w, h, vec![0; len]).unwrap_err();
            assert_eq!(e.kind(), ErrorKind::Format);
        }
        let s = SpriteSheet::from_rgba_bytes(w, h, vec![7; need]).unwrap();
        assert_eq!((s.width(), s.height()), (w, h));
        assert_eq!(s.pixels(), &vec![7u8; need][..]);
    }
}

#[test]
fn sheet_from_colors_and_color() {
    let s = SpriteSheet::from_colors(2, 1, vec![Color::white(), Color::new(q(1, 2), whole(0), whole(1), whole(0))]).unwrap();
    assert_eq!(s.pixels(), &[255, 255, 255, 255, 127, 0, 255, 0][..]);
    assert_eq!(SpriteSheet::from_colors(2, 2, vec![Color::white(); 3]).unwrap_err().kind(), ErrorKind::Format);
    assert_eq!(SpriteSheet::from_colors(1, 1, vec![]).unwrap_err().kind(), ErrorKind::Format);
    let s = SpriteSheet::from_color(Color::rgb(whole(1), whole(0), whole(0)));
    assert_eq!((s.width(), s.height()), (1, 1));
    assert_eq!(s.pixels(), &[255, 0, 0, 255][..]);
}

#[test]
fn sheet_from_bytes_decodes_png() {
    let pixels: Vec<u8> = vec![1, 2, 3, 255, 4, 5, 6, 255, 7, 8, 9, 255, 10, 11, 12, 255, 13, 14, 15, 255, 16, 17, 18, 255];
    let img = image::RgbaImage::from_raw(3, 2, pixels.clone()).unwrap();
    let mut out = std::io::Cursor::new(Vec::new());
    img.write_to(&mut out, image::ImageFormat::Png).unwrap();
    let png = out.into_inner();
    assert_ne!(png, pixels);
    let s = SpriteSheet::from_bytes(&png).unwrap();
    assert_eq!((s.width(), s.height()), (3, 2));
    assert_eq!(s.pixels(), &pixels[..]);
}

#[test]
fn sheet_from_bytes_rejects_garbage() {
    let e = SpriteSheet::from_bytes(&[1, 2, 3, 4, 5]).unwrap_err();
    assert_eq!(e.kind(), ErrorKind::Decode);
    assert!(e.source().is_some());
}

#[test]
fn slot_ids_are_range_checked() {
    assert_eq!(SpriteSheetId::new(15).unwrap().get(), 15);
    assert_eq!(SpriteSheetId::new(16).unwrap_err().kind(), ErrorKind::Config);
    assert_eq!(SpriteBatchId::new(0).unwrap().get(), 0);
    assert_eq!(SpriteBatchId::new(u16::MAX).unwrap_err().kind(), ErrorKind::Config);
    assert!(matches!(SpriteBatchDesc::from_slot(None), Ok(SpriteBatchDesc::Clear)));
    assert!(matches!(SpriteBatchDesc::from_slot(Some(3)), Ok(SpriteBatchDesc::Sheet(id)) if id.get() == 3));
    assert_eq!(SpriteBatchDesc::from_slot(Some(16)).unwrap_err().kind(), ErrorKind::Config);
    assert_eq!(SLOT_LIMIT, 16);
}

#[test]
fn compositor_one_white_sprite_one_draw() {
    let mut c = Compositor::new();
    let sheet = SpriteSheetId::new(0).unwrap();
    let slot = SpriteBatchId::new(2).unwrap();
    c.set_sheet(sheet, SpriteSheetDesc::Color(Color::white())).unwrap();
    c.set_batch(slot, SpriteBatchDesc::Sheet(sheet)).unwrap();
    let inst = Instance::builder().dest(rect(0, 0, 1, 1)).rotate(whole(0)).build();
    c.get_batch_mut(slot).unwrap().add(inst);
    assert_eq!(c.render_plan(), vec![DrawCall { slot: 2, instance_count: 1 }]);
    assert_eq!(c.nsprites(2), Some(1));
    assert_eq!(c.get_batch(slot).unwrap().sheet().pixels(), &[255, 255, 255, 255][..]);
}

#[test]
fn compositor_skips_empty_batches_in_slot_order() {
    let mut c = Compositor::new();
    let sheet = SpriteSheetId::new(1).unwrap();
    c.set_sheet(sheet, SpriteSheetDesc::Sheet(white_sheet())).unwrap();
    for s in [9u16, 3, 5] {
        c.set_batch(SpriteBatchId::new(s).unwrap(), SpriteBatchDesc::Sheet(sheet)).unwrap();
    }
    c.get_batch_mut(SpriteBatchId::new(9).unwrap()).unwrap().add(numbered(1));
    c.get_batch_mut(SpriteBatchId::new(3).unwrap()).unwrap().add(numbered(1));
    c.get_batch_mut(SpriteBatchId::new(3).unwrap()).unwrap().add(numbered(2));
    assert_eq!(
        c.render_plan(),
        vec![DrawCall { slot: 3, instance_count: 2 }, DrawCall { slot: 9, instance_count: 1 }]
    );
    c.set_batch(SpriteBatchId::new(3).unwrap(), SpriteBatchDesc::Clear).unwrap();
    assert_eq!(c.render_plan(), vec![DrawCall { slot: 9, instance_count: 1 }]);
    assert_eq!(c.nsprites(3), None);
    assert_eq!(c.nsprites(5), Some(0));
    assert_eq!(c.nsprites(16), None);
}

#[test]
fn compositor_slot_errors() {
    let mut c = Compositor::new();
    let empty = SpriteSheetId::new(4).unwrap();
    let slot = SpriteBatchId::new(0).unwrap();
    assert_eq!(c.set_batch(slot, SpriteBatchDesc::Sheet(empty)).unwrap_err().kind(), ErrorKind::Config);
    assert_eq!(c.get_batch_mut(slot).unwrap_err().kind(), ErrorKind::Config);
    assert_eq!(c.set_sheet(empty, SpriteSheetDesc::Bytes(&[0, 1, 2])).unwrap_err().kind(), ErrorKind::Decode);
    assert!(c.sheet(empty).is_none());
    c.set_sheet(empty, SpriteSheetDesc::Color(Color::white())).unwrap();
    assert!(c.sheet(empty).is_some());
    c.set_sheet(empty, SpriteSheetDesc::Clear).unwrap();
    assert!(c.sheet(empty).is_none());
    assert!(c.render_plan().is_empty());
}

#[test]
fn compositor_scale_and_resize() {
    let mut c = Compositor::new();
    assert_eq!(c.scale(), [whole(1), whole(1)]);
    c.set_scale([whole(4), q(3, 2)]);
    assert_eq!(c.scale(), [whole(4), q(3, 2)]);
    c.resized(800, 600);
    assert_eq!(c.scale(), [whole(800), whole(600)]);
}

#[test]
fn sprite_map_full_trim_and_white_instances() {
    let mut m = SpriteMap::new(white_sheet(), SpriteMapDimensions::new(1, 1), Dimensions { width: whole(2), height: whole(2) }, whole(1));
    m.add(Point { x: whole(0), y: whole(0) }, 0);
    let inst = m.batch().get(0).unwrap();
    assert!(rect_is(&inst.src(), [q(1, 4), q(1, 4), q(3, 4), q(3, 4)]));
    assert_eq!(inst.color_factor().to_u8_array(), [255, 255, 255, 255]);
    assert!(inst.rotation().same_value(&whole(0)));
}

#[test]
fn text_grid_try_new_checks_sizes() {
    assert_eq!(TextGrid::try_new(white_sheet(), whole(0), [2, 2]).unwrap_err().kind(), ErrorKind::Config);
    assert_eq!(TextGrid::try_new(white_sheet(), q(-1, 2), [2, 2]).unwrap_err().kind(), ErrorKind::Config);
    assert_eq!(TextGrid::try_new(white_sheet(), whole(1), [u32::MAX, 2]).unwrap_err().kind(), ErrorKind::Config);
    assert_eq!(TextGrid::try_new(white_sheet(), whole(i64::MAX / 4), [1, 1]).unwrap_err().kind(), ErrorKind::Config);
    let g = TextGrid::try_new(white_sheet(), q(1, 8), [2, 5]).unwrap();
    assert_eq!(g.dimensions(), [2, 5]);
    assert_eq!(g.batch().len(), 10);
    for k in 0..10 {
        let inst = g.batch().get(k).unwrap();
        assert!(inst.rotation().same_value(&whole(0)));
        assert_eq!(inst.color_factor().to_u8_array(), [255, 255, 255, 255]);
    }
}

#[test]
fn compositor_new_batch_has_unit_transform() {
    let mut c = Compositor::new();
    let sheet = SpriteSheetId::new(0).unwrap();
    let slot = SpriteBatchId::new(1).unwrap();
    c.set_sheet(sheet, SpriteSheetDesc::Color(Color::white())).unwrap();
    c.set_batch(slot, SpriteBatchDesc::Sheet(sheet)).unwrap();
    let b = c.get_batch(slot).unwrap();
    assert_eq!(b.scale(), [whole(1), whole(1)]);
    assert_eq!(b.translation(), [whole(0), whole(0)]);
}

#[test]
fn sprite_batch_add_all_keeps_order() {
    let items: Vec<Instance> = (0..6).map(numbered).collect();
    let mut b = SpriteBatch::new(white_sheet());
    b.add_all(&items);
    assert_eq!(b.len(), 6);
    for i in 0..6 {
        assert!(same_instance(b.get(i).unwrap(), &items[i]));
    }
    b.add_all(&items[..2]);
    assert_eq!(b.len(), 8);
    assert!(same_instance(b.get(7).unwrap(), &items[1]));
}
