use a2d::{
    Color, Compositor, DrawSource, ErrorKind, FlushRange, FrameDraw, Instance, Ratio, Rect, SpriteBatchDesc, SpriteBatchId,
    SpriteMapDimensions, SpriteSheet, SpriteSheetDesc, SpriteSheetId,
};

fn q(n: i64, d: i64) -> Ratio {
    Ratio::new(n, d)
}

fn whole(n: i64) -> Ratio {
    Ratio::from_int(n)
}

fn rect_is(r: &Rect, v: [Ratio; 4]) -> bool {
    let ul = r.upper_left();
    let lr = r.lower_right();
    let c = [ul[0], ul[1], lr[0], lr[1]];
    (0..4).all(|i| c[i].same_value(&v[i]))
}

fn screen(width: u32, height: u32) -> Compositor {
    let mut c = Compositor::new();
    c.set_text_atlas(SpriteSheet::from_color(Color::white()));
    c.resized(width, height);
    c
}

#[test]
fn screen_text_needs_an_atlas() {
    let mut c = Compositor::new();
    assert_eq!(c.init_text_grid(10).unwrap_err().kind(), ErrorKind::Config);
    assert_eq!(c.draw_char(0, 0, 'a').unwrap_err().kind(), ErrorKind::Config);
    assert!(c.text_grid().is_none());
}

#[test]
fn screen_text_layout_fills_the_height() {
    let mut c = screen(800, 600);
    c.init_text_grid(80).unwrap();
    let t = c.text_grid().unwrap();
    assert_eq!((t.nrows, t.ncols), (40, 80));
    assert_eq!(t.batch.len(), 3200);
    let recs = t.batch.instances();
    assert!(rect_is(&recs[0].dest(), [whole(0), whole(0), whole(10), whole(15)]));
    assert!(rect_is(&recs[82].dest(), [whole(20), whole(15), whole(30), whole(30)]));
    // the last slot ends at the lower-right corner of the screen
    assert!(rect_is(&recs[3199].dest(), [whole(790), whole(585), whole(800), whole(600)]));
    let blank = SpriteMapDimensions::atlas().rect_for_cell(95, Ratio::zero());
    assert!(rect_is(&recs[82].src(), [blank.upper_left()[0], blank.upper_left()[1], blank.lower_right()[0], blank.lower_right()[1]]));
    assert_eq!(c.init_text_grid(0).unwrap_err().kind(), ErrorKind::Config);
}

#[test]
fn screen_text_draw_char_queues_and_flushes() {
    let mut c = screen(800, 600);
    c.draw_char(1, 2, 'A').unwrap();
    let t = c.text_grid().unwrap();
    assert_eq!(t.ncols, 80);
    // queued, not yet in the records
    let blank = SpriteMapDimensions::atlas().rect_for_cell(95, Ratio::zero());
    assert!(t.batch.instances()[82].src().upper_left()[0].same_value(&blank.upper_left()[0]));
    assert_eq!(c.flush_text(), Some(FlushRange { first: 82, last: 82 }));
    let a = SpriteMapDimensions::atlas().rect_for_cell(32, Ratio::zero());
    let got = c.text_grid().unwrap().batch.instances()[82].src();
    assert!(rect_is(&got, [a.upper_left()[0], a.upper_left()[1], a.lower_right()[0], a.lower_right()[1]]));
    assert_eq!(c.flush_text(), None);
    // outside the grid: nothing queued
    c.draw_char(40, 0, 'A').unwrap();
    c.draw_char(0, 80, 'A').unwrap();
    assert_eq!(c.flush_text(), None);
    // a character the atlas does not hold shows the blank cell
    c.draw_char(1, 2, '\t').unwrap();
    assert_eq!(c.flush_text(), Some(FlushRange { first: 82, last: 82 }));
    let got = c.text_grid().unwrap().batch.instances()[82].src();
    assert!(got.upper_left()[0].same_value(&blank.upper_left()[0]));
}

#[test]
fn screen_text_draw_text_skips_past_row_end() {
    let mut c = screen(800, 600);
    c.init_text_grid(4).unwrap();
    c.draw_text(0, 2, "xyz").unwrap();
    assert_eq!(c.flush_text(), Some(FlushRange { first: 2, last: 3 }));
    c.draw_text(1, 0, "a\tb").unwrap();
    assert_eq!(c.flush_text(), Some(FlushRange { first: 4, last: 6 }));
    let y = SpriteMapDimensions::atlas().rect_for_cell('y' as u32 - 33, Ratio::zero());
    assert!(c.text_grid().unwrap().batch.instances()[3].src().upper_left()[0].same_value(&y.upper_left()[0]));
}

#[test]
fn resize_drops_the_screen_text() {
    let mut c = screen(800, 600);
    c.init_text_grid(80).unwrap();
    assert!(c.text_grid().is_some());
    c.resized(400, 300);
    assert!(c.text_grid().is_none());
    assert_eq!(c.scale(), [whole(400), whole(300)]);
    c.draw_char(0, 0, 'a').unwrap();
    let t = c.text_grid().unwrap();
    assert_eq!((t.nrows, t.ncols), (40, 80));
}

#[test]
fn draw_char_fails_only_when_no_grid_can_be_made() {
    let mut c = Compositor::new();
    c.set_text_atlas(SpriteSheet::from_color(Color::white()));
    // scale [1, 1] with 80 columns: cells 1/80 by 3/160, 53 rows
    c.draw_char(0, 0, 'a').unwrap();
    assert_eq!(c.text_grid().unwrap().nrows, 53);
    // a zero width leaves no room for a grid
    c.resized(0, 10);
    assert_eq!(c.draw_text(0, 0, "ab").unwrap_err().kind(), ErrorKind::Config);
    assert!(c.text_grid().is_none());
}

#[test]
fn pixel_canvas_set_pixel() {
    let mut c = Compositor::new();
    assert_eq!(c.set_pixel(0, 0, Color::white()).unwrap_err().kind(), ErrorKind::Config);
    c.init_pixel_canvas(4, 3, SpriteSheet::from_color(Color::white())).unwrap();
    let canvas = c.pixel_canvas().unwrap();
    assert_eq!((canvas.width, canvas.height), (4, 3));
    assert!(rect_is(&canvas.batch.instances()[6].dest(), [whole(2), whole(1), whole(3), whole(2)]));
    c.set_pixel(2, 1, Color::rgb(whole(1), whole(0), whole(0))).unwrap();
    c.set_pixel(3, 2, Color::rgb(whole(0), whole(1), whole(0))).unwrap();
    assert_eq!(c.set_pixel(4, 0, Color::white()).unwrap_err().kind(), ErrorKind::Index);
    assert_eq!(c.set_pixel(0, 3, Color::white()).unwrap_err().kind(), ErrorKind::Index);
    assert_eq!(c.flush_pixels(), Some(FlushRange { first: 6, last: 11 }));
    let recs = c.pixel_canvas().unwrap().batch.instances();
    assert_eq!(recs[6].color_factor().to_u8_array(), [255, 0, 0, 255]);
    assert_eq!(recs[11].color_factor().to_u8_array(), [0, 255, 0, 255]);
    assert_eq!(recs[7].color_factor().to_u8_array(), [255, 255, 255, 255]);
    assert_eq!(c.flush_pixels(), None);
    assert_eq!(c.init_pixel_canvas(u32::MAX, 2, SpriteSheet::from_color(Color::white())).unwrap_err().kind(), ErrorKind::Config);
}

#[test]
fn frame_plan_orders_slots_then_pixels_then_text() {
    let mut c = screen(80, 30);
    let sheet = SpriteSheetId::new(0).unwrap();
    c.set_sheet(sheet, SpriteSheetDesc::Color(Color::white())).unwrap();
    for s in [7u16, 2] {
        let id = SpriteBatchId::new(s).unwrap();
        c.set_batch(id, SpriteBatchDesc::Sheet(sheet)).unwrap();
        c.get_batch_mut(id).unwrap().add(Instance::builder().build());
    }
    assert_eq!(
        c.frame_plan(),
        vec![
            FrameDraw { source: DrawSource::Slot(2), instance_count: 1 },
            FrameDraw { source: DrawSource::Slot(7), instance_count: 1 },
        ]
    );
    c.init_text_grid(8).unwrap();
    c.init_pixel_canvas(2, 3, SpriteSheet::from_color(Color::white())).unwrap();
    // 80 wide in 8 columns: cells 10 by 15, so 2 rows
    assert_eq!(
        c.frame_plan(),
        vec![
            FrameDraw { source: DrawSource::Slot(2), instance_count: 1 },
            FrameDraw { source: DrawSource::Slot(7), instance_count: 1 },
            FrameDraw { source: DrawSource::PixelCanvas, instance_count: 6 },
            FrameDraw { source: DrawSource::TextGrid, instance_count: 16 },
        ]
    );
}
