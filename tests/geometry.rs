use a2d::charmap::{char_to_cell_index, char_to_charmap_index, CHAR_EMPTY_SPACE_INDEX};
use a2d::{Color, Dimensions, Instance, Point, Ratio, Rect, SpriteMapDimensions};

fn q(n: i64, d: i64) -> Ratio {
    Ratio::new(n, d)
}

fn whole(n: i64) -> Ratio {
    Ratio::from_int(n)
}

fn corners(r: &Rect) -> [Ratio; 4] {
    let ul = r.upper_left();
    let lr = r.lower_right();
    [ul[0], ul[1], lr[0], lr[1]]
}

fn same(a: Ratio, b: Ratio) -> bool {
    a.same_value(&b)
}

fn rect_is(r: &Rect, v: [Ratio; 4]) -> bool {
    let c = corners(r);
    (0..4).all(|i| same(c[i], v[i]))
}

#[test]
fn rect_new_normalizes_corners() {
    let cases = [
        (whole(3), whole(1), whole(0), whole(2)),
        (whole(-1), whole(5), whole(4), whole(-7)),
        (q(1, 2), q(1, 3), q(1, 4), q(2, 3)),
        (whole(0), whole(0), whole(1), whole(1)),
    ];
    for (x1, y1, x2, y2) in cases {
        let r = Rect::new(x1, y1, x2, y2).unwrap();
        let [ulx, uly, lrx, lry] = corners(&r);
        assert!(ulx.le(&lrx));
        assert!(uly.le(&lry));
        assert!(ulx.lt(&lrx));
        assert!(uly.lt(&lry));
    }
    let r = Rect::new(whole(3), whole(1), whole(0), whole(2)).unwrap();
    assert!(rect_is(&r, [whole(0), whole(1), whole(3), whole(2)]));
}

#[test]
fn rect_new_rejects_degenerate() {
    assert!(Rect::new(whole(1), whole(0), whole(1), whole(5)).is_none());
    assert!(Rect::new(whole(0), whole(2), whole(5), whole(2)).is_none());
    // equal values written differently are still equal
    assert!(Rect::new(q(1, 2), whole(0), q(2, 4), whole(1)).is_none());
    // close to degenerate: within 2^-16 below 1, or 2^-16 relative above
    assert!(Rect::new(whole(0), whole(0), q(1, 1_000_000), whole(1)).is_none());
    assert!(Rect::new(whole(0), whole(0), whole(1), q(1, 65537)).is_none());
    assert!(Rect::new(whole(0), whole(0), whole(1), q(1, 65535)).is_some());
    assert!(Rect::new(whole(1_000_000), whole(0), whole(1_000_001), whole(1)).is_none());
    assert!(Rect::new(whole(1_000), whole(0), whole(1_001), whole(1)).is_some());
    assert!(Rect::new(whole(-5), whole(0), q(-5 * 1_000_000 - 1, 1_000_000), whole(1)).is_none());
}

#[test]
fn cell_index_coord_round_trip() {
    let dims = SpriteMapDimensions::new(3, 32);
    for i in 0..(3 * 32) {
        let rc = dims.cell_coord(i);
        assert_eq!(rc, [i / 32, i % 32]);
        assert_eq!(dims.cell_index(rc), i);
        assert_eq!(dims.cell_coord(dims.cell_index(rc)), rc);
    }
    assert_eq!(dims.cell_index([2, 31]), 95);
}

#[test]
fn cell_rect_untrimmed_tiles_the_sheet() {
    let dims = SpriteMapDimensions::new(3, 32);
    let r = dims.rect_for_cell(33, Ratio::zero());
    assert!(rect_is(&r, [q(1, 32), q(1, 3), q(2, 32), q(2, 3)]));
    let last = dims.rect_for_cell(95, Ratio::zero());
    assert!(rect_is(&last, [q(31, 32), q(2, 3), whole(1), whole(1)]));
    assert!(same(dims.cell_width(), q(1, 32)));
    assert!(same(dims.cell_height(), q(1, 3)));
}

#[test]
fn cell_rect_trimmed_is_inside_and_non_degenerate() {
    let dims = SpriteMapDimensions::new(4, 5);
    for trim in [q(0, 1), q(3, 10), q(1, 2), q(99, 100)] {
        for i in 0..20 {
            let t = corners(&dims.rect_for_cell(i, trim));
            let full = corners(&dims.rect_for_cell(i, Ratio::zero()));
            assert!(t[0].lt(&t[2]));
            assert!(t[1].lt(&t[3]));
            assert!(full[0].le(&t[0]));
            assert!(full[1].le(&t[1]));
            assert!(t[2].le(&full[2]));
            assert!(t[3].le(&full[3]));
        }
    }
    // trim 1/2 on cell 0 of a 4x5 grid: a quarter of the cell off each side
    let r = dims.rect_for_cell(0, q(1, 2));
    assert!(rect_is(&r, [q(1, 20), q(1, 16), q(3, 20), q(3, 16)]));
}

#[test]
fn rect_for_cell_with_two_trims() {
    let dims = SpriteMapDimensions::new(3, 32);
    let r = dims.rect_for_cell_xy(0, q(3, 10), q(1, 10));
    assert!(rect_is(&r, [q(3, 640), q(1, 60), q(17, 640), q(19, 60)]));
}

#[test]
fn unsupported_chars_map_to_blank_cell() {
    for c in ['é', '\t', '\n', '\u{7f}', '\u{0}', '€', ' '] {
        assert_eq!(char_to_cell_index(c), 3 * 32 - 1);
    }
    assert_eq!(CHAR_EMPTY_SPACE_INDEX, 95);
    assert_eq!(char_to_cell_index('!'), 0);
    assert_eq!(char_to_cell_index('A'), 32);
    assert_eq!(char_to_cell_index('~'), 93);
}

#[test]
fn charmap_index_of_chars() {
    assert_eq!(char_to_charmap_index('!'), Some(0));
    assert_eq!(char_to_charmap_index('a'), Some(64));
    assert_eq!(char_to_charmap_index(' '), Some(95));
    assert_eq!(char_to_charmap_index('\t'), Some(95));
    assert_eq!(char_to_charmap_index('é'), Some(95));
    assert_eq!(char_to_charmap_index('\u{7f}'), Some(95));
}

#[test]
fn color_bytes_clamp_and_truncate() {
    let c = Color::new(q(1, 2), whole(-1), whole(2), q(1, 1));
    assert_eq!(c.to_u8_array(), [127, 0, 255, 255]);
    let c = Color::new(q(1, 3), q(2, 3), q(254, 255), whole(0));
    assert_eq!(c.to_u8_array(), [85, 170, 254, 0]);
    assert_eq!(Color::white().to_u8_array(), [255, 255, 255, 255]);
    let (r, g, b, a) = Color::rgb(whole(0), q(1, 2), whole(1)).unpack();
    assert!(same(r, whole(0)) && same(g, q(1, 2)) && same(b, whole(1)) && same(a, whole(1)));
}

#[test]
fn centered_rect_exact() {
    let center = Point { x: whole(1), y: q(1, 2) };
    let dim = Dimensions { width: q(1, 2), height: whole(1) };
    let r = Rect::centered(center, dim);
    assert!(rect_is(&r, [q(3, 4), whole(0), q(5, 4), whole(1)]));
}

#[test]
fn ratio_arithmetic() {
    assert!(same(q(1, 3).plus(&q(1, 6)), q(1, 2)));
    assert!(same(q(2, 3).scale_by(3), whole(2)));
    assert!(same(q(2, 3).divide_by(4), q(1, 6)));
    assert!(same(q(-1, 2).min(q(1, 3)), q(-1, 2)));
    assert!(same(q(-1, 2).max(q(1, 3)), q(1, 3)));
    assert!(!q(1, 3).le(&q(1, 4)));
}

#[test]
fn instance_builder_defaults() {
    let i = Instance::builder().build();
    assert!(rect_is(&i.src(), [whole(0), whole(0), whole(1), whole(1)]));
    assert!(rect_is(&i.dest(), [whole(0), whole(0), whole(1), whole(1)]));
    assert!(same(i.rotation(), whole(0)));
    assert_eq!(i.color_factor().to_u8_array(), [255, 255, 255, 255]);
}

#[test]
fn instance_components_in_record_order() {
    let src = Rect::new(whole(0), whole(0), q(1, 2), q(1, 4)).unwrap();
    let dst = Rect::new(whole(10), whole(20), whole(30), whole(40)).unwrap();
    let i = Instance::builder()
        .src(src)
        .dest(dst)
        .rotate(q(1, 3))
        .color_factor(Color::new(q(1, 5), q(2, 5), q(3, 5), q(4, 5)))
        .build();
    let c = i.components();
    let want = [
        whole(0), whole(0), q(1, 2), q(1, 4),
        whole(10), whole(20), whole(30), whole(40),
        q(1, 3),
        q(1, 5), q(2, 5), q(3, 5), q(4, 5),
    ];
    assert_eq!(c.len(), 13);
    for k in 0..13 {
        assert!(same(c[k], want[k]));
    }
}

#[test]
fn instance_attribute_layout_is_packed() {
    let layout = Instance::attribute_layout();
    let got: Vec<(u32, u64, u32)> = layout.iter().map(|a| (a.location, a.offset, a.components)).collect();
    assert_eq!(got, vec![(0, 0, 2), (1, 8, 2), (2, 16, 2), (3, 24, 2), (4, 32, 1), (5, 36, 4)]);
    assert_eq!(a2d::inst::INSTANCE_STRIDE, 52);
}

#[test]
fn instance_setters_change_one_field() {
    let mut i = Instance::builder().build();
    let r = Rect::new(whole(1), whole(1), whole(2), whole(3)).unwrap();
    i.set_dest(r);
    i.set_rotation(q(1, 2));
    assert!(rect_is(&i.dest(), [whole(1), whole(1), whole(2), whole(3)]));
    assert!(rect_is(&i.src(), [whole(0), whole(0), whole(1), whole(1)]));
    assert!(same(i.rotation(), q(1, 2)));
    i.set_src(r);
    i.set_color_factor(Color::rgb(whole(0), whole(0), whole(0)));
    assert!(rect_is(&i.src(), [whole(1), whole(1), whole(2), whole(3)]));
    assert_eq!(i.color_factor().to_u8_array(), [0, 0, 0, 255]);
}

#[test]
fn point_and_dimensions_arithmetic() {
    let p = Point { x: q(1, 2), y: whole(3) };
    let d = Dimensions { width: q(1, 4), height: q(-1, 3) };
    let moved = p.plus(d);
    assert!(same(moved.x, q(3, 4)) && same(moved.y, q(8, 3)));
    let back = p.minus(d);
    assert!(same(back.x, q(1, 4)) && same(back.y, q(10, 3)));
    let s = d.scaled(4);
    assert!(same(s.width, whole(1)) && same(s.height, q(-4, 3)));
    let h = d.divided(2);
    assert!(same(h.width, q(1, 8)) && same(h.height, q(-1, 6)));
    let sum = d.plus(Dimensions { width: q(3, 4), height: whole(1) });
    assert!(same(sum.width, whole(1)) && same(sum.height, q(2, 3)));
    let diff = d.minus(Dimensions { width: q(1, 4), height: whole(1) });
    assert!(same(diff.width, whole(0)) && same(diff.height, q(-4, 3)));
    let prod = d.times(Dimensions { width: whole(2), height: whole(3) });
    assert!(same(prod.width, q(1, 2)) && same(prod.height, whole(-1)));
    assert_eq!(p.to_array(), [q(1, 2), whole(3)]);
    assert_eq!(d.to_array(), [q(1, 4), q(-1, 3)]);
}

#[test]
fn cell_rect_full_trim_is_clamped_inside_the_cell() {
    let dims = SpriteMapDimensions::new(4, 5);
    for i in 0..20 {
        let t = corners(&dims.rect_for_cell(i, whole(1)));
        let full = corners(&dims.rect_for_cell(i, Ratio::zero()));
        assert!(t[0].lt(&t[2]) && t[1].lt(&t[3]));
        assert!(full[0].le(&t[0]) && full[1].le(&t[1]) && t[2].le(&full[2]) && t[3].le(&full[3]));
    }
    // a trim of 1/1 is applied as 1 - 1/2; a trim of 4/4 as 1 - 1/8
    let r = dims.rect_for_cell(0, whole(1));
    assert!(rect_is(&r, [q(1, 20), q(1, 16), q(3, 20), q(3, 16)]));
    let r = dims.rect_for_cell(0, q(4, 4));
    assert!(rect_is(&r, [q(7, 80), q(7, 64), q(9, 80), q(9, 64)]));
}

#[test]
fn cell_coords_round_trip_from_row_col() {
    let dims = SpriteMapDimensions::new(7, 3);
    for row in 0..7 {
        for col in 0..3 {
            assert_eq!(dims.cell_coord(dims.cell_index([row, col])), [row, col]);
        }
    }
}
