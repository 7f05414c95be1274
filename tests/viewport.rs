use rainfrog::buffer::{Buffer, Cell, Color, Rect};
use rainfrog::scroll_table::{clamp, get_max_offsets, MaxOffsets, ScrollDirection, ScrollTable, ScrollbarState};

fn lettered(width: u16, height: u16) -> Buffer {
    let mut b = Buffer::empty(Rect::new(0, 0, width, height));
    for r in 0..height as usize {
        for c in 0..width as usize {
            let symbol = char::from(b'a' + ((r * 7 + c) % 26) as u8);
            b.content[r][c] = Cell { symbol, fg: Color::Indexed((r % 200) as u8), bg: Color::Rgb(1, 2, c as u8), skip: false };
        }
    }
    b
}

fn table_with(content: Buffer, column_width: u16, area: Rect, bordered: bool) -> ScrollTable {
    let mut t = ScrollTable::new();
    t.set_content(content, column_width);
    t.block(bordered);
    t.set_parent_area(area);
    t
}

#[test]
fn large_grid_shows_both_scrollbars_and_clamps_at_bottom() {
    // ten columns of 36 cells, five hundred lines, drawn framed so that
    // 80 x 24 cells are left for content
    let mut t = table_with(lettered(360, 500), 36, Rect::new(0, 0, 82, 26), true);
    let bars = t.scrollbars();
    assert_eq!(bars.vertical, Some(ScrollbarState { content_length: 476, position: 0 }));
    assert_eq!(bars.horizontal, Some(ScrollbarState { content_length: 280, position: 0 }));
    for _ in 0..476 {
        t.scroll(ScrollDirection::Down);
    }
    assert_eq!(t.y_offset, 476);
    assert_eq!(t.y_offset, t.max_offsets.max_y_offset);
    t.scroll(ScrollDirection::Down);
    assert_eq!(t.y_offset, 476);
}

#[test]
fn fresh_content_renders_top_left_window() {
    let content = lettered(6, 5);
    let mut t = table_with(content, 3, Rect::new(2, 1, 4, 3), false);
    let mut buf = Buffer::empty(Rect::new(0, 0, 10, 8));
    t.render(&mut buf);
    for i in 0..3u16 {
        for j in 0..4u16 {
            assert_eq!(buf.get(2 + j, 1 + i), t.content.content[i as usize][j as usize]);
        }
    }
    assert_eq!(buf.get(0, 0), Cell::blank());
    assert_eq!(buf.get(6, 1), Cell::blank());
    assert_eq!(buf.get(2, 4), Cell::blank());
    t.scroll(ScrollDirection::Down);
    t.scroll(ScrollDirection::Right);
    let mut buf2 = Buffer::empty(Rect::new(0, 0, 10, 8));
    t.render(&mut buf2);
    assert_eq!(buf2.get(2, 1), t.content.content[1][1]);
}

#[test]
fn small_content_has_no_scrollbars_and_is_padded() {
    let mut t = table_with(lettered(3, 2), 3, Rect::new(0, 0, 10, 10), true);
    let bars = t.scrollbars();
    assert_eq!(bars.vertical, None);
    assert_eq!(bars.horizontal, None);
    t.scroll(ScrollDirection::Right);
    t.scroll(ScrollDirection::Down);
    assert_eq!((t.x_offset, t.y_offset), (0, 0));
    let mut buf = Buffer::empty(Rect::new(0, 0, 10, 10));
    t.render(&mut buf);
    assert_eq!(buf.get(1, 1), t.content.content[0][0]);
    assert_eq!(buf.get(3, 2), t.content.content[1][2]);
    assert_eq!(buf.get(4, 1), Cell::blank());
    assert_eq!(buf.get(1, 3), Cell::blank());
}

#[test]
fn only_one_axis_scrolls() {
    let t = table_with(lettered(20, 2), 5, Rect::new(0, 0, 10, 10), false);
    let bars = t.scrollbars();
    assert_eq!(bars.vertical, None);
    assert_eq!(bars.horizontal, Some(ScrollbarState { content_length: 10, position: 0 }));
}

#[test]
fn zero_size_area_renders_nothing() {
    let t = table_with(lettered(5, 5), 5, Rect::new(3, 3, 0, 4), false);
    let mut buf = Buffer::empty(Rect::new(0, 0, 8, 8));
    t.render(&mut buf);
    for y in 0..8 {
        for x in 0..8 {
            assert_eq!(buf.get(x, y), Cell::blank());
        }
    }
    assert_eq!(get_max_offsets(5, 5, &Rect::new(3, 3, 0, 4)), MaxOffsets { max_x_offset: 0, max_y_offset: 0 });
}

#[test]
fn max_offsets_are_content_less_view() {
    assert_eq!(get_max_offsets(100, 40, &Rect::new(0, 0, 30, 50)), MaxOffsets { max_x_offset: 70, max_y_offset: 0 });
}

#[test]
fn scrolling_clamps_at_both_bounds() {
    let mut t = table_with(lettered(12, 12), 4, Rect::new(0, 0, 10, 10), false);
    t.scroll(ScrollDirection::Left);
    t.scroll(ScrollDirection::Up);
    assert_eq!((t.x_offset, t.y_offset), (0, 0));
    for _ in 0..10 {
        t.scroll(ScrollDirection::Right);
        t.scroll(ScrollDirection::Down);
    }
    assert_eq!((t.x_offset, t.y_offset), (2, 2));
    t.scroll(ScrollDirection::Right);
    assert_eq!(t.x_offset, 2);
    t.scroll(ScrollDirection::Left);
    assert_eq!(t.x_offset, 1);
}

#[test]
fn column_steps_and_jumps() {
    let mut t = table_with(lettered(360, 30), 36, Rect::new(0, 0, 80, 20), false);
    assert_eq!(t.max_offsets.max_x_offset, 280);
    t.next_column();
    assert_eq!(t.x_offset, 36);
    t.next_column();
    assert_eq!(t.x_offset, 72);
    t.scroll(ScrollDirection::Right);
    t.scroll(ScrollDirection::Right);
    t.prev_column();
    assert_eq!(t.x_offset, 72);
    t.prev_column();
    assert_eq!(t.x_offset, 36);
    t.prev_column();
    t.prev_column();
    assert_eq!(t.x_offset, 0);
    t.last_column();
    assert_eq!(t.x_offset, 280);
    t.next_column();
    assert_eq!(t.x_offset, 280);
    t.first_column();
    assert_eq!(t.x_offset, 0);
    t.bottom_row();
    assert_eq!(t.y_offset, 10);
    t.top_row();
    assert_eq!(t.y_offset, 0);
}

#[test]
fn shrinking_the_area_clamps_offsets() {
    let mut t = table_with(lettered(20, 20), 5, Rect::new(0, 0, 5, 5), false);
    t.last_column();
    t.bottom_row();
    assert_eq!((t.x_offset, t.y_offset), (15, 15));
    t.set_parent_area(Rect::new(0, 0, 12, 18));
    assert_eq!((t.x_offset, t.y_offset), (8, 2));
    t.reset_scroll();
    assert_eq!((t.x_offset, t.y_offset), (0, 0));
}

#[test]
fn draw_records_area_and_returns_scrollbars() {
    let mut t = table_with(lettered(20, 20), 5, Rect::new(0, 0, 0, 0), true);
    let mut buf = Buffer::empty(Rect::new(0, 0, 12, 12));
    let bars = t.draw(Rect::new(0, 0, 12, 12), &mut buf);
    assert_eq!(t.parent_area, Rect::new(0, 0, 12, 12));
    assert_eq!(bars.vertical, Some(ScrollbarState { content_length: 10, position: 0 }));
    assert_eq!(buf.get(1, 1), t.content.content[0][0]);
    assert_eq!(buf.get(0, 0), Cell::blank());
}

#[test]
fn clamp_trims_trailing_blanks() {
    let mut b = Buffer::empty(Rect::new(0, 0, 6, 5));
    b.content[1][3].symbol = 'x';
    b.content[2][0].symbol = 'y';
    let c = clamp(&b);
    assert_eq!(c.area, Rect::new(0, 0, 4, 3));
    assert_eq!(c.content[1][3].symbol, 'x');
    assert_eq!(c.content[2][0].symbol, 'y');
    let empty = clamp(&Buffer::empty(Rect::new(0, 0, 3, 3)));
    assert_eq!(empty.area, Rect::new(0, 0, 0, 0));
    assert!(empty.content.is_empty());
}

#[test]
fn rect_intersection_and_inner() {
    let a = Rect::new(0, 0, 10, 10);
    assert_eq!(a.intersection(&Rect::new(5, 6, 10, 10)), Rect::new(5, 6, 5, 4));
    assert!(a.intersection(&Rect::new(20, 20, 5, 5)).is_empty());
    assert_eq!(a.inner(), Rect::new(1, 1, 8, 8));
    assert!(Rect::new(0, 0, 1, 5).inner().is_empty());
}

#[test]
fn area_beyond_the_content_is_padded_blank() {
    let t = table_with(lettered(3, 2), 3, Rect::new(0, 0, 6, 4), false);
    let mut buf = Buffer::empty(Rect::new(0, 0, 8, 6));
    for row in buf.content.iter_mut() {
        for cell in row.iter_mut() {
            cell.symbol = '#';
        }
    }
    t.render(&mut buf);
    assert_eq!(buf.get(2, 1), t.content.content[1][2]);
    assert_eq!(buf.get(3, 0), Cell::blank());
    assert_eq!(buf.get(5, 3), Cell::blank());
    assert_eq!(buf.get(0, 2), Cell::blank());
    assert_eq!(buf.get(6, 0).symbol, '#');
    assert_eq!(buf.get(0, 4).symbol, '#');
}

#[test]
fn repeated_scrolling_moves_by_the_count_and_stops() {
    let mut t = table_with(lettered(20, 20), 5, Rect::new(0, 0, 10, 10), false);
    for _ in 0..4 {
        t.scroll(ScrollDirection::Right);
    }
    assert_eq!(t.x_offset, 4);
    for _ in 0..30 {
        t.scroll(ScrollDirection::Right);
    }
    assert_eq!(t.x_offset, 10);
    for _ in 0..3 {
        t.scroll(ScrollDirection::Left);
    }
    assert_eq!(t.x_offset, 7);
    for _ in 0..30 {
        t.scroll(ScrollDirection::Left);
    }
    assert_eq!(t.x_offset, 0);
}
