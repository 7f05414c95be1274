use rainfrog::action::Action;
use rainfrog::buffer::{Buffer, Cell, Color, Rect};
use rainfrog::data::{frame_color, layout, Data, DataState, DataView, Grid, Header};
use rainfrog::focus::Focus;
use rainfrog::keymap::{Key, KeyCode};

fn grid(columns: usize, rows: usize) -> Grid {
    let headers = (0..columns)
        .map(|c| Header { name: format!("col{c}"), declared_type: "int4".to_string() })
        .collect();
    let rows = (0..rows).map(|r| (0..columns).map(|c| format!("{}", r * 10 + c)).collect()).collect();
    Grid { headers, rows }
}

fn text_at(b: &Buffer, line: usize, from: usize, n: usize) -> String {
    b.content[line][from..from + n].iter().map(|c| c.symbol).collect()
}

#[test]
fn zero_rows_gives_no_results_and_resets_offsets() {
    let mut d = Data::new();
    d.set_data_state(Some(Ok(grid(10, 50))));
    d.scrollable.set_parent_area(Rect::new(0, 0, 40, 20));
    d.handle_key(Focus::Data, Key::new(KeyCode::Down, 0));
    d.handle_key(Focus::Data, Key::new(KeyCode::Right, 0));
    assert_eq!((d.scrollable.x_offset, d.scrollable.y_offset), (1, 1));
    d.set_data_state(Some(Ok(grid(3, 0))));
    assert_eq!(d.data_state, DataState::NoResults);
    assert_eq!((d.scrollable.x_offset, d.scrollable.y_offset), (0, 0));
}

#[test]
fn error_and_blank_states() {
    let mut d = Data::new();
    d.set_data_state(Some(Ok(grid(2, 2))));
    d.set_data_state(Some(Err("relation \"nope\" does not exist".to_string())));
    assert_eq!(d.data_state, DataState::Error("relation \"nope\" does not exist".to_string()));
    assert_eq!(d.scrollable.content.area.width, 0);
    d.set_data_state(None);
    assert_eq!(d.data_state, DataState::Blank);
}

#[test]
fn layout_places_headers_and_values() {
    let g = grid(2, 3);
    let b = layout(&g);
    assert_eq!(b.area, Rect::new(0, 0, 72, 9));
    assert_eq!(text_at(&b, 0, 0, 5), "col0 ");
    assert_eq!(text_at(&b, 1, 0, 5), "int4 ");
    assert_eq!(text_at(&b, 0, 36, 5), "col1 ");
    assert_eq!(text_at(&b, 3, 0, 2), "0 ");
    assert_eq!(text_at(&b, 5, 36, 3), "11 ");
    assert_eq!(text_at(&b, 7, 0, 3), "20 ");
    assert_eq!(text_at(&b, 2, 0, 72), " ".repeat(72));
    assert_eq!(text_at(&b, 4, 0, 72), " ".repeat(72));
    assert_eq!(b.content[0][0], Cell { symbol: 'c', fg: Color::Reset, bg: Color::Reset, skip: false });
}

#[test]
fn layout_cuts_long_values_and_pads_short_rows() {
    let long = "x".repeat(50);
    let g = Grid {
        headers: vec![
            Header { name: "a".to_string(), declared_type: "text".to_string() },
            Header { name: "b".to_string(), declared_type: "text".to_string() },
        ],
        rows: vec![vec![long]],
    };
    let b = layout(&g);
    assert_eq!(text_at(&b, 3, 0, 36), format!("{} ", "x".repeat(35)));
    assert_eq!(text_at(&b, 3, 36, 36), " ".repeat(36));
}

#[test]
fn results_set_content_and_keys_scroll_only_with_focus() {
    let mut d = Data::new();
    d.set_data_state(Some(Ok(grid(10, 500))));
    assert_eq!(d.data_state, DataState::HasResults);
    assert_eq!(d.scrollable.content.area, Rect::new(0, 0, 360, 1003));
    let mut buf = Buffer::empty(Rect::new(0, 0, 82, 26));
    let bars = match d.draw(Rect::new(0, 0, 82, 26), &mut buf) {
        DataView::Grid(bars) => bars,
        DataView::Message(m) => panic!("unexpected message {m}"),
    };
    assert_eq!(buf.get(0, 0), Cell::blank());
    assert!(bars.vertical.is_some() && bars.horizontal.is_some());
    assert_eq!(buf.get(1, 1).symbol, 'c');
    d.handle_key(Focus::Editor, Key::new(KeyCode::Char('j'), 0));
    assert_eq!(d.scrollable.y_offset, 0);
    d.handle_key(Focus::Data, Key::new(KeyCode::Char('j'), 0));
    assert_eq!(d.scrollable.y_offset, 1);
    d.handle_key(Focus::Data, Key::new(KeyCode::Char('G'), 0));
    assert_eq!(d.scrollable.y_offset, 1003 - 24);
    d.handle_key(Focus::Data, Key::new(KeyCode::Char('g'), 0));
    assert_eq!(d.scrollable.y_offset, 0);
    d.handle_key(Focus::Data, Key::new(KeyCode::Char('e'), 0));
    assert_eq!(d.scrollable.x_offset, 36);
    d.handle_key(Focus::Data, Key::new(KeyCode::Char('l'), 0));
    d.handle_key(Focus::Data, Key::new(KeyCode::Char('b'), 0));
    assert_eq!(d.scrollable.x_offset, 36);
    d.handle_key(Focus::Data, Key::new(KeyCode::Char('$'), 0));
    assert_eq!(d.scrollable.x_offset, 360 - 80);
    d.handle_key(Focus::Data, Key::new(KeyCode::Char('0'), 0));
    assert_eq!(d.scrollable.x_offset, 0);
    d.handle_key(Focus::Data, Key::new(KeyCode::Char('z'), 0));
    assert_eq!(d.scrollable.x_offset, 0);
}

#[test]
fn query_action_resets_scroll() {
    let mut d = Data::new();
    d.set_data_state(Some(Ok(grid(10, 50))));
    d.scrollable.set_parent_area(Rect::new(0, 0, 40, 20));
    d.handle_key(Focus::Data, Key::new(KeyCode::Char('l'), 0));
    d.handle_key(Focus::Data, Key::new(KeyCode::Char('j'), 0));
    d.update(&Action::Render);
    assert_eq!((d.scrollable.x_offset, d.scrollable.y_offset), (1, 1));
    d.update(&Action::Query(vec!["select 1".to_string()], true, false));
    assert_eq!((d.scrollable.x_offset, d.scrollable.y_offset), (0, 0));
}

#[test]
fn blank_state_shows_an_empty_message_and_leaves_buffer() {
    let mut d = Data::new();
    let mut buf = Buffer::empty(Rect::new(0, 0, 6, 5));
    buf.content[2][2].symbol = '#';
    assert_eq!(d.draw(Rect::new(0, 0, 6, 5), &mut buf), DataView::Message(String::new()));
    assert_eq!(buf.get(2, 2).symbol, '#');
    assert_eq!(buf.get(0, 0), Cell::blank());
}

#[test]
fn no_results_state_shows_its_message() {
    let mut d = Data::new();
    d.set_data_state(Some(Ok(grid(2, 0))));
    let mut buf = Buffer::empty(Rect::new(0, 0, 14, 4));
    assert_eq!(d.draw(Rect::new(0, 0, 14, 4), &mut buf), DataView::Message("no results".to_string()));
}

#[test]
fn error_state_shows_the_description() {
    let mut d = Data::new();
    d.set_data_state(Some(Ok(grid(10, 50))));
    d.set_data_state(Some(Err("syntax error at or near x".to_string())));
    let mut buf = Buffer::empty(Rect::new(0, 0, 12, 5));
    assert_eq!(d.draw(Rect::new(0, 0, 12, 5), &mut buf), DataView::Message("syntax error at or near x".to_string()));
    assert_eq!(buf.get(1, 1), Cell::blank());
}

#[test]
fn frame_colour_follows_focus() {
    assert_eq!(frame_color(true), Color::Green);
    assert_eq!(frame_color(false), Color::DarkGray);
}
