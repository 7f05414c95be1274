//! The data region: the outcome of the latest query, and its layout as a
//! virtual content buffer shown through the viewport.

use vstd::prelude::*;
use vstd::std_specs::iter::IteratorSpec;
use crate::action::Action;
use crate::buffer::{Buffer, Cell, Color, Rect, min_int};
use crate::focus::Focus;
use crate::keymap::{Key, KeyCode};
use crate::scroll_table::{ScrollDirection, ScrollTable, Scrollbars};

verus! {

broadcast use vstd::string::axiom_spec_iter;

/// The characters of `s`, at most `n` of them.
fn leading_chars(s: &str, n: usize) -> (r: Vec<char>)
    ensures
        r@ == s@.take(min_int(n as int, s@.len() as int)),
{
    let mut it = s.chars();
    let mut out: Vec<char> = Vec::new();
    while out.len() < n
        invariant
            out@.len() <= n,
            out@.len() <= s@.len(),
            out@ == s@.take(out@.len() as int),
            it.remaining() == s@.skip(out@.len() as int),
            it.obeys_prophetic_iter_laws(),
        decreases n - out@.len(),
    {
        match it.next() {
            Some(c) => {
                assert(s@.take(out@.len() + 1 as int) =~= out@.push(c));
                out.push(c);
            },
            None => {
                assert(out@.len() == s@.len());
                return out;
            },
        }
    }
    out
}

} // verus!

verus! {

/// Cells given to each result column, the last of them a spacing cell.
pub const COLUMN_WIDTH: u16 = 36;

/// Most text cells shown of one value: the column less its spacing cell.
pub const TEXT_WIDTH: usize = 35;

/// Lines of the header: column name, column type, one blank line.
pub const HEADER_HEIGHT: u16 = 3;

/// Lines of each result row: its values, one blank line.
pub const ROW_HEIGHT: u16 = 2;

/// Most columns laid out: as many as fit in the coordinate space.
pub const MAX_COLUMNS: usize = 1820;

/// Most rows laid out: as many as fit in the coordinate space.
pub const MAX_ROWS: usize = 32766;

/// The name and declared type of a result column.
pub struct Header {
    pub name: String,
    pub declared_type: String,
}

/// A query result: its column headers and its rows of values as text.
pub struct Grid {
    pub headers: Vec<Header>,
    pub rows: Vec<Vec<String>>,
}

/// The number of columns laid out.
pub open spec fn shown_columns(g: Grid) -> int {
    min_int(g.headers@.len() as int, MAX_COLUMNS as int)
}

/// The number of rows laid out.
pub open spec fn shown_rows(g: Grid) -> int {
    min_int(g.rows@.len() as int, MAX_ROWS as int)
}

/// The text in line `line` of the layout, column `col`: the header's name,
/// then its type, then one line per row holding the row's value.
pub open spec fn line_text(g: Grid, line: int, col: int) -> Seq<char> {
    if line == 0 {
        g.headers@[col].name@
    } else if line == 1 {
        g.headers@[col].declared_type@
    } else if line >= HEADER_HEIGHT && (line - HEADER_HEIGHT) % 2 == 0 {
        let row = g.rows@[(line - HEADER_HEIGHT) / 2]@;
        if col < row.len() {
            row[col]@
        } else {
            Seq::empty()
        }
    } else {
        Seq::empty()
    }
}

/// A plain cell showing `c`.
pub open spec fn text_cell(c: char) -> Cell {
    Cell { symbol: c, fg: Color::Reset, bg: Color::Reset, skip: false }
}

/// The cells of one column of one line: the text cut to `TEXT_WIDTH`,
/// padded with blanks to `COLUMN_WIDTH`.
pub open spec fn column_cells(text: Seq<char>) -> Seq<Cell> {
    Seq::new(
        COLUMN_WIDTH as nat,
        |k: int|
            if k < TEXT_WIDTH && k < text.len() {
                text_cell(text[k])
            } else {
                Cell::spec_blank()
            },
    )
}

/// The cells of line `line` over its first `n` columns.
pub open spec fn line_cells(g: Grid, line: int, n: int) -> Seq<Cell>
    decreases n,
{
    if n <= 0 {
        Seq::empty()
    } else {
        line_cells(g, line, n - 1) + column_cells(line_text(g, line, n - 1))
    }
}

proof fn lemma_line_cells_len(g: Grid, line: int, n: int)
    requires
        n >= 0,
    ensures
        line_cells(g, line, n).len() == n * COLUMN_WIDTH,
    decreases n,
{
    if n > 0 {
        lemma_line_cells_len(g, line, n - 1);
    }
}

/// The text of the value in column `col` of row `row`, or none.
fn value_text(g: &Grid, row: usize, col: usize) -> (r: &str)
    requires
        row < g.rows@.len(),
    ensures
        r@ == (if col < g.rows@[row as int]@.len() { g.rows@[row as int]@[col as int]@ } else { Seq::empty() }),
{
    let values = &g.rows[row];
    if col < values.len() {
        values[col].as_str()
    } else {
        proof {
            reveal_strlit("");
        }
        ""
    }
}

/// The cells of one column of one line for `text`.
fn column_row(text: &str) -> (r: Vec<Cell>)
    ensures
        r@ == column_cells(text@),
{
    let chars = leading_chars(text, TEXT_WIDTH);
    let mut out: Vec<Cell> = Vec::new();
    let mut k: usize = 0;
    let cw: usize = COLUMN_WIDTH as usize;
    while k < cw
        invariant
            cw == COLUMN_WIDTH,
            chars@ == text@.take(min_int(TEXT_WIDTH as int, text@.len() as int)),
            k <= cw,
            out@.len() == k,
            forall|j: int| 0 <= j < k ==> #[trigger] out@[j] == column_cells(text@)[j],
        decreases cw - k,
    {
        let cell = if k < chars.len() {
            Cell { symbol: chars[k], fg: Color::Reset, bg: Color::Reset, skip: false }
        } else {
            Cell::blank()
        };
        assert(cell == column_cells(text@)[k as int]);
        out.push(cell);
        k = k + 1;
    }
    assert(out@ =~= column_cells(text@));
    out
}

/// The virtual content buffer of a result: the header lines, then the rows,
/// each column `COLUMN_WIDTH` cells wide; at most `MAX_COLUMNS` columns and
/// `MAX_ROWS` rows are laid out.
pub fn layout(g: &Grid) -> (r: Buffer)
    ensures
        r.wf(),
        r.area == Rect::new_spec(0, 0, (shown_columns(*g) * COLUMN_WIDTH) as u16, (HEADER_HEIGHT + shown_rows(*g) * ROW_HEIGHT) as u16),
        forall|line: int| 0 <= line < r.area.height ==> #[trigger] r.content@[line]@ == line_cells(*g, line, shown_columns(*g)),
{
    let ncols = if g.headers.len() < MAX_COLUMNS { g.headers.len() } else { MAX_COLUMNS };
    let nrows = if g.rows.len() < MAX_ROWS { g.rows.len() } else { MAX_ROWS };
    let width = (ncols as u16) * COLUMN_WIDTH;
    let height = HEADER_HEIGHT + (nrows as u16) * ROW_HEIGHT;
    let mut content: Vec<Vec<Cell>> = Vec::new();
    let mut line: usize = 0;
    while line < height as usize
        invariant
            ncols == shown_columns(*g),
            nrows == shown_rows(*g),
            width == ncols * COLUMN_WIDTH,
            height == HEADER_HEIGHT + nrows * ROW_HEIGHT,
            line <= height,
            content@.len() == line,
            forall|l: int| 0 <= l < line ==> #[trigger] content@[l]@ == line_cells(*g, l, ncols as int),
        decreases height as usize - line,
    {
        let mut row: Vec<Cell> = Vec::new();
        let mut col: usize = 0;
        while col < ncols
            invariant
                ncols == shown_columns(*g),
                nrows == shown_rows(*g),
                height == HEADER_HEIGHT + nrows * ROW_HEIGHT,
                line < height,
                col <= ncols,
                row@ == line_cells(*g, line as int, col as int),
            decreases ncols - col,
        {
            let text: &str = if line == 0 {
                g.headers[col].name.as_str()
            } else if line == 1 {
                g.headers[col].declared_type.as_str()
            } else if line >= HEADER_HEIGHT as usize && (line - HEADER_HEIGHT as usize) % 2 == 0 {
                value_text(g, (line - HEADER_HEIGHT as usize) / 2, col)
            } else {
                proof {
                    reveal_strlit("");
                }
                ""
            };
            assert(text@ == line_text(*g, line as int, col as int));
            let mut cells = column_row(text);
            row.append(&mut cells);
            col = col + 1;
        }
        proof {
            lemma_line_cells_len(*g, line as int, ncols as int);
        }
        content.push(row);
        line = line + 1;
    }
    let r = Buffer { area: Rect::new(0, 0, width, height), content };
    assert forall|l: int| 0 <= l < r.content@.len() implies #[trigger] r.content@[l]@.len() == r.area.width by {
        lemma_line_cells_len(*g, l, ncols as int);
    }
    r
}

} // verus!

verus! {

/// The outcome of the latest query, as the data region shows it.
#[derive(Clone, Debug, PartialEq, Eq)]
pub enum DataState {
    NoResults,
    Blank,
    HasResults,
    Error(String),
}

/// What the data region shows.
#[derive(Clone, Debug, PartialEq, Eq)]
pub enum DataView {
    /// The result grid, rendered into the buffer, with these scrollbars.
    Grid(Scrollbars),
    /// A message in place of the grid.
    Message(String),
}

/// The frame of the data region: its title, its border colour, and what it holds.
#[derive(Clone, Debug, PartialEq, Eq)]
pub struct DataFrame {
    pub title: String,
    pub border: Color,
    pub view: DataView,
}

/// The title of the data region's frame.
pub open spec fn data_title() -> Seq<char> {
    "bottom"@
}

/// The border colour: green while the region has the focus, dimmed otherwise.
pub open spec fn spec_frame_color(focused: bool) -> Color {
    if focused {
        Color::Green
    } else {
        Color::DarkGray
    }
}

/// The border colour: green while the region has the focus, dimmed otherwise.
pub fn frame_color(focused: bool) -> (r: Color)
    ensures
        r == spec_frame_color(focused),
{
    if focused {
        Color::Green
    } else {
        Color::DarkGray
    }
}

/// What a key press in the data region does to the viewport.
pub open spec fn key_effect(t: ScrollTable, code: KeyCode) -> ScrollTable {
    match code {
        KeyCode::Right | KeyCode::Char('l') => t.scrolled(ScrollDirection::Right),
        KeyCode::Left | KeyCode::Char('h') => t.scrolled(ScrollDirection::Left),
        KeyCode::Down | KeyCode::Char('j') => t.scrolled(ScrollDirection::Down),
        KeyCode::Up | KeyCode::Char('k') => t.scrolled(ScrollDirection::Up),
        KeyCode::Char('e') => ScrollTable {
            x_offset: min_int(
                (t.x_offset / t.column_width + 1) * t.column_width,
                t.max_offsets.max_x_offset as int,
            ) as u16,
            ..t
        },
        KeyCode::Char('b') => ScrollTable {
            x_offset: (if t.x_offset % t.column_width == 0 {
                if t.x_offset >= t.column_width {
                    t.x_offset - t.column_width
                } else {
                    0
                }
            } else {
                t.x_offset - t.x_offset % t.column_width
            }) as u16,
            ..t
        },
        KeyCode::Char('g') => ScrollTable { y_offset: 0, ..t },
        KeyCode::Char('G') => ScrollTable { y_offset: t.max_offsets.max_y_offset, ..t },
        KeyCode::Char('0') => ScrollTable { x_offset: 0, ..t },
        KeyCode::Char('$') => ScrollTable { x_offset: t.max_offsets.max_x_offset, ..t },
        _ => t,
    }
}

/// What a raw key press does to the viewport, given the focused region.
pub open spec fn key_effect_in(t: ScrollTable, focus: Focus, key: Key) -> ScrollTable {
    if focus == Focus::Data {
        key_effect(t, key.code)
    } else {
        t
    }
}

/// The data region: the query outcome and the viewport over its rows.
pub struct Data {
    pub scrollable: ScrollTable,
    pub data_state: DataState,
}

impl Data {
    pub open spec fn wf(&self) -> bool {
        &&& self.scrollable.wf()
        &&& self.scrollable.column_width > 0
    }

    /// A blank data region with an empty viewport.
    pub fn new() -> (r: Data)
        ensures
            r.wf(),
            r.data_state == DataState::Blank,
            r.scrollable.content_width() == 0,
            r.scrollable.content_height() == 0,
            r.scrollable.parent_area == Rect::new_spec(0, 0, 0, 0),
            r.scrollable.max_offsets.max_x_offset == 0,
            r.scrollable.max_offsets.max_y_offset == 0,
            r.scrollable.x_offset == 0,
            r.scrollable.y_offset == 0,
    {
        Data { scrollable: ScrollTable::new(), data_state: DataState::Blank }
    }

    /// How the region changes on taking the outcome `data` of a query: no
    /// outcome blanks it; an error is kept as its description and discards
    /// the content; a result with no rows is shown as such; any other result
    /// is laid out as the new content. Every outcome but none resets both
    /// offsets to zero; the area and the frame stay.
    pub open spec fn takes_outcome(old: Data, new: Data, data: Option<Result<Grid, String>>) -> bool {
        &&& new.scrollable.parent_area == old.scrollable.parent_area
        &&& new.scrollable.bordered == old.scrollable.bordered
        &&& match data {
            None => new.data_state == DataState::Blank
                && new.scrollable == old.scrollable,
            Some(Err(e)) => new.data_state == DataState::Error(e)
                && new.scrollable.content_width() == 0
                && new.scrollable.content_height() == 0
                && new.scrollable.x_offset == 0
                && new.scrollable.y_offset == 0,
            Some(Ok(g)) => if g.rows@.len() == 0 {
                new.data_state == DataState::NoResults
                    && new.scrollable == (ScrollTable { x_offset: 0, y_offset: 0, ..old.scrollable })
            } else {
                &&& new.data_state == DataState::HasResults
                &&& new.scrollable.content.area == Rect::new_spec(
                    0,
                    0,
                    (shown_columns(g) * COLUMN_WIDTH) as u16,
                    (HEADER_HEIGHT + shown_rows(g) * ROW_HEIGHT) as u16,
                )
                &&& forall|line: int| 0 <= line < new.scrollable.content_height() ==> #[trigger] new.scrollable.content.content@[line]@
                    == line_cells(g, line, shown_columns(g))
                &&& new.scrollable.column_width == COLUMN_WIDTH
                &&& new.scrollable.x_offset == 0
                &&& new.scrollable.y_offset == 0
            },
        }
    }

    /// Takes the outcome of a query. No outcome blanks the region; an error
    /// is shown as its description and discards the content; a result with
    /// no rows is shown as such; any other result is laid out as the new
    /// content. Every outcome but none resets both offsets to zero.
    pub fn set_data_state(&mut self, data: Option<Result<Grid, String>>)
        requires
            old(self).wf(),
        ensures
            final(self).wf(),
            Data::takes_outcome(*old(self), *final(self), data),
    {
        match data {
            Some(Ok(rows)) => {
                if rows.rows.len() == 0 {
                    self.data_state = DataState::NoResults;
                    self.scrollable.reset_scroll();
                } else {
                    let content = layout(&rows);
                    self.scrollable.set_content(content, COLUMN_WIDTH);
                    self.data_state = DataState::HasResults;
                }
            },
            Some(Err(e)) => {
                let empty = Buffer::empty(Rect::new(0, 0, 0, 0));
                let w = self.scrollable.column_width;
                self.scrollable.set_content(empty, w);
                self.data_state = DataState::Error(e);
            },
            None => {
                self.data_state = DataState::Blank;
            },
        }
    }

    /// A raw key press. While the data region has the focus, it scrolls:
    /// arrows and `h` `j` `k` `l` by one cell, `e` and `b` by columns, `g`
    /// and `G` to the first and last rows, `0` and `$` to the first and last
    /// columns. Anything else, or any key while another region has the
    /// focus, changes nothing.
    pub fn handle_key(&mut self, focus: Focus, key: Key)
        requires
            old(self).wf(),
        ensures
            final(self).wf(),
            final(self).data_state == old(self).data_state,
            final(self).scrollable == key_effect_in(old(self).scrollable, focus, key),
    {
        if focus != Focus::Data {
            return;
        }
        match key.code {
            KeyCode::Right | KeyCode::Char('l') => self.scrollable.scroll(ScrollDirection::Right),
            KeyCode::Left | KeyCode::Char('h') => self.scrollable.scroll(ScrollDirection::Left),
            KeyCode::Down | KeyCode::Char('j') => self.scrollable.scroll(ScrollDirection::Down),
            KeyCode::Up | KeyCode::Char('k') => self.scrollable.scroll(ScrollDirection::Up),
            KeyCode::Char('e') => self.scrollable.next_column(),
            KeyCode::Char('b') => self.scrollable.prev_column(),
            KeyCode::Char('g') => self.scrollable.top_row(),
            KeyCode::Char('G') => self.scrollable.bottom_row(),
            KeyCode::Char('0') => self.scrollable.first_column(),
            KeyCode::Char('$') => self.scrollable.last_column(),
            _ => {},
        }
    }

    /// A broadcast action: a query being run resets both offsets; any
    /// other action changes nothing.
    pub fn update(&mut self, action: &Action)
        requires
            old(self).wf(),
        ensures
            final(self).wf(),
            final(self).data_state == old(self).data_state,
            final(self).scrollable == (if action is Query {
                ScrollTable { x_offset: 0, y_offset: 0, ..old(self).scrollable }
            } else {
                old(self).scrollable
            }),
    {
        if let Action::Query(_, _, _) = action {
            self.scrollable.reset_scroll();
        }
    }

    /// The text shown in place of a grid: the error's description, `no
    /// results`, or nothing.
    pub open spec fn message(state: DataState) -> Seq<char> {
        match state {
            DataState::Error(e) => e@,
            DataState::NoResults => "no results"@,
            _ => Seq::empty(),
        }
    }

    /// Draws the region's content into `area` of `buf`. With results, the
    /// viewport is rendered inside a one-cell frame and its scrollbars are
    /// returned; otherwise the buffer is left alone and the message to show
    /// in place of the grid is returned. The frame itself is drawn by the
    /// caller.
    pub fn draw(&mut self, area: Rect, buf: &mut Buffer) -> (r: DataView)
        requires
            old(self).wf(),
            old(buf).wf(),
            area.wf(),
        ensures
            final(self).wf(),
            final(self).data_state == old(self).data_state,
            final(buf).wf(),
            final(buf).area == old(buf).area,
            old(self).data_state != DataState::HasResults ==> {
                &&& r matches DataView::Message(m) && m@ == Data::message(old(self).data_state)
                &&& final(self).scrollable == old(self).scrollable
                &&& *final(buf) == *old(buf)
            },
            old(self).data_state == DataState::HasResults ==> {
                &&& final(self).scrollable.bordered
                &&& final(self).scrollable.parent_area == area
                &&& final(self).scrollable.content == old(self).scrollable.content
                &&& r == DataView::Grid(final(self).scrollable.spec_scrollbars())
                &&& forall|row: int, c: int|
                    0 <= row < old(buf).area.height && 0 <= c < old(buf).area.width ==> #[trigger] final(buf).at(row, c)
                        == final(self).scrollable.rendered_at(*old(buf), row, c)
            },
    {
        match &self.data_state {
            DataState::HasResults => {
                self.scrollable.block(true);
                let bars = self.scrollable.draw(area, buf);
                DataView::Grid(bars)
            },
            DataState::Error(e) => DataView::Message(e.clone()),
            DataState::NoResults => {
                proof {
                    reveal_strlit("no results");
                }
                DataView::Message("no results".to_owned())
            },
            _ => DataView::Message(String::new()),
        }
    }
}

} // verus!
