//! The viewport engine: a virtual content buffer larger than the screen,
//! clipped through a pair of scroll offsets into the area it is drawn in.

use vstd::prelude::*;
use crate::buffer::{Buffer, Cell, Rect, max_int, min_int};

verus! {

/// One step of scrolling.
#[derive(Clone, Copy, Debug, PartialEq, Eq, Structural)]
pub enum ScrollDirection {
    Left,
    Right,
    Up,
    Down,
}

/// How far the content can be scrolled on each axis.
#[derive(Clone, Copy, Debug, PartialEq, Eq, Structural)]
pub struct MaxOffsets {
    pub max_x_offset: u16,
    pub max_y_offset: u16,
}

/// What a scrollbar shows: a track of `content_length` and a thumb at `position`.
#[derive(Clone, Copy, Debug, PartialEq, Eq, Structural)]
pub struct ScrollbarState {
    pub content_length: u16,
    pub position: u16,
}

/// The scrollbars to draw; an axis with nothing to scroll has none.
#[derive(Clone, Copy, Debug, PartialEq, Eq, Structural)]
pub struct Scrollbars {
    pub vertical: Option<ScrollbarState>,
    pub horizontal: Option<ScrollbarState>,
}

/// How far content of length `content` can be shifted in a view of length `view`.
pub open spec fn max_offset(content: int, view: int) -> int {
    if content > view {
        content - view
    } else {
        0
    }
}

/// The bounds of the offsets for content of the given size drawn in `render_area`.
pub open spec fn spec_max_offsets(content_width: u16, content_height: u16, render_area: Rect) -> MaxOffsets {
    if render_area.spec_is_empty() {
        MaxOffsets { max_x_offset: 0, max_y_offset: 0 }
    } else {
        MaxOffsets {
            max_x_offset: max_offset(content_width as int, render_area.width as int) as u16,
            max_y_offset: max_offset(content_height as int, render_area.height as int) as u16,
        }
    }
}

/// The bounds of the offsets for content of the given size drawn in `render_area`.
pub fn get_max_offsets(content_width: u16, content_height: u16, render_area: &Rect) -> (r: MaxOffsets)
    ensures
        r == spec_max_offsets(content_width, content_height, *render_area),
{
    if render_area.is_empty() {
        return MaxOffsets { max_x_offset: 0, max_y_offset: 0 };
    }
    MaxOffsets {
        max_x_offset: content_width.saturating_sub(render_area.width),
        max_y_offset: content_height.saturating_sub(render_area.height),
    }
}

/// The scrollable viewport over a virtual content buffer.
pub struct ScrollTable {
    pub content: Buffer,
    pub parent_area: Rect,
    pub bordered: bool,
    pub column_width: u16,
    pub x_offset: u16,
    pub y_offset: u16,
    pub max_offsets: MaxOffsets,
}

impl ScrollTable {
    pub open spec fn content_width(&self) -> u16 {
        self.content.area.width
    }

    pub open spec fn content_height(&self) -> u16 {
        self.content.area.height
    }

    /// The part of the parent area left for content once the frame is drawn.
    pub open spec fn render_area(&self) -> Rect {
        if self.bordered {
            self.parent_area.spec_inner()
        } else {
            self.parent_area
        }
    }

    /// The offsets stay within the bounds that the content and the area give.
    pub open spec fn wf(&self) -> bool {
        &&& self.content.wf()
        &&& self.parent_area.wf()
        &&& self.max_offsets == spec_max_offsets(self.content_width(), self.content_height(), self.render_area())
        &&& self.x_offset <= self.max_offsets.max_x_offset
        &&& self.y_offset <= self.max_offsets.max_y_offset
    }

    /// The state after one scroll step: one cell, clamped to the bounds.
    pub open spec fn scrolled(self, d: ScrollDirection) -> ScrollTable {
        match d {
            ScrollDirection::Left => ScrollTable {
                x_offset: if self.x_offset == 0 { 0 } else { (self.x_offset - 1) as u16 },
                ..self
            },
            ScrollDirection::Right => ScrollTable {
                x_offset: min_int(self.x_offset + 1, self.max_offsets.max_x_offset as int) as u16,
                ..self
            },
            ScrollDirection::Up => ScrollTable {
                y_offset: if self.y_offset == 0 { 0 } else { (self.y_offset - 1) as u16 },
                ..self
            },
            ScrollDirection::Down => ScrollTable {
                y_offset: min_int(self.y_offset + 1, self.max_offsets.max_y_offset as int) as u16,
                ..self
            },
        }
    }

    /// The state after a sequence of scroll steps.
    pub open spec fn scrolled_all(self, ds: Seq<ScrollDirection>) -> ScrollTable
        decreases ds.len(),
    {
        if ds.len() == 0 {
            self
        } else {
            self.scrolled(ds[0]).scrolled_all(ds.drop_first())
        }
    }

    /// Whether `d` is blocked by the bound it moves towards.
    pub open spec fn at_bound(self, d: ScrollDirection) -> bool {
        match d {
            ScrollDirection::Left => self.x_offset == 0,
            ScrollDirection::Right => self.x_offset == self.max_offsets.max_x_offset,
            ScrollDirection::Up => self.y_offset == 0,
            ScrollDirection::Down => self.y_offset == self.max_offsets.max_y_offset,
        }
    }

    /// The scrollbars: one per axis whose bound is above zero.
    pub open spec fn spec_scrollbars(&self) -> Scrollbars {
        Scrollbars {
            vertical: if self.max_offsets.max_y_offset > 0 {
                Some(ScrollbarState { content_length: self.max_offsets.max_y_offset, position: self.y_offset })
            } else {
                None
            },
            horizontal: if self.max_offsets.max_x_offset > 0 {
                Some(ScrollbarState { content_length: self.max_offsets.max_x_offset, position: self.x_offset })
            } else {
                None
            },
        }
    }

    /// An empty viewport: no content, no area, both offsets at zero.
    pub fn new() -> (r: ScrollTable)
        ensures
            r.wf(),
            r.content_width() == 0,
            r.content_height() == 0,
            r.x_offset == 0,
            r.y_offset == 0,
            r.bordered == false,
            r.column_width == 1,
            r.parent_area == Rect::new_spec(0, 0, 0, 0),
            r.max_offsets == (MaxOffsets { max_x_offset: 0, max_y_offset: 0 }),
    {
        let area = Rect::new(0, 0, 0, 0);
        ScrollTable {
            content: Buffer::empty(area),
            parent_area: area,
            bordered: false,
            column_width: 1,
            x_offset: 0,
            y_offset: 0,
            max_offsets: MaxOffsets { max_x_offset: 0, max_y_offset: 0 },
        }
    }

    /// Replaces the virtual content, with columns `column_width` cells wide,
    /// and resets both offsets to zero.
    pub fn set_content(&mut self, content: Buffer, column_width: u16)
        requires
            old(self).wf(),
            content.wf(),
            column_width > 0,
        ensures
            final(self).wf(),
            final(self).content == content,
            final(self).column_width == column_width,
            final(self).parent_area == old(self).parent_area,
            final(self).bordered == old(self).bordered,
            final(self).x_offset == 0,
            final(self).y_offset == 0,
    {
        self.content = content;
        self.column_width = column_width;
        self.x_offset = 0;
        self.y_offset = 0;
        self.update_max_offsets();
    }

    /// Recomputes the bounds and clamps both offsets to them.
    fn update_max_offsets(&mut self)
        requires
            old(self).content.wf(),
            old(self).parent_area.wf(),
        ensures
            final(self).wf(),
            final(self).content == old(self).content,
            final(self).column_width == old(self).column_width,
            final(self).parent_area == old(self).parent_area,
            final(self).bordered == old(self).bordered,
            final(self).x_offset == min_int(old(self).x_offset as int, final(self).max_offsets.max_x_offset as int),
            final(self).y_offset == min_int(old(self).y_offset as int, final(self).max_offsets.max_y_offset as int),
    {
        let ra = self.get_render_area();
        let m = get_max_offsets(self.content.area.width, self.content.area.height, &ra);
        self.max_offsets = m;
        if self.x_offset > m.max_x_offset {
            self.x_offset = m.max_x_offset;
        }
        if self.y_offset > m.max_y_offset {
            self.y_offset = m.max_y_offset;
        }
    }

    fn get_render_area(&self) -> (r: Rect)
        requires
            self.parent_area.wf(),
        ensures
            r == self.render_area(),
            r.wf(),
    {
        if self.bordered {
            self.parent_area.inner()
        } else {
            self.parent_area
        }
    }

    /// Sets the area the viewport is drawn in; offsets beyond the new bounds
    /// are clamped to them.
    pub fn set_parent_area(&mut self, area: Rect)
        requires
            old(self).wf(),
            area.wf(),
        ensures
            final(self).wf(),
            final(self).parent_area == area,
            final(self).content == old(self).content,
            final(self).bordered == old(self).bordered,
            final(self).column_width == old(self).column_width,
            final(self).x_offset == min_int(old(self).x_offset as int, final(self).max_offsets.max_x_offset as int),
            final(self).y_offset == min_int(old(self).y_offset as int, final(self).max_offsets.max_y_offset as int),
    {
        self.parent_area = area;
        self.update_max_offsets();
    }

    /// Draws a one-cell frame around the content, or none; offsets beyond the
    /// new bounds are clamped to them.
    pub fn block(&mut self, bordered: bool)
        requires
            old(self).wf(),
        ensures
            final(self).wf(),
            final(self).bordered == bordered,
            final(self).parent_area == old(self).parent_area,
            final(self).content == old(self).content,
            final(self).column_width == old(self).column_width,
            final(self).x_offset == min_int(old(self).x_offset as int, final(self).max_offsets.max_x_offset as int),
            final(self).y_offset == min_int(old(self).y_offset as int, final(self).max_offsets.max_y_offset as int),
    {
        self.bordered = bordered;
        self.update_max_offsets();
    }

    /// Moves one cell in `direction`, clamped to `[0, max_offset]`.
    pub fn scroll(&mut self, direction: ScrollDirection)
        requires
            old(self).wf(),
        ensures
            *final(self) == old(self).scrolled(direction),
            final(self).wf(),
            old(self).at_bound(direction) ==> *final(self) == *old(self),
    {
        match direction {
            ScrollDirection::Left => self.x_offset = self.x_offset.saturating_sub(1),
            ScrollDirection::Right => {
                let n = self.x_offset.saturating_add(1);
                self.x_offset = if n < self.max_offsets.max_x_offset { n } else { self.max_offsets.max_x_offset };
            },
            ScrollDirection::Up => self.y_offset = self.y_offset.saturating_sub(1),
            ScrollDirection::Down => {
                let n = self.y_offset.saturating_add(1);
                self.y_offset = if n < self.max_offsets.max_y_offset { n } else { self.max_offsets.max_y_offset };
            },
        }
    }

    /// Sets both offsets back to zero.
    pub fn reset_scroll(&mut self)
        requires
            old(self).wf(),
        ensures
            *final(self) == (ScrollTable { x_offset: 0, y_offset: 0, ..*old(self) }),
            final(self).wf(),
    {
        self.x_offset = 0;
        self.y_offset = 0;
    }

    /// Moves right to the start of the next column, clamped to the bound.
    pub fn next_column(&mut self)
        requires
            old(self).wf(),
            old(self).column_width > 0,
        ensures
            *final(self) == (ScrollTable {
                x_offset: min_int(
                    (old(self).x_offset / old(self).column_width + 1) * old(self).column_width,
                    old(self).max_offsets.max_x_offset as int,
                ) as u16,
                ..*old(self)
            }),
            final(self).wf(),
    {
        let w = self.column_width as u32;
        let x = self.x_offset as u32;
        proof {
            assert((x / w + 1) * w <= x + w) by (nonlinear_arith)
                requires
                    w > 0,
            ;
        }
        let next = (x / w + 1) * w;
        let m = self.max_offsets.max_x_offset;
        self.x_offset = if next < m as u32 { next as u16 } else { m };
    }

    /// Moves left to the start of the current column, or of the previous one
    /// when already at a column start.
    pub fn prev_column(&mut self)
        requires
            old(self).wf(),
            old(self).column_width > 0,
        ensures
            *final(self) == (ScrollTable {
                x_offset: (if old(self).x_offset % old(self).column_width == 0 {
                    if old(self).x_offset >= old(self).column_width {
                        old(self).x_offset - old(self).column_width
                    } else {
                        0
                    }
                } else {
                    old(self).x_offset - old(self).x_offset % old(self).column_width
                }) as u16,
                ..*old(self)
            }),
            final(self).wf(),
    {
        let w = self.column_width;
        let x = self.x_offset;
        let rem = x % w;
        proof {
            assert(x % w <= x) by (nonlinear_arith)
                requires
                    w > 0,
            ;
        }
        self.x_offset = if rem == 0 { x.saturating_sub(w) } else { x - rem };
    }

    /// Jumps to the first row.
    pub fn top_row(&mut self)
        requires
            old(self).wf(),
        ensures
            *final(self) == (ScrollTable { y_offset: 0, ..*old(self) }),
            final(self).wf(),
    {
        self.y_offset = 0;
    }

    /// Jumps to the last rows, as far down as the bound allows.
    pub fn bottom_row(&mut self)
        requires
            old(self).wf(),
        ensures
            *final(self) == (ScrollTable { y_offset: old(self).max_offsets.max_y_offset, ..*old(self) }),
            final(self).wf(),
    {
        self.y_offset = self.max_offsets.max_y_offset;
    }

    /// Jumps to the first column.
    pub fn first_column(&mut self)
        requires
            old(self).wf(),
        ensures
            *final(self) == (ScrollTable { x_offset: 0, ..*old(self) }),
            final(self).wf(),
    {
        self.x_offset = 0;
    }

    /// Jumps to the last columns, as far right as the bound allows.
    pub fn last_column(&mut self)
        requires
            old(self).wf(),
        ensures
            *final(self) == (ScrollTable { x_offset: old(self).max_offsets.max_x_offset, ..*old(self) }),
            final(self).wf(),
    {
        self.x_offset = self.max_offsets.max_x_offset;
    }

    /// The part of `buf_area` that content is copied into.
    pub open spec fn draw_area(&self, buf_area: Rect) -> Rect {
        self.render_area().spec_intersection(buf_area)
    }

    /// Whether the cell at `(px, py)` of a buffer over `buf_area` shows content:
    /// it lies in the draw area and within the content's width and height.
    pub open spec fn shows(&self, buf_area: Rect, px: int, py: int) -> bool {
        let a = self.draw_area(buf_area);
        &&& !self.render_area().spec_is_empty()
        &&& a.x <= px < a.x + min_int(a.width as int, self.content_width() as int)
        &&& a.y <= py < a.y + min_int(a.height as int, self.content_height() as int)
    }

    /// The content cell shown at `(px, py)`: the physical position, shifted by
    /// the offsets, relative to the draw area's corner.
    pub open spec fn source(&self, buf_area: Rect, px: int, py: int) -> Cell {
        let a = self.draw_area(buf_area);
        self.content.at(py - a.y + self.y_offset, px - a.x + self.x_offset)
    }

    /// The cell in row `r` and column `c` of `buf` once this viewport is rendered into it.
    pub open spec fn rendered_at(&self, buf: Buffer, r: int, c: int) -> Cell {
        self.rendered_cell(buf.area, buf.at(r, c), buf.area.x + c, buf.area.y + r)
    }

    /// The cell at `(px, py)` of a buffer over `buf_area` once this viewport
    /// is rendered into it, where the cell was `old`: content inside the
    /// visible window, blank elsewhere in the draw area, `old` outside it.
    pub open spec fn rendered_cell(&self, buf_area: Rect, old: Cell, px: int, py: int) -> Cell {
        if self.shows(buf_area, px, py) {
            self.source(buf_area, px, py)
        } else if !self.render_area().spec_is_empty() && self.draw_area(buf_area).contains(px, py) {
            Cell::spec_blank()
        } else {
            old
        }
    }

    /// Copies the visible window of the content into `buf` and blanks the
    /// rest of the draw area that the content does not reach; every cell of
    /// `buf` outside the draw area keeps its value. Does nothing when no area
    /// is left for content.
    pub fn render(&self, buf: &mut Buffer)
        requires
            self.wf(),
            old(buf).wf(),
        ensures
            final(buf).wf(),
            final(buf).area == old(buf).area,
            forall|r: int, c: int|
                0 <= r < old(buf).area.height && 0 <= c < old(buf).area.width ==> #[trigger] final(buf).at(r, c)
                    == self.rendered_at(*old(buf), r, c),
    {
        let ghost old_buf = *buf;
        let ra = self.get_render_area();
        if ra.is_empty() {
            return;
        }
        let a = ra.intersection(&buf.area);
        let cw = self.content.area.width;
        let ch = self.content.area.height;
        let max_x = a.x + if a.width < cw { a.width } else { cw };
        let max_y = a.y + if a.height < ch { a.height } else { ch };
        let end_x = a.x + a.width;
        let end_y = a.y + a.height;
        let bx = buf.area.x;
        let by = buf.area.y;
        let bw = buf.area.width;
        let mut y = a.y;
        while y < end_y
            invariant
                self.wf(),
                buf.wf(),
                buf.area == old_buf.area,
                old_buf.wf(),
                ra == self.render_area(),
                !ra.spec_is_empty(),
                a == self.draw_area(old_buf.area),
                a.width <= ra.width,
                a.height <= ra.height,
                a.x >= bx,
                a.y >= by,
                a.width > 0 ==> a.x + a.width <= bx + bw,
                a.height > 0 ==> a.y + a.height <= by + buf.area.height,
                bx == old_buf.area.x,
                by == old_buf.area.y,
                bw == old_buf.area.width,
                cw == self.content_width(),
                ch == self.content_height(),
                max_x == a.x + min_int(a.width as int, cw as int),
                max_y == a.y + min_int(a.height as int, ch as int),
                end_x == a.x + a.width,
                end_y == a.y + a.height,
                a.y <= y <= end_y,
                forall|r: int, c: int|
                    0 <= r < old_buf.area.height && 0 <= c < old_buf.area.width ==> #[trigger] buf.at(r, c)
                        == if by + r < y { self.rendered_at(old_buf, r, c) } else { old_buf.at(r, c) },
            decreases end_y - y,
        {
            let r = (y - by) as usize;
            assert(buf.content@[r as int]@.len() == bw);
            let mut row: Vec<Cell> = Vec::new();
            let mut c: usize = 0;
            while c < bw as usize
                invariant
                    self.wf(),
                    buf.wf(),
                    buf.area == old_buf.area,
                    old_buf.wf(),
                    ra == self.render_area(),
                    !ra.spec_is_empty(),
                    a == self.draw_area(old_buf.area),
                    a.width <= ra.width,
                    a.height <= ra.height,
                    a.x >= bx,
                    a.width > 0 ==> a.x + a.width <= bx + bw,
                    bx == old_buf.area.x,
                    by == old_buf.area.y,
                    bw == old_buf.area.width,
                    cw == self.content_width(),
                    ch == self.content_height(),
                    max_x == a.x + min_int(a.width as int, cw as int),
                    max_y == a.y + min_int(a.height as int, ch as int),
                    end_x == a.x + a.width,
                    end_y == a.y + a.height,
                    a.y <= y < end_y,
                    r == y - by,
                    r < old_buf.area.height,
                    buf.content@[r as int]@.len() == bw,
                    forall|k: int| 0 <= k < bw ==> #[trigger] buf.at(r as int, k) == old_buf.at(r as int, k),
                    c <= bw,
                    row@.len() == c,
                    forall|k: int| 0 <= k < c ==> #[trigger] row@[k] == self.rendered_at(old_buf, r as int, k),
                decreases bw - c,
            {
                let px = bx + c as u16;
                let cell = if a.x <= px && px < max_x && y < max_y {
                    let cy = (y - a.y + self.y_offset) as usize;
                    let cx = (px - a.x + self.x_offset) as usize;
                    assert(self.shows(old_buf.area, px as int, y as int));
                    assert(self.content.content@[cy as int]@.len() == cw);
                    self.content.content[cy][cx]
                } else if a.x <= px && px < end_x {
                    assert(!self.shows(old_buf.area, px as int, y as int));
                    Cell::blank()
                } else {
                    assert(buf.at(r as int, c as int) == old_buf.at(r as int, c as int));
                    assert(!self.shows(old_buf.area, px as int, y as int));
                    buf.content[r][c]
                };
                assert(cell == self.rendered_at(old_buf, r as int, c as int));
                row.push(cell);
                c = c + 1;
            }
            let ghost pre = *buf;
            buf.content.set(r, row);
            assert forall|r2: int, c2: int|
                0 <= r2 < old_buf.area.height && 0 <= c2 < old_buf.area.width implies #[trigger] buf.at(r2, c2)
                    == if by + r2 < y + 1 { self.rendered_at(old_buf, r2, c2) } else { old_buf.at(r2, c2) } by {
                if r2 == r as int {
                    assert(buf.at(r2, c2) == row@[c2]);
                } else {
                    assert(buf.at(r2, c2) == pre.at(r2, c2));
                }
            }
            y = y + 1;
        }
        assert forall|r2: int, c2: int|
            0 <= r2 < old_buf.area.height && 0 <= c2 < old_buf.area.width implies #[trigger] buf.at(r2, c2)
                == self.rendered_at(old_buf, r2, c2) by {
            if by + r2 >= y {
                assert(!self.draw_area(old_buf.area).contains(bx + c2, by + r2));
            }
        }
    }

    /// Draws the viewport into `area` of `buf`: records the area (clamping
    /// the offsets to its bounds), copies the visible window, and returns the
    /// scrollbars to draw.
    pub fn draw(&mut self, area: Rect, buf: &mut Buffer) -> (r: Scrollbars)
        requires
            old(self).wf(),
            old(buf).wf(),
            area.wf(),
        ensures
            final(self).wf(),
            final(self).parent_area == area,
            final(self).content == old(self).content,
            final(self).bordered == old(self).bordered,
            final(self).column_width == old(self).column_width,
            final(self).x_offset == min_int(old(self).x_offset as int, final(self).max_offsets.max_x_offset as int),
            final(self).y_offset == min_int(old(self).y_offset as int, final(self).max_offsets.max_y_offset as int),
            final(buf).wf(),
            final(buf).area == old(buf).area,
            forall|r: int, c: int|
                0 <= r < old(buf).area.height && 0 <= c < old(buf).area.width ==> #[trigger] final(buf).at(r, c)
                    == final(self).rendered_at(*old(buf), r, c),
            r == final(self).spec_scrollbars(),
    {
        self.set_parent_area(area);
        self.render(buf);
        self.scrollbars()
    }

    /// The scrollbars for the current state: one per axis that can scroll,
    /// its thumb at the offset and its track as long as the bound.
    pub fn scrollbars(&self) -> (r: Scrollbars)
        ensures
            r == self.spec_scrollbars(),
            r.vertical == (if self.max_offsets.max_y_offset > 0 {
                Some(ScrollbarState { content_length: self.max_offsets.max_y_offset, position: self.y_offset })
            } else {
                None
            }),
            r.horizontal == (if self.max_offsets.max_x_offset > 0 {
                Some(ScrollbarState { content_length: self.max_offsets.max_x_offset, position: self.x_offset })
            } else {
                None
            }),
    {
        let vertical = if self.max_offsets.max_y_offset > 0 {
            Some(ScrollbarState { content_length: self.max_offsets.max_y_offset, position: self.y_offset })
        } else {
            None
        };
        let horizontal = if self.max_offsets.max_x_offset > 0 {
            Some(ScrollbarState { content_length: self.max_offsets.max_x_offset, position: self.x_offset })
        } else {
            None
        };
        Scrollbars { vertical, horizontal }
    }
}

} // verus!

verus! {

/// After any sequence of scroll steps, each offset lies between zero and the
/// content's length less the view's length on its axis (zero where the
/// content fits): repeated scrolling past either end clamps.
pub proof fn lemma_scrolling_stays_in_bounds(t: ScrollTable, ds: Seq<ScrollDirection>)
    requires
        t.wf(),
    ensures
        t.scrolled_all(ds).wf(),
        t.scrolled_all(ds).max_offsets == t.max_offsets,
        0 <= t.scrolled_all(ds).x_offset <= max_offset(t.content_width() as int, t.render_area().width as int),
        0 <= t.scrolled_all(ds).y_offset <= max_offset(t.content_height() as int, t.render_area().height as int),
    decreases ds.len(),
{
    if ds.len() > 0 {
        lemma_scrolling_stays_in_bounds(t.scrolled(ds[0]), ds.drop_first());
    }
}

/// `n` steps in direction `d`.
pub open spec fn repeated(d: ScrollDirection, n: nat) -> Seq<ScrollDirection> {
    Seq::new(n, |i: int| d)
}

/// `n` steps in one direction move the offset `n` cells, stopping at the
/// bound: `min(offset + n, max)` forwards, `max(offset - n, 0)` backwards.
pub proof fn lemma_repeated_scroll(t: ScrollTable, d: ScrollDirection, n: nat)
    requires
        t.wf(),
    ensures
        ({
            let u = t.scrolled_all(repeated(d, n));
            match d {
                ScrollDirection::Down => u.y_offset == min_int(t.y_offset + n, t.max_offsets.max_y_offset as int)
                    && u.x_offset == t.x_offset,
                ScrollDirection::Up => u.y_offset == max_int(t.y_offset - n, 0) && u.x_offset == t.x_offset,
                ScrollDirection::Right => u.x_offset == min_int(t.x_offset + n, t.max_offsets.max_x_offset as int)
                    && u.y_offset == t.y_offset,
                ScrollDirection::Left => u.x_offset == max_int(t.x_offset - n, 0) && u.y_offset == t.y_offset,
            }
        }),
    decreases n,
{
    if n == 0 {
        assert(repeated(d, 0) =~= Seq::<ScrollDirection>::empty());
    } else {
        assert(repeated(d, n).drop_first() =~= repeated(d, (n - 1) as nat));
        assert(repeated(d, n)[0] == d);
        lemma_repeated_scroll(t.scrolled(d), d, (n - 1) as nat);
    }
}

/// Scrolling towards a bound that the offset has already reached leaves the
/// viewport unchanged.
pub proof fn lemma_scroll_at_bound_is_noop(t: ScrollTable, d: ScrollDirection)
    requires
        t.wf(),
        t.at_bound(d),
    ensures
        t.scrolled(d) == t,
{
}

/// Rendering right after the content was set, with both offsets at zero,
/// reproduces the content's top-left corner: the cell `j` columns right of
/// and `i` rows below the draw area's corner is the content cell at `(i, j)`,
/// for every cell of the area that the content covers.
pub proof fn lemma_fresh_content_renders_top_left(t: ScrollTable, buf: Buffer, i: int, j: int)
    requires
        t.wf(),
        buf.wf(),
        t.x_offset == 0,
        t.y_offset == 0,
        !t.render_area().spec_is_empty(),
        0 <= i < min_int(t.draw_area(buf.area).height as int, t.content_height() as int),
        0 <= j < min_int(t.draw_area(buf.area).width as int, t.content_width() as int),
    ensures
        ({
            let a = t.draw_area(buf.area);
            t.rendered_at(buf, a.y - buf.area.y + i, a.x - buf.area.x + j) == t.content.at(i, j)
        }),
{
}

} // verus!

verus! {

/// Whether the cell in row `r`, column `c` of `b` shows a symbol other than a space.
pub open spec fn used_cell(b: Buffer, r: int, c: int) -> bool {
    b.at(r, c).symbol != ' '
}

/// `w` columns and `h` rows hold every used cell of `b`, and no fewer would:
/// the last column and the last row each hold a used cell.
pub open spec fn is_used_extent(b: Buffer, w: int, h: int) -> bool {
    &&& 0 <= w <= b.area.width
    &&& 0 <= h <= b.area.height
    &&& forall|r: int, c: int|
        0 <= r < b.area.height && 0 <= c < b.area.width && #[trigger] used_cell(b, r, c) ==> r < h && c < w
    &&& w > 0 ==> exists|r: int| 0 <= r < b.area.height && #[trigger] used_cell(b, r, w - 1)
    &&& h > 0 ==> exists|c: int| 0 <= c < b.area.width && #[trigger] used_cell(b, h - 1, c)
}

/// The top-left part of `b` that holds all of its non-blank symbols, as a
/// buffer with its corner at the origin.
pub fn clamp(b: &Buffer) -> (r: Buffer)
    requires
        b.wf(),
    ensures
        r.wf(),
        r.area.x == 0,
        r.area.y == 0,
        is_used_extent(*b, r.area.width as int, r.area.height as int),
        forall|i: int, j: int| 0 <= i < r.area.height && 0 <= j < r.area.width ==> #[trigger] r.at(i, j) == b.at(i, j),
{
    let height = b.area.height;
    let width = b.area.width;
    let mut used_height: u16 = 0;
    let mut used_width: u16 = 0;
    let mut y: u16 = 0;
    while y < height
        invariant
            b.wf(),
            height == b.area.height,
            width == b.area.width,
            y <= height,
            used_height <= y,
            used_width <= width,
            forall|r: int, c: int| 0 <= r < y && 0 <= c < width && #[trigger] used_cell(*b, r, c) ==> r < used_height && c < used_width,
            used_width > 0 ==> exists|r: int| 0 <= r < height && #[trigger] used_cell(*b, r, used_width - 1),
            used_height > 0 ==> exists|c: int| 0 <= c < width && #[trigger] used_cell(*b, used_height - 1, c),
        decreases height - y,
    {
        let row = &b.content[y as usize];
        assert(row@.len() == width);
        let mut x: u16 = 0;
        while x < width
            invariant
                b.wf(),
                height == b.area.height,
                width == b.area.width,
                y < height,
                row@ == b.content@[y as int]@,
                row@.len() == width,
                x <= width,
                used_height <= y + 1,
                used_width <= width,
                forall|r: int, c: int| 0 <= r < y && 0 <= c < width && #[trigger] used_cell(*b, r, c) ==> r < used_height && c < used_width,
                forall|c: int| 0 <= c < x && #[trigger] used_cell(*b, y as int, c) ==> y < used_height && c < used_width,
                used_width > 0 ==> exists|r: int| 0 <= r < height && #[trigger] used_cell(*b, r, used_width - 1),
                used_height > 0 ==> exists|c: int| 0 <= c < width && #[trigger] used_cell(*b, used_height - 1, c),
            decreases width - x,
        {
            if row[x as usize].symbol != ' ' {
                assert(used_cell(*b, y as int, x as int));
                if used_height < y + 1 {
                    used_height = y + 1;
                    assert(used_cell(*b, used_height - 1, x as int));
                }
                if used_width < x + 1 {
                    used_width = x + 1;
                    assert(used_cell(*b, y as int, used_width - 1));
                }
            }
            x = x + 1;
        }
        y = y + 1;
    }
    let mut content: Vec<Vec<Cell>> = Vec::new();
    let mut i: u16 = 0;
    while i < used_height
        invariant
            b.wf(),
            used_height <= b.area.height,
            used_width <= b.area.width,
            i <= used_height,
            forall|r: int| 0 <= r < b.area.height ==> #[trigger] b.content@[r]@.len() == b.area.width,
            content@.len() == i,
            forall|r: int| 0 <= r < i ==> #[trigger] content@[r]@.len() == used_width,
            forall|r: int, c: int| 0 <= r < i && 0 <= c < used_width ==> #[trigger] content@[r]@[c] == b.at(r, c),
        decreases used_height - i,
    {
        let src = &b.content[i as usize];
        assert(src@.len() == b.area.width);
        let mut row: Vec<Cell> = Vec::new();
        let mut j: u16 = 0;
        while j < used_width
            invariant
                b.wf(),
                src@ == b.content@[i as int]@,
                src@.len() == b.area.width,
                used_width <= b.area.width,
                i < used_height,
                j <= used_width,
                row@.len() == j,
                forall|c: int| 0 <= c < j ==> #[trigger] row@[c] == b.at(i as int, c),
            decreases used_width - j,
        {
            row.push(src[j as usize]);
            j = j + 1;
        }
        content.push(row);
        i = i + 1;
    }
    Buffer { area: Rect::new(0, 0, used_width, used_height), content }
}

} // verus!
