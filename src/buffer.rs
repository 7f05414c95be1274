//! Rectangles and grids of styled terminal cells.

use vstd::prelude::*;

verus! {

/// A terminal colour.
#[derive(Clone, Copy, Debug, PartialEq, Eq, Structural)]
pub enum Color {
    Reset,
    Green,
    DarkGray,
    Indexed(u8),
    Rgb(u8, u8, u8),
}

/// One styled terminal cell.
#[derive(Clone, Copy, Debug, PartialEq, Eq, Structural)]
pub struct Cell {
    pub symbol: char,
    pub fg: Color,
    pub bg: Color,
    pub skip: bool,
}

impl Cell {
    pub open spec fn spec_blank() -> Cell {
        Cell { symbol: ' ', fg: Color::Reset, bg: Color::Reset, skip: false }
    }

    /// An empty cell: a space in the default colours.
    pub fn blank() -> (r: Cell)
        ensures
            r == Cell::spec_blank(),
    {
        Cell { symbol: ' ', fg: Color::Reset, bg: Color::Reset, skip: false }
    }
}

/// A rectangle of cells, with its top-left corner at `(x, y)`.
#[derive(Clone, Copy, Debug, PartialEq, Eq, Structural)]
pub struct Rect {
    pub x: u16,
    pub y: u16,
    pub width: u16,
    pub height: u16,
}

pub open spec fn min_int(a: int, b: int) -> int {
    if a < b {
        a
    } else {
        b
    }
}

pub open spec fn max_int(a: int, b: int) -> int {
    if a < b {
        b
    } else {
        a
    }
}

impl Rect {
    /// The rectangle lies within the `u16` coordinate space.
    pub open spec fn wf(self) -> bool {
        &&& self.x + self.width <= u16::MAX
        &&& self.y + self.height <= u16::MAX
    }

    pub open spec fn right(self) -> int {
        self.x + self.width
    }

    pub open spec fn bottom(self) -> int {
        self.y + self.height
    }

    pub open spec fn spec_is_empty(self) -> bool {
        self.width == 0 || self.height == 0
    }

    pub open spec fn contains(self, px: int, py: int) -> bool {
        self.x <= px < self.right() && self.y <= py < self.bottom()
    }

    pub open spec fn spec_intersection(self, o: Rect) -> Rect {
        let x1 = max_int(self.x as int, o.x as int);
        let y1 = max_int(self.y as int, o.y as int);
        let x2 = min_int(self.right(), o.right());
        let y2 = min_int(self.bottom(), o.bottom());
        Rect {
            x: x1 as u16,
            y: y1 as u16,
            width: (if x2 > x1 { x2 - x1 } else { 0 }) as u16,
            height: (if y2 > y1 { y2 - y1 } else { 0 }) as u16,
        }
    }

    /// The area left inside a one-cell frame; empty when no cell is left.
    pub open spec fn spec_inner(self) -> Rect {
        if self.width < 2 || self.height < 2 {
            Rect { x: self.x, y: self.y, width: 0, height: 0 }
        } else {
            Rect { x: (self.x + 1) as u16, y: (self.y + 1) as u16, width: (self.width - 2) as u16, height: (self.height - 2) as u16 }
        }
    }

    pub open spec fn new_spec(x: u16, y: u16, width: u16, height: u16) -> Rect {
        Rect { x, y, width, height }
    }

    pub fn new(x: u16, y: u16, width: u16, height: u16) -> (r: Rect)
        ensures
            r == Rect::new_spec(x, y, width, height),
    {
        Rect { x, y, width, height }
    }

    pub fn is_empty(&self) -> (r: bool)
        ensures
            r == self.spec_is_empty(),
    {
        self.width == 0 || self.height == 0
    }

    /// The cells that lie in both rectangles.
    pub fn intersection(&self, o: &Rect) -> (r: Rect)
        requires
            self.wf(),
            o.wf(),
        ensures
            r == self.spec_intersection(*o),
            r.wf(),
            r.width <= self.width,
            r.height <= self.height,
            r.width <= o.width,
            r.height <= o.height,
            r.x >= o.x,
            r.y >= o.y,
            r.x >= self.x,
            r.y >= self.y,
            r.width > 0 ==> r.right() <= o.right() && r.right() <= self.right(),
            r.height > 0 ==> r.bottom() <= o.bottom() && r.bottom() <= self.bottom(),
            forall|px: int, py: int| r.contains(px, py) <==> (self.contains(px, py) && o.contains(px, py)),
    {
        let x1 = if self.x < o.x { o.x } else { self.x };
        let y1 = if self.y < o.y { o.y } else { self.y };
        let sr = self.x + self.width;
        let orr = o.x + o.width;
        let sb = self.y + self.height;
        let ob = o.y + o.height;
        let x2 = if sr < orr { sr } else { orr };
        let y2 = if sb < ob { sb } else { ob };
        Rect {
            x: x1,
            y: y1,
            width: if x2 > x1 { x2 - x1 } else { 0 },
            height: if y2 > y1 { y2 - y1 } else { 0 },
        }
    }

    /// The area inside a one-cell frame drawn on this rectangle.
    pub fn inner(&self) -> (r: Rect)
        requires
            self.wf(),
        ensures
            r == self.spec_inner(),
            r.wf(),
            r.width <= self.width,
            r.height <= self.height,
    {
        if self.width < 2 || self.height < 2 {
            Rect { x: self.x, y: self.y, width: 0, height: 0 }
        } else {
            Rect { x: self.x + 1, y: self.y + 1, width: self.width - 2, height: self.height - 2 }
        }
    }
}

/// A grid of cells covering `area`, stored row by row.
pub struct Buffer {
    pub area: Rect,
    pub content: Vec<Vec<Cell>>,
}

impl Buffer {
    /// Holds one row per line of `area` and one cell per column in each row.
    pub open spec fn wf(&self) -> bool {
        &&& self.area.wf()
        &&& self.content@.len() == self.area.height
        &&& forall|r: int| 0 <= r < self.content@.len() ==> #[trigger] self.content@[r]@.len() == self.area.width
    }

    /// The cell in row `r` and column `c`, counted from the top-left corner.
    pub open spec fn at(&self, r: int, c: int) -> Cell {
        self.content@[r]@[c]
    }

    /// The cell at absolute position `(px, py)`.
    pub open spec fn cell(&self, px: int, py: int) -> Cell {
        self.at(py - self.area.y, px - self.area.x)
    }

    /// A buffer of blank cells covering `area`.
    pub fn empty(area: Rect) -> (r: Buffer)
        requires
            area.wf(),
        ensures
            r.wf(),
            r.area == area,
            forall|i: int, j: int| 0 <= i < area.height && 0 <= j < area.width ==> #[trigger] r.at(i, j) == Cell::spec_blank(),
    {
        let mut content: Vec<Vec<Cell>> = Vec::new();
        let mut i: u16 = 0;
        while i < area.height
            invariant
                i <= area.height,
                content@.len() == i,
                forall|r: int| 0 <= r < i ==> #[trigger] content@[r]@.len() == area.width,
                forall|r: int, c: int| 0 <= r < i && 0 <= c < area.width ==> #[trigger] content@[r]@[c] == Cell::spec_blank(),
            decreases area.height - i,
        {
            let mut row: Vec<Cell> = Vec::new();
            let mut j: u16 = 0;
            while j < area.width
                invariant
                    j <= area.width,
                    row@.len() == j,
                    forall|c: int| 0 <= c < j ==> #[trigger] row@[c] == Cell::spec_blank(),
                decreases area.width - j,
            {
                row.push(Cell::blank());
                j = j + 1;
            }
            content.push(row);
            i = i + 1;
        }
        Buffer { area, content }
    }

    /// The cell at absolute position `(px, py)`.
    pub fn get(&self, px: u16, py: u16) -> (r: Cell)
        requires
            self.wf(),
            self.area.contains(px as int, py as int),
        ensures
            r == self.cell(px as int, py as int),
    {
        let r = (py - self.area.y) as usize;
        let c = (px - self.area.x) as usize;
        assert(self.content@[r as int]@.len() == self.area.width);
        self.content[r][c]
    }
}

} // verus!
