//! The terminal side: rectangles of cells, and the cell buffer of `ratatui`
//! as the widgets write to it.
use vstd::prelude::*;

verus! {

/// The cell buffer of `ratatui`. The contracts speak of its cells through
/// `buffer_cells`.
#[verifier::external_type_specification]
#[verifier::external_body]
pub struct ExBuffer(ratatui::buffer::Buffer);

/// A colour of `ratatui`, carried through as it is.
#[verifier::external_type_specification]
#[verifier::external_body]
pub struct ExColor(ratatui::style::Color);

/// A rectangle of terminal cells: the column and row of its top left cell,
/// and its width and height in cells.
#[derive(Clone, Copy, Debug, PartialEq, Eq, Structural)]
pub struct Rect {
    pub x: u16,
    pub y: u16,
    pub width: u16,
    pub height: u16,
}

impl Rect {
    /// Whether the cell at column `x`, row `y` lies in the rectangle.
    pub open spec fn contains(self, x: int, y: int) -> bool {
        &&& self.x <= x < self.x + self.width
        &&& self.y <= y < self.y + self.height
    }

    /// A rectangle from its top left cell and its size.
    pub fn new(x: u16, y: u16, width: u16, height: u16) -> (rect: Rect)
        ensures
            rect == (Rect { x, y, width, height }),
    {
        Rect { x, y, width, height }
    }
}

/// What the contracts see of one cell of a buffer: its symbol, its
/// foreground colour and its background colour.
pub struct CellView {
    pub symbol: Seq<char>,
    pub fg: ratatui::style::Color,
    pub bg: ratatui::style::Color,
}

/// The cells of a `ratatui::buffer::Buffer`, by column and row. The map is
/// defined on the positions for which the buffer holds a cell.
pub uninterp spec fn buffer_cells(buf: ratatui::buffer::Buffer) -> Map<(u16, u16), CellView>;

/// The colour `ratatui::style::Color::Rgb` of the three channels.
pub uninterp spec fn rgb_color(r: u8, g: u8, b: u8) -> ratatui::style::Color;

/// The cells after the cell at `(x, y)`, if there is one, got the one
/// character `glyph` as its symbol and `fg` as its foreground colour.
pub open spec fn with_glyph(
    cells: Map<(u16, u16), CellView>,
    x: u16,
    y: u16,
    glyph: char,
    fg: ratatui::style::Color,
) -> Map<(u16, u16), CellView> {
    if cells.dom().contains((x, y)) {
        cells.insert((x, y), CellView { symbol: seq![glyph], fg, bg: cells[(x, y)].bg })
    } else {
        cells
    }
}

/// Builds `ratatui::style::Color::Rgb(r, g, b)`.
#[verifier::external_body]
pub(crate) fn make_rgb_color(r: u8, g: u8, b: u8) -> (color: ratatui::style::Color)
    ensures
        color == rgb_color(r, g, b),
{
    ratatui::style::Color::Rgb(r, g, b)
}

/// Calls `ratatui::buffer::Buffer::cell_mut` for the position `(x, y)` and,
/// on the cell that it hands out, `Cell::set_fg` and `Cell::set_char`.
///
/// The contract claims what the three show: where the buffer holds a cell at
/// the position, that cell's symbol becomes the one character and its
/// foreground the colour, its background stays, and no other cell changes;
/// where it holds none, nothing changes.
#[verifier::external_body]
pub(crate) fn put_glyph(
    buf: &mut ratatui::buffer::Buffer,
    x: u16,
    y: u16,
    glyph: char,
    fg: ratatui::style::Color,
)
    ensures
        buffer_cells(*final(buf)) == with_glyph(buffer_cells(*old(buf)), x, y, glyph, fg),
{
    if let Some(cell) = buf.cell_mut((x, y)) {
        cell.set_fg(fg).set_char(glyph);
    }
}

/// A grid of characters and colours as the contracts see it: the position of
/// its first cell, the number of columns and rows that are drawn, and cell by
/// cell, in rows of `stride` cells, the character and the foreground colour.
pub struct GridView {
    pub x: int,
    pub y: int,
    pub columns: nat,
    pub rows: nat,
    pub stride: nat,
    pub glyphs: Seq<char>,
    pub colors: Seq<ratatui::style::Color>,
}

impl GridView {
    /// Whether every cell that is drawn has a character and a colour.
    pub open spec fn wf(self) -> bool {
        &&& self.columns <= self.stride
        &&& self.glyphs.len() == self.colors.len()
        &&& self.stride * self.rows <= self.glyphs.len()
    }

    /// Whether the grid draws the cell at `position`.
    pub open spec fn covers(self, position: (u16, u16)) -> bool {
        &&& self.x <= position.0 < self.x + self.columns
        &&& self.y <= position.1 < self.y + self.rows
    }

    /// Whether the grid draws the cell at `position` within its first
    /// `done_rows` rows or the first `done_columns` cells of the next row.
    pub open spec fn covers_so_far(
        self,
        position: (u16, u16),
        done_rows: nat,
        done_columns: nat,
    ) -> bool {
        &&& self.covers(position)
        &&& (position.1 - self.y < done_rows || (position.1 - self.y == done_rows && position.0
            - self.x < done_columns))
    }

    /// The place in `glyphs` and `colors` of what is drawn at `position`.
    pub open spec fn index_of(self, position: (u16, u16)) -> int {
        (position.0 - self.x) + self.stride * (position.1 - self.y)
    }

    /// The cell that the grid makes of the cell `before` at `position`.
    pub open spec fn cell_at(self, position: (u16, u16), before: CellView) -> CellView {
        CellView {
            symbol: seq![self.glyphs[self.index_of(position)]],
            fg: self.colors[self.index_of(position)],
            bg: before.bg,
        }
    }
}

/// The cells after a grid was drawn over them: every cell that the buffer
/// holds and the grid covers shows the grid's character and colour and keeps
/// its background; every other cell is as before.
pub open spec fn drawn(cells: Map<(u16, u16), CellView>, grid: GridView) -> Map<
    (u16, u16),
    CellView,
> {
    Map::new(
        |position: (u16, u16)| cells.dom().contains(position),
        |position: (u16, u16)|
            if grid.covers(position) {
                grid.cell_at(position, cells[position])
            } else {
                cells[position]
            },
    )
}

/// The cells after the first `done_rows` rows of a grid, and the first
/// `done_columns` cells of the next row, were drawn over them.
pub open spec fn drawn_so_far(
    cells: Map<(u16, u16), CellView>,
    grid: GridView,
    done_rows: nat,
    done_columns: nat,
) -> Map<(u16, u16), CellView> {
    Map::new(
        |position: (u16, u16)| cells.dom().contains(position),
        |position: (u16, u16)|
            if grid.covers_so_far(position, done_rows, done_columns) {
                grid.cell_at(position, cells[position])
            } else {
                cells[position]
            },
    )
}

/// A grid leaves every cell that it does not cover as it was, and adds or
/// removes no cell.
pub proof fn lemma_drawn_keeps_the_rest(cells: Map<(u16, u16), CellView>, grid: GridView)
    ensures
        drawn(cells, grid).dom() == cells.dom(),
        forall|position: (u16, u16)|
            cells.dom().contains(position) && !grid.covers(position) ==> #[trigger] drawn(
                cells,
                grid,
            )[position] == cells[position],
{
    assert(drawn(cells, grid).dom() =~= cells.dom());
}

/// A grid of characters and colours to draw: the position of its first
/// cell, the number of columns and rows that are drawn, and cell by cell, in
/// rows of `stride` cells, the character and the foreground colour.
pub struct CellGrid {
    pub x: u32,
    pub y: u32,
    pub columns: u32,
    pub rows: u32,
    pub stride: u32,
    pub glyphs: Vec<char>,
    pub colors: Vec<ratatui::style::Color>,
}

impl View for CellGrid {
    type V = GridView;

    open spec fn view(&self) -> GridView {
        GridView {
            x: self.x as int,
            y: self.y as int,
            columns: self.columns as nat,
            rows: self.rows as nat,
            stride: self.stride as nat,
            glyphs: self.glyphs@,
            colors: self.colors@,
        }
    }
}

/// Draws a grid into a buffer: sets character and foreground colour of every
/// cell that the grid covers and the buffer holds.
pub fn draw_grid(buf: &mut ratatui::buffer::Buffer, grid: &CellGrid)
    requires
        grid@.wf(),
    ensures
        buffer_cells(*final(buf)) == drawn(buffer_cells(*old(buf)), grid@),
{
    let ghost before = buffer_cells(*buf);
    let mut row: u32 = 0;
    proof {
        assert(drawn_so_far(before, grid@, 0, 0) =~= before);
    }
    while row < grid.rows
        invariant
            grid@.wf(),
            row <= grid.rows,
            buffer_cells(*buf) == drawn_so_far(before, grid@, row as nat, 0),
        decreases grid.rows - row,
    {
        let mut column: u32 = 0;
        while column < grid.columns
            invariant
                grid@.wf(),
                row < grid.rows,
                column <= grid.columns,
                buffer_cells(*buf) == drawn_so_far(before, grid@, row as nat, column as nat),
            decreases grid.columns - column,
        {
            proof {
                assert(column + grid.stride * row < grid.stride * grid.rows) by (nonlinear_arith)
                    requires
                        column < grid.stride,
                        row < grid.rows,
                ;
                assert(0 <= grid.stride * row) by (nonlinear_arith);
            }
            let len: usize = grid.glyphs.len();
            let index: usize = (column as usize) + (grid.stride as usize) * (row as usize);
            let x: u64 = (grid.x as u64) + (column as u64);
            let y: u64 = (grid.y as u64) + (row as u64);
            let ghost so_far = buffer_cells(*buf);
            if x <= 0xffff && y <= 0xffff {
                let glyph: char = grid.glyphs[index];
                let color = grid.colors[index];
                put_glyph(buf, x as u16, y as u16, glyph, color);
                proof {
                    let position = (x as u16, y as u16);
                    assert(grid@.index_of(position) == index);
                    assert(!grid@.covers_so_far(position, row as nat, column as nat));
                    assert(buffer_cells(*buf) =~= drawn_so_far(
                        before,
                        grid@,
                        row as nat,
                        (column + 1) as nat,
                    ));
                }
            } else {
                proof {
                    assert(so_far =~= drawn_so_far(
                        before,
                        grid@,
                        row as nat,
                        (column + 1) as nat,
                    ));
                }
            }
            column += 1;
        }
        proof {
            assert(buffer_cells(*buf) =~= drawn_so_far(before, grid@, (row + 1) as nat, 0));
        }
        row += 1;
    }
    proof {
        assert(buffer_cells(*buf) =~= drawn(before, grid@));
    }
}

} // verus!
