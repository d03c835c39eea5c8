//! The screen of the emulated terminal as the renderer reads it: a
//! rectangle of cells, each with a character and a foreground colour, and
//! the place of the cursor.

use vstd::prelude::*;
use crate::palette::NamedColour;

verus! {

/// The largest number of lines, and of columns, that a grid may have, and
/// the bound on the cursor's line and column: one more still fits the
/// signed coordinates of a window.
pub const GRID_LIMIT: usize = 0x7fff_fffe;

/// A colour given by its red, green and blue parts.
#[derive(Clone, Copy, Debug, PartialEq, Eq, Structural)]
pub struct Rgb {
    pub r: u8,
    pub g: u8,
    pub b: u8,
}

/// The foreground colour of a cell, in one of the three ways a terminal
/// states a colour.
#[derive(Clone, Copy, Debug, PartialEq, Eq, Structural)]
pub enum Colour {
    /// One of the colours that a terminal names.
    Named(NamedColour),
    /// A full specification of the colour.
    Spec(Rgb),
    /// A number into the palette of 256 colours.
    Indexed(u8),
}

/// One cell of the grid.
#[derive(Clone, Copy, Debug, PartialEq, Eq, Structural)]
pub struct Cell {
    pub c: char,
    pub fg: Colour,
}

/// A place in the grid, counted from the top left corner.
#[derive(Clone, Copy, Debug, PartialEq, Eq, Structural)]
pub struct Point {
    pub line: usize,
    pub col: usize,
}

/// The cell of a grid that nothing was written to.
pub open spec fn blank_cell() -> Cell {
    Cell { c: ' ', fg: Colour::Named(NamedColour::Foreground) }
}

/// The rows of `rows` all have `cols` cells.
pub open spec fn rectangular(rows: Seq<Vec<Cell>>, cols: int) -> bool {
    forall|i: int| 0 <= i < rows.len() ==> (#[trigger] rows[i]).len() == cols
}

/// The number of columns of a grid with these rows: the length of the first.
pub open spec fn width_of(rows: Seq<Vec<Cell>>) -> int {
    if rows.len() == 0 {
        0
    } else {
        rows[0].len() as int
    }
}

/// The rows and the cursor can make a grid: the rows are equally long, and
/// lines, columns and cursor lie within the limit.
pub open spec fn can_make_grid(rows: Seq<Vec<Cell>>, cursor: Point) -> bool {
    &&& rectangular(rows, width_of(rows))
    &&& rows.len() <= GRID_LIMIT
    &&& width_of(rows) <= GRID_LIMIT
    &&& cursor.line < GRID_LIMIT
    &&& cursor.col < GRID_LIMIT
}

/// The grid of cells and the cursor.
#[derive(Clone, Debug, PartialEq, Eq)]
pub struct Grid {
    pub rows: Vec<Vec<Cell>>,
    pub cols: usize,
    pub cursor: Point,
}

impl Grid {
    /// The rows are all `cols` long, and the sizes and the cursor lie
    /// within the limit.
    pub open spec fn wf(&self) -> bool {
        &&& rectangular(self.rows@, self.cols as int)
        &&& self.rows.len() <= GRID_LIMIT
        &&& self.cols <= GRID_LIMIT
        &&& self.cursor.line < GRID_LIMIT
        &&& self.cursor.col < GRID_LIMIT
    }

    /// The number of lines.
    pub open spec fn lines(&self) -> int {
        self.rows.len() as int
    }

    /// The number of columns.
    pub open spec fn columns(&self) -> int {
        self.cols as int
    }

    /// The cell in line `line` and column `col`.
    pub open spec fn at(&self, line: int, col: int) -> Cell
        recommends
            0 <= line < self.lines(),
            0 <= col < self.columns(),
    {
        self.rows[line][col]
    }

    /// A grid of blank cells with the cursor in its top left corner, or
    /// nothing where a size is beyond the limit.
    pub fn new(num_lines: usize, num_cols: usize) -> (grid: Option<Grid>)
        ensures
            grid.is_some() <==> (num_lines <= GRID_LIMIT && num_cols <= GRID_LIMIT),
            grid.is_some() ==> {
                let g = grid.unwrap();
                &&& g.wf()
                &&& g.lines() == num_lines
                &&& g.columns() == num_cols
                &&& g.cursor == (Point { line: 0, col: 0 })
                &&& forall|i: int, j: int|
                    0 <= i < num_lines && 0 <= j < num_cols ==> g.at(i, j) == blank_cell()
            },
    {
        if num_lines > GRID_LIMIT || num_cols > GRID_LIMIT {
            return None;
        }
        let blank = Cell { c: ' ', fg: Colour::Named(NamedColour::Foreground) };
        let mut rows: Vec<Vec<Cell>> = Vec::new();
        let mut i: usize = 0;
        while i < num_lines
            invariant
                i <= num_lines,
                rows.len() == i,
                blank == blank_cell(),
                forall|k: int| 0 <= k < i ==> (#[trigger] rows[k]).len() == num_cols,
                forall|k: int, j: int|
                    0 <= k < i && 0 <= j < num_cols ==> (#[trigger] rows[k][j]) == blank_cell(),
            decreases num_lines - i,
        {
            let mut row: Vec<Cell> = Vec::new();
            let mut j: usize = 0;
            while j < num_cols
                invariant
                    j <= num_cols,
                    row.len() == j,
                    blank == blank_cell(),
                    forall|k: int| 0 <= k < j ==> (#[trigger] row[k]) == blank_cell(),
                decreases num_cols - j,
            {
                row.push(blank);
                j += 1;
            }
            rows.push(row);
            i += 1;
        }
        Some(Grid { rows, cols: num_cols, cursor: Point { line: 0, col: 0 } })
    }

    /// The grid with the given rows and cursor, or nothing where the rows
    /// differ in length or a size or the cursor is beyond the limit.
    pub fn from_rows(rows: Vec<Vec<Cell>>, cursor: Point) -> (grid: Option<Grid>)
        ensures
            grid.is_some() <==> can_make_grid(rows@, cursor),
            grid.is_some() ==> {
                let g = grid.unwrap();
                &&& g.wf()
                &&& g.rows == rows
                &&& g.columns() == width_of(rows@)
                &&& g.cursor == cursor
            },
    {
        let cols: usize = if rows.len() == 0 {
            0
        } else {
            rows[0].len()
        };
        if rows.len() > GRID_LIMIT || cols > GRID_LIMIT || cursor.line >= GRID_LIMIT || cursor.col
            >= GRID_LIMIT {
            return None;
        }
        let mut i: usize = 0;
        while i < rows.len()
            invariant
                i <= rows.len(),
                cols == width_of(rows@),
                forall|k: int| 0 <= k < i ==> (#[trigger] rows[k]).len() == cols,
            decreases rows.len() - i,
        {
            if rows[i].len() != cols {
                return None;
            }
            i += 1;
        }
        Some(Grid { rows, cols, cursor })
    }

    /// The number of lines.
    pub fn num_lines(&self) -> (n: usize)
        ensures
            n == self.lines(),
    {
        self.rows.len()
    }

    /// The number of columns.
    pub fn num_cols(&self) -> (n: usize)
        ensures
            n == self.columns(),
    {
        self.cols
    }

    /// The cell in line `line` and column `col`.
    pub fn cell(&self, line: usize, col: usize) -> (cell: Cell)
        requires
            self.wf(),
            line < self.lines(),
            col < self.columns(),
        ensures
            cell == self.at(line as int, col as int),
    {
        self.rows[line][col]
    }

    /// Replaces the cell in line `line` and column `col`.
    pub fn set_cell(&mut self, line: usize, col: usize, cell: Cell)
        requires
            old(self).wf(),
            line < old(self).lines(),
            col < old(self).columns(),
        ensures
            final(self).wf(),
            final(self).lines() == old(self).lines(),
            final(self).columns() == old(self).columns(),
            final(self).cursor == old(self).cursor,
            final(self).at(line as int, col as int) == cell,
            forall|i: int, j: int|
                0 <= i < old(self).lines() && 0 <= j < old(self).columns() && !(i == line && j
                    == col) ==> final(self).at(i, j) == old(self).at(i, j),
    {
        self.rows[line][col] = cell;
    }

    /// The place of the cursor.
    pub fn cursor(&self) -> (p: Point)
        ensures
            p == self.cursor,
    {
        self.cursor
    }

    /// Moves the cursor, and says whether it did: a place beyond the limit
    /// is refused and leaves the cursor where it was.
    pub fn set_cursor(&mut self, p: Point) -> (moved: bool)
        requires
            old(self).wf(),
        ensures
            final(self).wf(),
            moved <==> (p.line < GRID_LIMIT && p.col < GRID_LIMIT),
            final(self).rows == old(self).rows,
            final(self).cols == old(self).cols,
            final(self).cursor == (if moved { p } else { old(self).cursor }),
    {
        if p.line < GRID_LIMIT && p.col < GRID_LIMIT {
            self.cursor = p;
            true
        } else {
            false
        }
    }
}

} // verus!
