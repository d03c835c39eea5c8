//! A window of character cells that is drawn on with the operations of a
//! curses window and then copied to the display as a whole.

use vstd::prelude::*;

verus! {

/// The largest number of rows, and of columns, that a window may have.
pub const WINDOW_LIMIT: usize = 0x7fff_ffff;

/// What one cell of the window shows: a character, drawn with a colour pair.
#[derive(Clone, Copy, Debug, PartialEq, Eq, Structural)]
pub struct Glyph {
    pub ch: char,
    pub pair: u8,
}

/// What a cleared cell shows.
pub open spec fn blank_glyph() -> Glyph {
    Glyph { ch: ' ', pair: 0 }
}

/// The state of a window as a value: what its cells show, row by row, the
/// place `(y, x)` of the cursor, the colour pair that characters are drawn
/// with, and whether the display shows the window as it is.
pub struct Screen {
    pub width: int,
    pub glyphs: Seq<Seq<Glyph>>,
    pub cursor: (int, int),
    pub attr: u8,
    pub shown: bool,
}

impl Screen {
    /// The number of rows.
    pub open spec fn height(self) -> int {
        self.glyphs.len() as int
    }

    /// The place `(y, x)` is a cell of the screen.
    pub open spec fn holds(self, y: int, x: int) -> bool {
        0 <= y < self.height() && 0 <= x < self.width
    }

    /// Every row has `width` cells and the cursor is on a cell, or in the
    /// corner of a screen without cells.
    pub open spec fn wf(self) -> bool {
        &&& 0 <= self.width
        &&& forall|y: int| 0 <= y < self.glyphs.len() ==> (#[trigger] self.glyphs[y]).len() == self.width
        &&& (self.holds(self.cursor.0, self.cursor.1) || self.cursor == (0int, 0int))
    }

    /// The screen after it was cleared: every cell is blank and the cursor
    /// is in the top left corner.
    pub open spec fn cleared(self) -> Screen {
        Screen {
            width: self.width,
            glyphs: Seq::new(
                self.glyphs.len(),
                |y: int| Seq::new(self.width as nat, |x: int| blank_glyph()),
            ),
            cursor: (0, 0),
            attr: self.attr,
            shown: false,
        }
    }

    /// The screen after `ch` was put at `(y, x)` with the current colour
    /// pair; a place outside the screen changes nothing.
    pub open spec fn put(self, y: int, x: int, ch: char) -> Screen {
        if self.holds(y, x) {
            Screen {
                glyphs: self.glyphs.update(y, self.glyphs[y].update(x, Glyph { ch, pair: self.attr })),
                shown: false,
                ..self
            }
        } else {
            self
        }
    }

    /// The screen after the cursor was sent to `(y, x)`; a place outside
    /// the screen changes nothing.
    pub open spec fn moved(self, y: int, x: int) -> Screen {
        if self.holds(y, x) {
            Screen { cursor: (y, x), shown: false, ..self }
        } else {
            self
        }
    }
}

/// The rows of `rows` all have `cols` glyphs.
pub open spec fn even_rows(rows: Seq<Vec<Glyph>>, cols: int) -> bool {
    forall|i: int| 0 <= i < rows.len() ==> (#[trigger] rows[i]).len() == cols
}

/// A window of character cells.
#[derive(Clone, Debug, PartialEq, Eq)]
pub struct Window {
    pub rows: Vec<Vec<Glyph>>,
    pub cols: usize,
    pub cursor_y: usize,
    pub cursor_x: usize,
    pub attr: u8,
    pub shown: bool,
}

impl View for Window {
    type V = Screen;

    open spec fn view(&self) -> Screen {
        Screen {
            width: self.cols as int,
            glyphs: Seq::new(self.rows.len() as nat, |y: int| self.rows[y]@),
            cursor: (self.cursor_y as int, self.cursor_x as int),
            attr: self.attr,
            shown: self.shown,
        }
    }
}

impl Window {
    /// The rows are equally long, the sizes lie within the limit, and the
    /// cursor is on a cell or in the corner.
    pub open spec fn wf(&self) -> bool {
        &&& even_rows(self.rows@, self.cols as int)
        &&& self.rows.len() <= WINDOW_LIMIT
        &&& self.cols <= WINDOW_LIMIT
        &&& self@.wf()
    }

    /// A window of `lines` rows and `cols` columns of blank cells; a
    /// negative size counts as none. The cursor is in the top left corner
    /// and characters are drawn with pair 0.
    pub fn new(lines: i32, cols: i32) -> (win: Window)
        ensures
            win.wf(),
            win@.height() == (if lines < 0 { 0 } else { lines as int }),
            win@.width == (if cols < 0 { 0 } else { cols as int }),
            win@ == win@.cleared(),
            win@.attr == 0,
    {
        let height: usize = if lines < 0 { 0 } else { lines as usize };
        let width: usize = if cols < 0 { 0 } else { cols as usize };
        let mut rows: Vec<Vec<Glyph>> = Vec::new();
        let mut y: usize = 0;
        while y < height
            invariant
                y <= height,
                rows.len() == y,
                forall|k: int| 0 <= k < y ==> (#[trigger] rows[k]).len() == width,
                forall|k: int, j: int|
                    0 <= k < y && 0 <= j < width ==> (#[trigger] rows[k][j]) == blank_glyph(),
            decreases height - y,
        {
            let mut row: Vec<Glyph> = Vec::new();
            let mut x: usize = 0;
            while x < width
                invariant
                    x <= width,
                    row.len() == x,
                    forall|k: int| 0 <= k < x ==> (#[trigger] row[k]) == blank_glyph(),
                decreases width - x,
            {
                row.push(Glyph { ch: ' ', pair: 0 });
                x += 1;
            }
            rows.push(row);
            y += 1;
        }
        let win = Window { rows, cols: width, cursor_y: 0, cursor_x: 0, attr: 0, shown: false };
        assert(win@.glyphs =~~= win@.cleared().glyphs);
        win
    }

    /// The size of the window: the number of rows, then of columns.
    pub fn get_max_yx(&self) -> (size: (i32, i32))
        requires
            self.wf(),
        ensures
            size.0 == self@.height(),
            size.1 == self@.width,
    {
        (self.rows.len() as i32, self.cols as i32)
    }

    /// What the cell at `(y, x)` shows, or nothing where the window has no
    /// such cell.
    pub fn glyph(&self, y: i32, x: i32) -> (g: Option<Glyph>)
        requires
            self.wf(),
        ensures
            g == (if self@.holds(y as int, x as int) {
                Some(self@.glyphs[y as int][x as int])
            } else {
                None
            }),
    {
        if y < 0 || x < 0 || y as usize >= self.rows.len() || x as usize >= self.cols {
            None
        } else {
            Some(self.rows[y as usize][x as usize])
        }
    }

    /// The place of the cursor: its row, then its column.
    pub fn get_cur_yx(&self) -> (at: (i32, i32))
        requires
            self.wf(),
        ensures
            at.0 == self@.cursor.0,
            at.1 == self@.cursor.1,
    {
        (self.cursor_y as i32, self.cursor_x as i32)
    }

    /// The colour pair that characters are drawn with.
    pub fn attrget(&self) -> (pair: u8)
        ensures
            pair == self@.attr,
    {
        self.attr
    }

    /// Whether the display shows the window as it is now.
    pub fn is_shown(&self) -> (shown: bool)
        ensures
            shown == self@.shown,
    {
        self.shown
    }

    /// Blanks every cell and sends the cursor to the top left corner.
    pub fn clear(&mut self)
        requires
            old(self).wf(),
        ensures
            final(self).wf(),
            final(self)@ == old(self)@.cleared(),
    {
        let height = self.rows.len();
        let width = self.cols;
        let mut y: usize = 0;
        while y < height
            invariant
                y <= height,
                height == self.rows.len(),
                width == self.cols,
                self.cols == old(self).cols,
                self.attr == old(self).attr,
                even_rows(self.rows@, width as int),
                forall|k: int, j: int|
                    0 <= k < y && 0 <= j < width ==> (#[trigger] self.rows[k][j]) == blank_glyph(),
            decreases height - y,
        {
            let mut x: usize = 0;
            while x < width
                invariant
                    y < height,
                    x <= width,
                    height == self.rows.len(),
                    width == self.cols,
                    self.cols == old(self).cols,
                    self.attr == old(self).attr,
                    even_rows(self.rows@, width as int),
                    forall|k: int, j: int|
                        0 <= k < y && 0 <= j < width ==> (#[trigger] self.rows[k][j])
                            == blank_glyph(),
                    forall|j: int| 0 <= j < x ==> (#[trigger] self.rows[y as int][j]) == blank_glyph(),
                decreases width - x,
            {
                self.rows[y][x] = Glyph { ch: ' ', pair: 0 };
                x += 1;
            }
            y += 1;
        }
        self.cursor_y = 0;
        self.cursor_x = 0;
        self.shown = false;
        assert(self@.glyphs =~~= old(self)@.cleared().glyphs);
    }

    /// Sets the colour pair that characters are drawn with from now on.
    pub fn attrset(&mut self, pair: u8)
        requires
            old(self).wf(),
        ensures
            final(self).wf(),
            final(self)@ == (Screen { attr: pair, ..old(self)@ }),
    {
        self.attr = pair;
    }

    /// Puts `ch` at row `y` and column `x`, drawn with the current colour
    /// pair, and says whether the window has such a cell; if not, nothing
    /// changes.
    pub fn mvaddch(&mut self, y: i32, x: i32, ch: char) -> (done: bool)
        requires
            old(self).wf(),
        ensures
            final(self).wf(),
            done == old(self)@.holds(y as int, x as int),
            final(self)@ == old(self)@.put(y as int, x as int, ch),
    {
        if y < 0 || x < 0 || y as usize >= self.rows.len() || x as usize >= self.cols {
            return false;
        }
        let g = Glyph { ch, pair: self.attr };
        self.rows[y as usize][x as usize] = g;
        self.shown = false;
        assert(self@.glyphs =~~= old(self)@.put(y as int, x as int, ch).glyphs);
        true
    }

    /// Sends the cursor to row `y` and column `x`, and says whether the
    /// window has such a cell; if not, nothing changes.
    pub fn mv(&mut self, y: i32, x: i32) -> (done: bool)
        requires
            old(self).wf(),
        ensures
            final(self).wf(),
            done == old(self)@.holds(y as int, x as int),
            final(self)@ == old(self)@.moved(y as int, x as int),
    {
        if y < 0 || x < 0 || y as usize >= self.rows.len() || x as usize >= self.cols {
            return false;
        }
        self.cursor_y = y as usize;
        self.cursor_x = x as usize;
        self.shown = false;
        assert(self@.glyphs =~~= old(self)@.glyphs);
        true
    }

    /// Marks the window as shown: the display now holds what the window
    /// holds.
    pub fn refresh(&mut self)
        requires
            old(self).wf(),
        ensures
            final(self).wf(),
            final(self)@ == (Screen { shown: true, ..old(self)@ }),
    {
        self.shown = true;
        assert(self@.glyphs =~~= old(self)@.glyphs);
    }
}

} // verus!
