//! The frame: a grid of cells painted into a window, inside a border.

use vstd::prelude::*;
use crate::grid::{Cell, Colour, Grid};
use crate::palette::{pair_of, reduce};
use crate::window::{blank_glyph, Glyph, Screen, Window};

verus! {

/// Why a grid could not be painted: a cell states its colour in a way that
/// the palette of the window has no pair for.
#[derive(Clone, Copy, Debug, PartialEq, Eq, Structural)]
pub enum RenderError {
    /// A cell gives a full specification of its colour.
    ColourSpecFound,
    /// A cell gives its colour as a number into a larger palette.
    ColourIndexFound,
}

pub type RenderResult = Result<(), RenderError>;

/// The error that a colour is refused with, if it is refused.
pub open spec fn refusal_of(fg: Colour) -> Option<RenderError> {
    match fg {
        Colour::Named(_) => None,
        Colour::Spec(_) => Some(RenderError::ColourSpecFound),
        Colour::Indexed(_) => Some(RenderError::ColourIndexFound),
    }
}

/// The place `(i, j)` comes before `(line, col)` in the order in which the
/// cells are painted: line by line, and column by column within a line.
pub open spec fn precedes(i: int, j: int, line: int, col: int) -> bool {
    i < line || (i == line && j < col)
}

/// Every cell of the grid has a named colour.
pub open spec fn all_named(term: &Grid) -> bool {
    forall|i: int, j: int|
        0 <= i < term.lines() && 0 <= j < term.columns() ==> refusal_of(
            (#[trigger] term.at(i, j)).fg,
        ).is_none()
}

/// The cell at `(line, col)` is the first, in the order of painting, whose
/// colour is refused.
pub open spec fn first_refused_at(term: &Grid, line: int, col: int) -> bool {
    &&& 0 <= line < term.lines()
    &&& 0 <= col < term.columns()
    &&& refusal_of(term.at(line, col).fg).is_some()
    &&& forall|i: int, j: int|
        0 <= i < term.lines() && 0 <= j < term.columns() && precedes(i, j, line, col)
            ==> refusal_of((#[trigger] term.at(i, j)).fg).is_none()
}

/// The error that the painting of a grid ends with: that of the first
/// refused cell, or none where every cell has a named colour.
pub open spec fn first_refusal(term: &Grid) -> Option<RenderError> {
    if all_named(term) {
        None
    } else {
        let (i, j) = choose|i: int, j: int| first_refused_at(term, i, j);
        refusal_of(term.at(i, j).fg)
    }
}

/// The place of the first refused cell of a grid that has one.
pub open spec fn first_refused_place(term: &Grid) -> (int, int) {
    choose|i: int, j: int| first_refused_at(term, i, j)
}

/// What the painting of a grid returns.
pub open spec fn outcome_of(term: &Grid) -> RenderResult {
    match first_refusal(term) {
        None => Ok(()),
        Some(err) => Err(err),
    }
}

/// A grid has at most one first refused cell.
pub proof fn lemma_first_refused_unique(term: &Grid, i: int, j: int, k: int, l: int)
    requires
        first_refused_at(term, i, j),
        first_refused_at(term, k, l),
    ensures
        i == k,
        j == l,
{
    if precedes(i, j, k, l) {
        assert(refusal_of(term.at(i, j).fg).is_none());
    }
    if precedes(k, l, i, j) {
        assert(refusal_of(term.at(k, l).fg).is_none());
    }
}

/// The first refused cell decides the error of the whole grid.
pub proof fn lemma_refusal_found(term: &Grid, line: int, col: int)
    requires
        first_refused_at(term, line, col),
    ensures
        !all_named(term),
        first_refused_place(term) == (line, col),
        first_refusal(term) == refusal_of(term.at(line, col).fg),
        outcome_of(term).is_err(),
{
    assert(refusal_of(term.at(line, col).fg).is_some());
    let (i, j) = choose|i: int, j: int| first_refused_at(term, i, j);
    lemma_first_refused_unique(term, i, j, line, col);
}

/// What a cell of the grid looks like in the window.
pub open spec fn glyph_of(cell: Cell) -> Glyph {
    Glyph {
        ch: cell.c,
        pair: match cell.fg {
            Colour::Named(name) => pair_of(name) as u8,
            _ => 0,
        },
    }
}

/// The place `(y, x)` lies on the edge of a window of the given size.
pub open spec fn on_border(height: int, width: int, y: int, x: int) -> bool {
    y == 0 || y == height - 1 || x == 0 || x == width - 1
}

/// The place `(y, x)` of the window is where a cell of the grid goes: the
/// grid is set off by one row and one column, for the border.
pub open spec fn in_cells(term: &Grid, y: int, x: int) -> bool {
    1 <= y <= term.lines() && 1 <= x <= term.columns()
}

/// Scanning on from `(line, col)`, with every cell before it named, ends
/// at a first refused cell or finds every cell named.
proof fn lemma_scan(term: &Grid, line: int, col: int)
    requires
        0 <= line <= term.lines(),
        0 <= col <= term.columns(),
        forall|i: int, j: int|
            0 <= i < term.lines() && 0 <= j < term.columns() && precedes(i, j, line, col)
                ==> refusal_of((#[trigger] term.at(i, j)).fg).is_none(),
    ensures
        all_named(term) || exists|i: int, j: int| first_refused_at(term, i, j),
    decreases term.lines() - line, term.columns() - col,
{
    if line >= term.lines() {
    } else if col >= term.columns() {
        lemma_scan(term, line + 1, 0);
    } else if refusal_of(term.at(line, col).fg).is_some() {
        assert(first_refused_at(term, line, col));
    } else {
        lemma_scan(term, line, col + 1);
    }
}

/// A grid in which not every cell has a named colour has a first refused
/// cell, and so the painting of it ends with an error.
pub proof fn lemma_refusal_exists(term: &Grid)
    requires
        !all_named(term),
    ensures
        first_refused_at(term, first_refused_place(term).0, first_refused_place(term).1),
        first_refusal(term).is_some(),
        outcome_of(term).is_err(),
{
    lemma_scan(term, 0, 0);
    let (i, j) = first_refused_place(term);
    lemma_refusal_found(term, i, j);
}

/// The colour pair that the border is drawn with, and that is current when
/// the painting of the cells begins: the pair without special styling.
pub const BORDER_PAIR: u8 = 0;

/// What the border shows.
pub open spec fn border_glyph(border_char: char) -> Glyph {
    Glyph { ch: border_char, pair: BORDER_PAIR }
}

/// What the place `(y, x)` of a window shows once the border and the cells
/// that precede `(line, col)` are painted: the cell of the grid where one
/// was painted there, else the border character on the edge, and a blank
/// everywhere else.
pub open spec fn stage_glyph(
    term: &Grid,
    border_char: char,
    height: int,
    width: int,
    line: int,
    col: int,
    y: int,
    x: int,
) -> Glyph {
    if in_cells(term, y, x) && precedes(y - 1, x - 1, line, col) {
        glyph_of(term.at(y - 1, x - 1))
    } else if on_border(height, width, y, x) {
        border_glyph(border_char)
    } else {
        blank_glyph()
    }
}

/// What the place `(y, x)` of a window shows in the finished frame.
pub open spec fn frame_glyph(
    term: &Grid,
    border_char: char,
    height: int,
    width: int,
    y: int,
    x: int,
) -> Glyph {
    if in_cells(term, y, x) {
        glyph_of(term.at(y - 1, x - 1))
    } else if on_border(height, width, y, x) {
        border_glyph(border_char)
    } else {
        blank_glyph()
    }
}

/// The colour pair that is current once the cells that precede
/// `(line, col)` are painted: that of the last of them, or that of the
/// border where there is none.
pub open spec fn pair_after(term: &Grid, line: int, col: int) -> u8 {
    if col > 0 {
        glyph_of(term.at(line, col - 1)).pair
    } else if line > 0 && term.columns() > 0 {
        glyph_of(term.at(line - 1, term.columns() - 1)).pair
    } else {
        BORDER_PAIR
    }
}

/// The unfinished frame of a grid in a window that was in state `before`,
/// with the border and the cells that precede `(line, col)` painted: the
/// cursor is still in the corner, and the display does not show the frame.
pub open spec fn stage(before: Screen, term: &Grid, border_char: char, line: int, col: int)
    -> Screen {
    Screen {
        width: before.width,
        glyphs: Seq::new(
            before.glyphs.len(),
            |y: int|
                Seq::new(
                    before.width as nat,
                    |x: int|
                        stage_glyph(
                            term,
                            border_char,
                            before.height(),
                            before.width,
                            line,
                            col,
                            y,
                            x,
                        ),
                ),
        ),
        cursor: (0, 0),
        attr: pair_after(term, line, col),
        shown: false,
    }
}

/// The finished frame of a grid in a window that was in state `before`:
/// the window keeps its size, and nothing else of `before` is left. Each
/// cell of the grid is shown one row down and one column right of its
/// place in the grid, with the colour pair of its colour; the rest of the
/// edge shows the border character, with the pair of the border; all else
/// is blank. The cursor stands where the grid has it, set off like the
/// cells, or in the corner where the window has no such place. The frame
/// is shown on the display.
pub open spec fn frame(before: Screen, term: &Grid, border_char: char) -> Screen {
    Screen {
        width: before.width,
        glyphs: Seq::new(
            before.glyphs.len(),
            |y: int|
                Seq::new(
                    before.width as nat,
                    |x: int|
                        frame_glyph(term, border_char, before.height(), before.width, y, x),
                ),
        ),
        cursor: if before.holds(term.cursor.line + 1, term.cursor.col + 1) {
            (term.cursor.line + 1, term.cursor.col + 1)
        } else {
            (0, 0)
        },
        attr: pair_after(term, term.lines(), 0),
        shown: true,
    }
}

/// What the painting of a grid leaves in a window that was in state
/// `before`: the finished frame, or, where a cell is refused, the
/// unfinished frame with the cells before the first refused one.
pub open spec fn painted(before: Screen, term: &Grid, border_char: char) -> Screen {
    if all_named(term) {
        frame(before, term, border_char)
    } else {
        stage(
            before,
            term,
            border_char,
            first_refused_place(term).0,
            first_refused_place(term).1,
        )
    }
}

/// Every cell of the window shows what `stage_glyph` says for the stage
/// `(line, col)`.
pub open spec fn at_stage(now: Screen, term: &Grid, border_char: char, line: int, col: int)
    -> bool {
    forall|y: int, x: int|
        now.holds(y, x) ==> (#[trigger] now.glyphs[y][x]) == stage_glyph(
            term,
            border_char,
            now.height(),
            now.width,
            line,
            col,
            y,
            x,
        )
}

/// Paints the border along the edge of a cleared window, with the pair of
/// the border, and leaves that pair current.
fn paint_border(win: &mut Window, border_char: char)
    requires
        old(win).wf(),
        old(win)@ == old(win)@.cleared(),
    ensures
        final(win).wf(),
        final(win)@.height() == old(win)@.height(),
        final(win)@.width == old(win)@.width,
        final(win)@.cursor == (0int, 0int),
        final(win)@.attr == BORDER_PAIR,
        !final(win)@.shown,
        forall|y: int, x: int|
            final(win)@.holds(y, x) ==> (#[trigger] final(win)@.glyphs[y][x]) == (if on_border(
                final(win)@.height(),
                final(win)@.width,
                y,
                x,
            ) {
                border_glyph(border_char)
            } else {
                blank_glyph()
            }),
{
    win.attrset(BORDER_PAIR);
    let (y, x) = win.get_max_yx();
    let mut i: i32 = 0;
    while i < y
        invariant
            win.wf(),
            0 <= i <= y,
            y == win@.height(),
            x == win@.width,
            y == old(win)@.height(),
            x == old(win)@.width,
            win@.cursor == (0int, 0int),
            win@.attr == BORDER_PAIR,
            !win@.shown,
            forall|r: int, c: int|
                win@.holds(r, c) ==> (#[trigger] win@.glyphs[r][c]) == (if r < i && (c == 0 || c
                    == x - 1) {
                    border_glyph(border_char)
                } else {
                    blank_glyph()
                }),
        decreases y - i,
    {
        win.mvaddch(i, 0, border_char);
        win.mvaddch(i, x - 1, border_char);
        i += 1;
    }
    let mut i: i32 = 0;
    while i < x
        invariant
            win.wf(),
            0 <= i <= x,
            y == win@.height(),
            x == win@.width,
            y == old(win)@.height(),
            x == old(win)@.width,
            win@.cursor == (0int, 0int),
            win@.attr == BORDER_PAIR,
            !win@.shown,
            forall|r: int, c: int|
                win@.holds(r, c) ==> (#[trigger] win@.glyphs[r][c]) == (if c == 0 || c == x - 1 || (
                c < i && (r == 0 || r == y - 1)) {
                    border_glyph(border_char)
                } else {
                    blank_glyph()
                }),
        decreases x - i,
    {
        win.mvaddch(0, i, border_char);
        win.mvaddch(y - 1, i, border_char);
        i += 1;
    }
}

/// Paints the grid into the window: clears the window, draws the border
/// along its edge with `border_char` and the pair of the border, draws the
/// cells line by line, each with the colour pair of its colour, puts the
/// cursor where the grid has it, and shows the frame. Nothing of what the
/// window held before is left but its size. A cell whose colour is not a
/// named one stops the painting at once, with the error for that kind of
/// colour: the window then holds the unfinished frame, with the cells
/// before that one, and the display does not show it.
pub fn render_term_to_win(term: &Grid, win: &mut Window, border_char: char) -> (result:
    RenderResult)
    requires
        term.wf(),
        old(win).wf(),
    ensures
        final(win).wf(),
        final(win)@.height() == old(win)@.height(),
        final(win)@.width == old(win)@.width,
        result == outcome_of(term),
        result.is_ok() <==> all_named(term),
        final(win)@ == painted(old(win)@, term, border_char),
        result.is_ok() ==> final(win)@ == frame(old(win)@, term, border_char),
        result.is_err() ==> !final(win)@.shown,
        result.is_err() ==> exists|i: int, j: int|
            #[trigger] first_refused_at(term, i, j) && refusal_of(term.at(i, j).fg) == Some(
                result.unwrap_err(),
            ) && final(win)@ == stage(old(win)@, term, border_char, i, j),
{
    let ghost start = win@;
    win.clear();
    paint_border(win, border_char);
    let num_lines = term.num_lines();
    let num_cols = term.num_cols();
    let mut line: usize = 0;
    while line < num_lines
        invariant
            term.wf(),
            win.wf(),
            line <= num_lines,
            num_lines == term.lines(),
            num_cols == term.columns(),
            start == old(win)@,
            win@.height() == start.height(),
            win@.width == start.width,
            win@.cursor == (0int, 0int),
            !win@.shown,
            win@.attr == pair_after(term, line as int, 0),
            at_stage(win@, term, border_char, line as int, 0),
            forall|i: int, j: int|
                0 <= i < line && 0 <= j < num_cols ==> refusal_of(
                    (#[trigger] term.at(i, j)).fg,
                ).is_none(),
        decreases num_lines - line,
    {
        let mut col: usize = 0;
        while col < num_cols
            invariant
                term.wf(),
                win.wf(),
                line < num_lines,
                col <= num_cols,
                num_lines == term.lines(),
                num_cols == term.columns(),
                start == old(win)@,
                win@.height() == start.height(),
                win@.width == start.width,
                win@.cursor == (0int, 0int),
                !win@.shown,
                win@.attr == pair_after(term, line as int, col as int),
                at_stage(win@, term, border_char, line as int, col as int),
                forall|i: int, j: int|
                    0 <= i < num_lines && 0 <= j < num_cols && precedes(
                        i,
                        j,
                        line as int,
                        col as int,
                    ) ==> refusal_of((#[trigger] term.at(i, j)).fg).is_none(),
            decreases num_cols - col,
        {
            let cell = term.cell(line, col);
            match cell.fg {
                Colour::Named(name) => {
                    win.attrset(reduce(name));
                    win.mvaddch(line as i32 + 1, col as i32 + 1, cell.c);
                },
                Colour::Spec(_) => {
                    proof {
                        lemma_refusal_found(term, line as int, col as int);
                        assert(win@.glyphs =~~= stage(
                            start,
                            term,
                            border_char,
                            line as int,
                            col as int,
                        ).glyphs);
                    }
                    assert(first_refused_at(term, line as int, col as int));
                    return Err(RenderError::ColourSpecFound);
                },
                Colour::Indexed(_) => {
                    proof {
                        lemma_refusal_found(term, line as int, col as int);
                        assert(win@.glyphs =~~= stage(
                            start,
                            term,
                            border_char,
                            line as int,
                            col as int,
                        ).glyphs);
                    }
                    assert(first_refused_at(term, line as int, col as int));
                    return Err(RenderError::ColourIndexFound);
                },
            }
            col += 1;
        }
        line += 1;
    }
    let at = term.cursor();
    win.mv(at.line as i32 + 1, at.col as i32 + 1);
    win.refresh();
    assert(win@.glyphs =~~= frame(start, term, border_char).glyphs);
    Ok(())
}

/// The frame of a grid depends on the size of the window alone: whatever
/// two windows of one size showed before, and wherever their cursors
/// stood and whichever colour pair was current, the frame is the same.
pub proof fn lemma_frame_ignores_before(a: Screen, b: Screen, term: &Grid, border_char: char)
    requires
        a.height() == b.height(),
        a.width == b.width,
    ensures
        frame(a, term, border_char) == frame(b, term, border_char),
        painted(a, term, border_char) == painted(b, term, border_char),
{
    assert(frame(a, term, border_char).glyphs =~~= frame(b, term, border_char).glyphs);
    let (i, j) = first_refused_place(term);
    assert(stage(a, term, border_char, i, j).glyphs =~~= stage(b, term, border_char, i, j).glyphs);
}

/// Painting a grid a second time, with nothing changed in between, leaves
/// the window exactly as the first painting left it: every cell shows the
/// same character with the same colour pair, the cursor stands in the
/// same place, and the same colour pair is current. This holds of a
/// painting that ends with an error too.
pub proof fn lemma_render_twice(before: Screen, term: &Grid, border_char: char)
    ensures
        frame(frame(before, term, border_char), term, border_char) == frame(
            before,
            term,
            border_char,
        ),
        painted(painted(before, term, border_char), term, border_char) == painted(
            before,
            term,
            border_char,
        ),
{
    lemma_frame_ignores_before(frame(before, term, border_char), before, term, border_char);
    lemma_frame_ignores_before(painted(before, term, border_char), before, term, border_char);
}

/// Where the grid is no larger than the inside of the window, no cell of
/// the grid is painted on the edge or beyond it, at any stage of the
/// painting: the unfinished frame shows the border all along the edge,
/// each cell that is painted inside the border, and a blank at every
/// other place.
pub proof fn lemma_stage_inside_border(
    before: Screen,
    term: &Grid,
    border_char: char,
    line: int,
    col: int,
)
    requires
        term.lines() <= before.height() - 2,
        term.columns() <= before.width - 2,
    ensures
        ({
            let shown = stage(before, term, border_char, line, col);
            &&& forall|i: int, j: int|
                0 <= i < term.lines() && 0 <= j < term.columns() && precedes(i, j, line, col)
                    ==> shown.holds(i + 1, j + 1) && !on_border(
                    shown.height(),
                    shown.width,
                    i + 1,
                    j + 1,
                ) && shown.glyphs[i + 1][j + 1] == glyph_of(#[trigger] term.at(i, j))
            &&& forall|y: int, x: int|
                shown.holds(y, x) && on_border(shown.height(), shown.width, y, x)
                    ==> (#[trigger] shown.glyphs[y][x]) == border_glyph(border_char)
            &&& forall|y: int, x: int|
                shown.holds(y, x) && !on_border(shown.height(), shown.width, y, x) && !(in_cells(
                    term,
                    y,
                    x,
                ) && precedes(y - 1, x - 1, line, col)) ==> (#[trigger] shown.glyphs[y][x])
                    == blank_glyph()
        }),
{
}

/// Where the grid is no larger than the inside of the window, the
/// finished frame shows every cell of the grid inside the border, and the
/// border character all along the edge: no cell of the grid is painted on
/// the edge or beyond it. Where the cursor of the grid is on a cell of
/// the grid, the cursor of the window is inside the border too.
pub proof fn lemma_grid_inside_border(before: Screen, term: &Grid, border_char: char)
    requires
        term.lines() <= before.height() - 2,
        term.columns() <= before.width - 2,
    ensures
        ({
            let shown = frame(before, term, border_char);
            &&& forall|i: int, j: int|
                0 <= i < term.lines() && 0 <= j < term.columns() ==> shown.holds(i + 1, j + 1)
                    && !on_border(shown.height(), shown.width, i + 1, j + 1)
                    && shown.glyphs[i + 1][j + 1] == glyph_of(#[trigger] term.at(i, j))
            &&& forall|y: int, x: int|
                shown.holds(y, x) && on_border(shown.height(), shown.width, y, x)
                    ==> (#[trigger] shown.glyphs[y][x]) == border_glyph(border_char)
            &&& (term.cursor.line < term.lines() && term.cursor.col < term.columns()
                ==> shown.cursor == (term.cursor.line + 1, term.cursor.col + 1) && !on_border(
                shown.height(),
                shown.width,
                shown.cursor.0,
                shown.cursor.1,
            ))
        }),
{
}

} // verus!
