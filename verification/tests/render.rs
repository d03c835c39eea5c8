use ptyview::grid::{Cell, Colour, Grid, Point, Rgb};
use ptyview::palette::NamedColour;
use ptyview::render::{render_term_to_win, RenderError};
use ptyview::window::{Glyph, Window};

fn named(c: char, name: NamedColour) -> Cell {
    Cell { c, fg: Colour::Named(name) }
}

fn sample_grid() -> Grid {
    let rows = vec![
        vec![named('a', NamedColour::Red), named('b', NamedColour::Green)],
        vec![named('c', NamedColour::Foreground), named('d', NamedColour::DimBlue)],
    ];
    Grid::from_rows(rows, Point { line: 1, col: 0 }).unwrap()
}

fn text_of(win: &Window) -> Vec<String> {
    let (lines, cols) = win.get_max_yx();
    let mut text = Vec::new();
    for y in 0..lines {
        let mut row = String::new();
        for x in 0..cols {
            row.push(win.glyph(y, x).unwrap().ch);
        }
        text.push(row);
    }
    text
}

#[test]
fn frame_of_a_grid_that_fills_the_view() {
    let grid = sample_grid();
    let mut win = Window::new(4, 4);
    assert_eq!(render_term_to_win(&grid, &mut win, '*'), Ok(()));
    assert_eq!(text_of(&win), vec!["****", "*ab*", "*cd*", "****"]);
    assert_eq!(win.glyph(1, 1), Some(Glyph { ch: 'a', pair: 1 }));
    assert_eq!(win.glyph(1, 2), Some(Glyph { ch: 'b', pair: 2 }));
    assert_eq!(win.glyph(2, 1), Some(Glyph { ch: 'c', pair: 0 }));
    assert_eq!(win.glyph(2, 2), Some(Glyph { ch: 'd', pair: 3 }));
    assert_eq!(win.glyph(0, 0), Some(Glyph { ch: '*', pair: 0 }));
    assert_eq!(win.glyph(3, 2), Some(Glyph { ch: '*', pair: 0 }));
    assert_eq!(win.get_cur_yx(), (2, 1));
    assert_eq!(win.attrget(), 3);
    assert!(win.is_shown());
    assert_eq!(win.get_max_yx(), (4, 4));
}

#[test]
fn frame_of_a_grid_smaller_than_the_view() {
    let grid = sample_grid();
    let mut win = Window::new(5, 6);
    assert_eq!(render_term_to_win(&grid, &mut win, '+'), Ok(()));
    assert_eq!(text_of(&win), vec!["++++++", "+ab  +", "+cd  +", "+    +", "++++++"]);
    assert_eq!(win.glyph(3, 3), Some(Glyph { ch: ' ', pair: 0 }));
    assert_eq!(win.get_cur_yx(), (2, 1));
}

#[test]
fn frame_replaces_what_the_window_showed() {
    let grid = sample_grid();
    let mut win = Window::new(5, 5);
    win.attrset(6);
    win.mvaddch(3, 3, 'X');
    win.mvaddch(0, 0, 'Y');
    win.mv(4, 4);
    assert_eq!(render_term_to_win(&grid, &mut win, '-'), Ok(()));
    assert_eq!(text_of(&win), vec!["-----", "-ab -", "-cd -", "-   -", "-----"]);
    assert_eq!(win.glyph(0, 0), Some(Glyph { ch: '-', pair: 0 }));
    assert_eq!(win.glyph(4, 2), Some(Glyph { ch: '-', pair: 0 }));
    assert_eq!(win.glyph(3, 3), Some(Glyph { ch: ' ', pair: 0 }));
    assert_eq!(win.get_cur_yx(), (2, 1));
    let mut fresh = Window::new(5, 5);
    assert_eq!(render_term_to_win(&grid, &mut fresh, '-'), Ok(()));
    assert_eq!(win, fresh);
}

#[test]
fn rendering_twice_leaves_the_same_window() {
    let grid = sample_grid();
    let mut win = Window::new(5, 6);
    win.attrset(4);
    assert_eq!(render_term_to_win(&grid, &mut win, '*'), Ok(()));
    let once = win.clone();
    assert_eq!(once.glyph(0, 0), Some(Glyph { ch: '*', pair: 0 }));
    assert_eq!(once.glyph(4, 5), Some(Glyph { ch: '*', pair: 0 }));
    assert_eq!(once.attrget(), 3);
    assert_eq!(render_term_to_win(&grid, &mut win, '*'), Ok(()));
    assert_eq!(text_of(&win), text_of(&once));
    assert_eq!(win.get_cur_yx(), once.get_cur_yx());
    assert_eq!(win.attrget(), once.attrget());
    for y in 0..5 {
        for x in 0..6 {
            assert_eq!(win.glyph(y, x), once.glyph(y, x));
        }
    }
    assert_eq!(win, once);
    assert_eq!(render_term_to_win(&grid, &mut win, '*'), Ok(()));
    assert_eq!(win, once);
}

#[test]
fn rendering_one_red_cell_twice_keeps_the_border() {
    let cell = named('r', NamedColour::Red);
    let grid = Grid::from_rows(vec![vec![cell]], Point { line: 0, col: 0 }).unwrap();
    let mut win = Window::new(3, 3);
    assert_eq!(render_term_to_win(&grid, &mut win, '*'), Ok(()));
    assert_eq!(win.glyph(0, 0), Some(Glyph { ch: '*', pair: 0 }));
    assert_eq!(win.glyph(1, 1), Some(Glyph { ch: 'r', pair: 1 }));
    assert_eq!(win.attrget(), 1);
    let once = win.clone();
    assert_eq!(render_term_to_win(&grid, &mut win, '*'), Ok(()));
    assert_eq!(win.glyph(0, 0), Some(Glyph { ch: '*', pair: 0 }));
    assert_eq!(win, once);
}

#[test]
fn refused_painting_is_not_shown() {
    let mut grid = sample_grid();
    grid.set_cell(1, 0, Cell { c: 'x', fg: Colour::Spec(Rgb { r: 10, g: 20, b: 30 }) });
    let mut win = Window::new(4, 4);
    assert_eq!(render_term_to_win(&sample_grid(), &mut win, '*'), Ok(()));
    assert!(win.is_shown());
    assert_eq!(render_term_to_win(&grid, &mut win, '*'), Err(RenderError::ColourSpecFound));
    assert!(!win.is_shown());
}

#[test]
fn refused_painting_leaves_the_cells_before_the_refused_one() {
    let mut grid = sample_grid();
    grid.set_cell(1, 0, Cell { c: 'x', fg: Colour::Indexed(7) });
    let mut win = Window::new(5, 5);
    win.attrset(6);
    win.mvaddch(3, 3, 'X');
    win.mv(4, 4);
    win.refresh();
    assert_eq!(render_term_to_win(&grid, &mut win, '*'), Err(RenderError::ColourIndexFound));
    assert_eq!(text_of(&win), vec!["*****", "*ab *", "*   *", "*   *", "*****"]);
    assert_eq!(win.glyph(0, 0), Some(Glyph { ch: '*', pair: 0 }));
    assert_eq!(win.glyph(1, 1), Some(Glyph { ch: 'a', pair: 1 }));
    assert_eq!(win.glyph(1, 2), Some(Glyph { ch: 'b', pair: 2 }));
    assert_eq!(win.glyph(2, 1), Some(Glyph { ch: ' ', pair: 0 }));
    assert_eq!(win.glyph(2, 2), Some(Glyph { ch: ' ', pair: 0 }));
    assert_eq!(win.get_cur_yx(), (0, 0));
    assert_eq!(win.attrget(), 2);
    assert!(!win.is_shown());
    let once = win.clone();
    assert_eq!(render_term_to_win(&grid, &mut win, '*'), Err(RenderError::ColourIndexFound));
    assert_eq!(win, once);
}

#[test]
fn refused_first_cell_leaves_the_border_only() {
    let mut grid = sample_grid();
    grid.set_cell(0, 0, Cell { c: 'x', fg: Colour::Spec(Rgb { r: 1, g: 1, b: 1 }) });
    let mut win = Window::new(4, 4);
    win.attrset(5);
    assert_eq!(render_term_to_win(&grid, &mut win, '+'), Err(RenderError::ColourSpecFound));
    assert_eq!(text_of(&win), vec!["++++", "+  +", "+  +", "++++"]);
    assert_eq!(win.glyph(0, 0), Some(Glyph { ch: '+', pair: 0 }));
    assert_eq!(win.get_cur_yx(), (0, 0));
    assert_eq!(win.attrget(), 0);
    assert!(!win.is_shown());
}

#[test]
fn full_specification_is_refused() {
    let mut grid = sample_grid();
    grid.set_cell(1, 1, Cell { c: 'x', fg: Colour::Spec(Rgb { r: 10, g: 20, b: 30 }) });
    let mut win = Window::new(4, 4);
    assert_eq!(render_term_to_win(&grid, &mut win, '*'), Err(RenderError::ColourSpecFound));
    assert_eq!(win.get_max_yx(), (4, 4));
}

#[test]
fn indexed_colour_is_refused() {
    let mut grid = sample_grid();
    grid.set_cell(0, 0, Cell { c: 'x', fg: Colour::Indexed(17) });
    let mut win = Window::new(4, 4);
    assert_eq!(render_term_to_win(&grid, &mut win, '*'), Err(RenderError::ColourIndexFound));
}

#[test]
fn the_first_refused_cell_decides_the_error() {
    let mut grid = sample_grid();
    grid.set_cell(0, 1, Cell { c: 'x', fg: Colour::Indexed(17) });
    grid.set_cell(1, 0, Cell { c: 'y', fg: Colour::Spec(Rgb { r: 0, g: 0, b: 0 }) });
    let mut win = Window::new(4, 4);
    assert_eq!(render_term_to_win(&grid, &mut win, '*'), Err(RenderError::ColourIndexFound));
    let mut grid = sample_grid();
    grid.set_cell(0, 1, Cell { c: 'y', fg: Colour::Spec(Rgb { r: 0, g: 0, b: 0 }) });
    grid.set_cell(1, 0, Cell { c: 'x', fg: Colour::Indexed(17) });
    assert_eq!(render_term_to_win(&grid, &mut win, '*'), Err(RenderError::ColourSpecFound));
}

#[test]
fn refused_cell_outside_the_window_is_still_refused() {
    let mut grid = Grid::new(3, 3).unwrap();
    grid.set_cell(2, 2, Cell { c: 'x', fg: Colour::Indexed(1) });
    let mut win = Window::new(2, 2);
    assert_eq!(render_term_to_win(&grid, &mut win, '*'), Err(RenderError::ColourIndexFound));
}

#[test]
fn grid_larger_than_the_window_is_cut_off() {
    let rows = vec![
        vec![named('a', NamedColour::Red), named('b', NamedColour::Red), named('c', NamedColour::Red)],
        vec![named('d', NamedColour::Red), named('e', NamedColour::Red), named('f', NamedColour::Red)],
    ];
    let grid = Grid::from_rows(rows, Point { line: 1, col: 2 }).unwrap();
    let mut win = Window::new(2, 3);
    assert_eq!(render_term_to_win(&grid, &mut win, '*'), Ok(()));
    assert_eq!(text_of(&win), vec!["***", "*ab"]);
    assert_eq!(win.get_cur_yx(), (0, 0));
    assert_eq!(win.attrget(), 1);
}

#[test]
fn window_without_cells_takes_a_frame() {
    let grid = sample_grid();
    let mut win = Window::new(0, 0);
    assert_eq!(render_term_to_win(&grid, &mut win, '*'), Ok(()));
    assert_eq!(win.get_max_yx(), (0, 0));
    assert_eq!(win.get_cur_yx(), (0, 0));
    assert!(win.is_shown());
}

#[test]
fn empty_grid_leaves_the_border_only() {
    let grid = Grid::new(0, 0).unwrap();
    let mut win = Window::new(3, 3);
    win.attrset(2);
    assert_eq!(render_term_to_win(&grid, &mut win, '*'), Ok(()));
    assert_eq!(text_of(&win), vec!["***", "* *", "***"]);
    assert_eq!(win.glyph(0, 1), Some(Glyph { ch: '*', pair: 0 }));
    assert_eq!(win.attrget(), 0);
    assert_eq!(win.get_cur_yx(), (1, 1));
}

#[test]
fn single_row_window_is_all_border() {
    let grid = Grid::new(0, 0).unwrap();
    let mut win = Window::new(1, 4);
    assert_eq!(render_term_to_win(&grid, &mut win, '-'), Ok(()));
    assert_eq!(text_of(&win), vec!["----"]);
}
