//! The geometry of the view: the part of the host window inside its border.

use vstd::prelude::*;

verus! {

/// The number of rows, and of columns, that the border takes from the window.
pub const BORDER_CELLS: i32 = 2;

/// The size of the view in character cells. A cell measures one by one and
/// the view has no padding: the view is addressed by whole cells.
#[derive(Clone, Copy, Debug, PartialEq, Eq, Structural)]
pub struct Geometry {
    pub width: i32,
    pub height: i32,
    pub cell_width: i32,
    pub cell_height: i32,
    pub padding_x: i32,
    pub padding_y: i32,
}

impl Geometry {
    /// The geometry has unit cells and no padding.
    pub open spec fn is_cell_based(self) -> bool {
        &&& self.cell_width == 1
        &&& self.cell_height == 1
        &&& self.padding_x == 0
        &&& self.padding_y == 0
    }

    /// The number of columns that a grid of this geometry has.
    pub open spec fn columns(self) -> int {
        (self.width - 2 * self.padding_x) / (self.cell_width as int)
    }

    /// The number of lines that a grid of this geometry has.
    pub open spec fn lines(self) -> int {
        (self.height - 2 * self.padding_y) / (self.cell_height as int)
    }
}

/// The geometry of a view of `w` columns and `h` lines.
pub open spec fn view_geometry(w: int, h: int) -> Geometry {
    Geometry {
        width: w as i32,
        height: h as i32,
        cell_width: 1,
        cell_height: 1,
        padding_x: 0,
        padding_y: 0,
    }
}

/// Builds the geometry of a view that is `w` columns wide and `h` lines high.
pub fn new_size_info(w: i32, h: i32) -> (size: Geometry)
    ensures
        size == view_geometry(w as int, h as int),
        size.width == w,
        size.height == h,
        size.is_cell_based(),
{
    Geometry { width: w, height: h, cell_width: 1, cell_height: 1, padding_x: 0, padding_y: 0 }
}

/// Turns the size of the host window into the geometry of the view in it:
/// one row and one column of border are taken off each edge.
pub fn translate(window_width: i32, window_height: i32) -> (size: Geometry)
    requires
        window_width - BORDER_CELLS >= i32::MIN,
        window_height - BORDER_CELLS >= i32::MIN,
    ensures
        size == view_geometry(window_width - 2, window_height - 2),
        size.width == window_width - 2,
        size.height == window_height - 2,
        size.is_cell_based(),
        window_width >= 3 ==> size.width >= 1,
        window_height >= 3 ==> size.height >= 1,
{
    new_size_info(window_width - BORDER_CELLS, window_height - BORDER_CELLS)
}

/// A grid laid out by the geometry of a window never exceeds the interior
/// of that window: it has as many columns and lines as the window has
/// inside its border.
pub proof fn lemma_view_fits_interior(window_width: int, window_height: int)
    requires
        3 <= window_width <= i32::MAX,
        3 <= window_height <= i32::MAX,
    ensures
        view_geometry(window_width - 2, window_height - 2).columns() == window_width - 2,
        view_geometry(window_width - 2, window_height - 2).lines() == window_height - 2,
        1 <= view_geometry(window_width - 2, window_height - 2).width <= window_width - 2,
        1 <= view_geometry(window_width - 2, window_height - 2).height <= window_height - 2,
{
}

} // verus!
