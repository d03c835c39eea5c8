//! The core of a terminal-in-terminal viewer: the geometry of the bordered
//! view, the reduction of terminal colours to a small palette of colour
//! pairs, the frame painted for a grid of cells, and the decisions of the
//! polling loop that ties a pseudo-terminal to a keyboard and a window.

pub mod encode;
pub mod geometry;
pub mod grid;
pub mod palette;
pub mod render;
pub mod report;
pub mod session;
pub mod window;
