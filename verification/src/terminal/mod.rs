//! Table renderers for terminal output.

pub mod line_style;
pub mod box_tile;
pub mod box_grid;
pub mod minimal;
pub mod debug;
