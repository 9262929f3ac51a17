//! Table renderers for markdown output.

pub mod pipe;
pub mod ws_trim;
pub mod multiline;
pub mod grid;
