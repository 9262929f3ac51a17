//! The plain renderer interface, whose hooks receive row, column and line
//! indices, and the renderers built on it.

pub mod render;
pub mod md_pipe;
pub mod md_simple;
pub mod minimal;
pub mod driver;
