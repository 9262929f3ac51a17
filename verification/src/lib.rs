//! Table generation: formatting, truncation, alignment and column-width logic
//! for rendering rows of text as tables.

pub mod align;
pub mod text;
pub mod unicode;
pub mod cell;
pub mod style;
pub mod terminal;
pub mod text_buf;
pub mod format;
pub mod row;
pub mod collate;
pub mod wrap;
pub mod split;
pub mod context;
pub mod features;
pub mod render;
pub mod markdown;
pub mod basic;
pub mod sort;
pub mod aggregate;
pub mod table_width;
pub mod driver;
