//! A table renderer with minimal decoration: cells separated by one space.

use vstd::prelude::*;

use crate::context::{CellContext, RenderContext};
use crate::features::{Features, StrWidth, WidthContribution};
use crate::driver::{Hook, Part};
use crate::render::{formatted_cell_line, lemma_formatted_line_fills_cell, newline, spec_ellipsis, spec_formatted_cell_line, Renderer};
use crate::cell::{spec_cell_layout, spec_cell_line, spec_layout_columns};
use crate::text_buf::char_string;

verus! {

/// A table renderer that separates cells by a single space and draws nothing
/// else.
#[derive(Debug, Clone, Copy)]
pub struct MinimalRenderer;

impl MinimalRenderer {
    /// Constructs a new `MinimalRenderer`.
    pub fn new() -> (r: MinimalRenderer)
        ensures
            r == MinimalRenderer,
    {
        MinimalRenderer
    }
}

impl Default for MinimalRenderer {
    /// The same as `new`.
    fn default() -> (r: MinimalRenderer)
        ensures
            r == MinimalRenderer,
    {
        MinimalRenderer::new()
    }
}

impl Renderer for MinimalRenderer {
    /// Text is measured by its unicode display width.
    open spec fn spec_width_fn(&self) -> Option<StrWidth> {
        Some(StrWidth::UnicodeDisplayWidth)
    }

    /// The extra width every column is padded with.
    open spec fn spec_extra_width(&self) -> usize {
        0
    }

    /// Whether each data cell's text is put on one line: rows may span several lines.
    open spec fn spec_single_line_cells(&self) -> bool {
        false
    }

    open spec fn spec_writes(
        &self,
        hook: Hook,
        part: Part,
        ctx: RenderContext,
        cell: Option<CellContext>,
        out: Seq<char>,
        after: Self,
    ) -> bool {
        match hook {
            Hook::Init => out == Seq::<char>::empty() && after == *self,
            Hook::TableStart => out == Seq::<char>::empty() && after == *self,
            Hook::TableEnd => out == Seq::<char>::empty() && after == *self,
            Hook::SectionStart => out == Seq::<char>::empty() && after == *self,
            Hook::SectionEnd => out == Seq::<char>::empty() && after == *self,
            Hook::RowStart => out == Seq::<char>::empty() && after == *self,
            Hook::RowEnd => out == Seq::<char>::empty() && after == *self,
            Hook::CellStart => out == Seq::<char>::empty() && after == *self,
            Hook::CellEnd => out == Seq::<char>::empty() && after == *self,
            Hook::LineStart => out == Seq::<char>::empty() && after == *self,
            Hook::LineEnd => out == seq!['\n'] && after == *self,
            Hook::CellLineStart => out == Seq::<char>::empty() && after == *self,
            Hook::CellLineEnd => (out == if ctx.spec_is_last_column() { Seq::empty() } else { seq![' '] }) && (after == *self),
            Hook::CellLine => match cell {
                Some(c) => out == spec_formatted_cell_line(c) && after == *self,
                None => false,
            },
        }
    }

    /// The default features: headers only.
    fn features(&self) -> (f: Features)
        ensures
            f.flags.0 == 1,
            f.str_width_fn == Some(StrWidth::UnicodeDisplayWidth),
            f.width_contribution_fn == Some(WidthContribution::Interspersed),
            f.extra_column_width == 0,
            f.late_format_fn is None,
    {
        Features::default_features()
    }

    /// One space after every cell line but the last of a line.
    fn write_data_cell_line_end(&mut self, ctx: &RenderContext) -> (s: String)
        ensures
            s@ == if ctx.spec_is_last_column() { Seq::empty() } else { seq![' '] },
    {
        if ctx.is_last_column() {
            return String::new();
        }
        char_string(' ')
    }

    /// The plain cell layout.
    fn write_data_cell_line(&mut self, ctx: &RenderContext, cell: &CellContext) -> (s: String) {
        formatted_cell_line(cell)
    }

    /// A line break.
    fn write_data_line_end(&mut self, ctx: &RenderContext) -> (s: String) {
        newline()
    }

    /// Nothing before a data cell line.
    fn write_data_cell_line_start(&mut self, ctx: &RenderContext) -> (s: String) {
        String::new()
    }

    fn init(&mut self, ctx: &RenderContext) {
    }

    fn write_table_start(&mut self, ctx: &RenderContext) -> (s: String) {
        String::new()
    }

    fn write_table_end(&mut self, ctx: &RenderContext) -> (s: String) {
        String::new()
    }

    fn write_header_cell_line(&mut self, ctx: &RenderContext, cell: &CellContext) -> (s: String) {
        self.write_data_cell_line(ctx, cell)
    }

    fn write_footer_cell_line(&mut self, ctx: &RenderContext, cell: &CellContext) -> (s: String) {
        self.write_data_cell_line(ctx, cell)
    }

    fn write_header_start(&mut self, ctx: &RenderContext) -> (s: String) {
        String::new()
    }

    fn write_header_end(&mut self, ctx: &RenderContext) -> (s: String) {
        String::new()
    }

    fn write_data_start(&mut self, ctx: &RenderContext) -> (s: String) {
        String::new()
    }

    fn write_data_end(&mut self, ctx: &RenderContext) -> (s: String) {
        String::new()
    }

    fn write_footer_start(&mut self, ctx: &RenderContext) -> (s: String) {
        String::new()
    }

    fn write_footer_end(&mut self, ctx: &RenderContext) -> (s: String) {
        String::new()
    }

    fn write_header_row_start(&mut self, ctx: &RenderContext) -> (s: String) {
        String::new()
    }

    fn write_data_row_start(&mut self, ctx: &RenderContext) -> (s: String) {
        String::new()
    }

    fn write_footer_row_start(&mut self, ctx: &RenderContext) -> (s: String) {
        String::new()
    }

    fn write_header_row_end(&mut self, ctx: &RenderContext) -> (s: String) {
        String::new()
    }

    fn write_data_row_end(&mut self, ctx: &RenderContext) -> (s: String) {
        String::new()
    }

    fn write_footer_row_end(&mut self, ctx: &RenderContext) -> (s: String) {
        String::new()
    }

    fn write_header_cell_start(&mut self, ctx: &RenderContext) -> (s: String) {
        String::new()
    }

    fn write_data_cell_start(&mut self, ctx: &RenderContext) -> (s: String) {
        String::new()
    }

    fn write_footer_cell_start(&mut self, ctx: &RenderContext) -> (s: String) {
        String::new()
    }

    fn write_header_cell_end(&mut self, ctx: &RenderContext) -> (s: String) {
        String::new()
    }

    fn write_data_cell_end(&mut self, ctx: &RenderContext) -> (s: String) {
        String::new()
    }

    fn write_footer_cell_end(&mut self, ctx: &RenderContext) -> (s: String) {
        String::new()
    }

    fn write_header_line_start(&mut self, ctx: &RenderContext) -> (s: String) {
        String::new()
    }

    fn write_data_line_start(&mut self, ctx: &RenderContext) -> (s: String) {
        String::new()
    }

    fn write_footer_line_start(&mut self, ctx: &RenderContext) -> (s: String) {
        String::new()
    }

    fn write_header_line_end(&mut self, ctx: &RenderContext) -> (s: String) {
        self.write_data_line_end(ctx)
    }

    fn write_footer_line_end(&mut self, ctx: &RenderContext) -> (s: String) {
        self.write_data_line_end(ctx)
    }

    fn write_header_cell_line_start(&mut self, ctx: &RenderContext) -> (s: String) {
        self.write_data_cell_line_start(ctx)
    }

    fn write_footer_cell_line_start(&mut self, ctx: &RenderContext) -> (s: String) {
        self.write_data_cell_line_start(ctx)
    }

    fn write_header_cell_line_end(&mut self, ctx: &RenderContext) -> (s: String) {
        self.write_data_cell_line_end(ctx)
    }

    fn write_footer_cell_line_end(&mut self, ctx: &RenderContext) -> (s: String) {
        self.write_data_cell_line_end(ctx)
    }
}


/// Every cell line of this renderer, in the header, the data and the footer,
/// is written alike, and measured text is laid out to exactly the width of
/// its cell, so every line of the table has the same width.
pub proof fn lemma_minimal_cell_lines_fill_cells(r: MinimalRenderer, part: Part, ctx: RenderContext, cell: CellContext, out: Seq<char>, after: MinimalRenderer)
    requires
        r.spec_writes(Hook::CellLine, part, ctx, Some(cell), out, after),
    ensures
        r.spec_writes(Hook::CellLine, Part::Data, ctx, Some(cell), out, after),
        r.spec_writes(Hook::CellLine, Part::Header, ctx, Some(cell), out, after),
        r.spec_writes(Hook::CellLine, Part::Footer, ctx, Some(cell), out, after),
        after == r,
        cell.text_width matches Some(w) ==> ({
            let layout = spec_cell_layout(cell.text@, w, cell.cell_width, cell.desc.horz_align);
            &&& out == spec_cell_line(layout, spec_ellipsis())
            &&& spec_layout_columns(layout) == cell.cell_width
        }),
        cell.text_width is None ==> out == cell.text@,
{
    lemma_formatted_line_fills_cell(cell);
}

} // verus!
