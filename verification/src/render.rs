//! The renderer interface: hooks the table driver calls, in order, to produce
//! the text of a table. Each hook returns the text it contributes.

use vstd::prelude::*;

use crate::cell::{lemma_cell_layout_fills_cell, spec_cell_layout, spec_cell_line, spec_layout_columns, write_cell_formatted};
use crate::context::{CellContext, RenderContext};
use crate::driver::{Hook, Part};
use crate::features::{Features, StrWidth};
use crate::text_buf::char_string;

verus! {

/// The ellipsis that marks truncated cell text.
pub open spec fn spec_ellipsis() -> Seq<char> {
    seq!['…']
}

/// The text of one cell line as the default hook lays it out: the text as it
/// is when its width is unknown, otherwise truncated and padded to the cell
/// width with `…` marking each cut side.
pub open spec fn spec_formatted_cell_line(cell: CellContext) -> Seq<char> {
    match cell.text_width {
        None => cell.text@,
        Some(w) => spec_cell_line(
            spec_cell_layout(cell.text@, w, cell.cell_width, cell.desc.horz_align),
            spec_ellipsis(),
        ),
    }
}

/// The default cell line of measured text fills its cell exactly: its
/// padding, ellipses and kept text together cover the cell's width.
pub proof fn lemma_formatted_line_fills_cell(cell: CellContext)
    ensures
        cell.text_width matches Some(w) ==> ({
            let layout = spec_cell_layout(cell.text@, w, cell.cell_width, cell.desc.horz_align);
            &&& spec_formatted_cell_line(cell) == spec_cell_line(layout, spec_ellipsis())
            &&& spec_layout_columns(layout) == cell.cell_width
        }),
{
    if let Some(w) = cell.text_width {
        lemma_cell_layout_fills_cell(cell.text@, w, cell.cell_width, cell.desc.horz_align);
    }
}

/// Lays out one cell line as the default hook does.
pub fn formatted_cell_line(cell: &CellContext) -> (s: String)
    requires
        cell.spec_measured(),
    ensures
        s@ == spec_formatted_cell_line(*cell),
{
    match cell.text_width {
        None => String::from_str(cell.text),
        Some(w) => {
            let ellipsis = char_string('…');
            write_cell_formatted(cell.text, w, cell.cell_width, cell.desc.horz_align, ellipsis.as_str())
        },
    }
}

/// A line break.
pub fn newline() -> (s: String)
    ensures
        s@ == seq!['\n'],
{
    char_string('\n')
}

/// Provides the hooks needed to implement a table renderer. The driver calls
/// them in the order of the table's parts and concatenates what they return.
pub trait Renderer: Sized {
    /// Whether the hook for `hook` in `part` of the table, called with `ctx`
    /// (and, for a cell line, with `cell`), may write `out` and leave the
    /// renderer as `after`. Every hook's contract is stated through it, and so
    /// is what the driver renders.
    spec fn spec_writes(
        &self,
        hook: Hook,
        part: Part,
        ctx: RenderContext,
        cell: Option<CellContext>,
        out: Seq<char>,
        after: Self,
    ) -> bool;

    /// Whether the renderer's rows are single lines, so that each data cell's
    /// text is put on one line.
    spec fn spec_single_line_cells(&self) -> bool;

    /// How the renderer measures text for column widths, if it does.
    spec fn spec_width_fn(&self) -> Option<StrWidth>;

    /// The extra width the renderer pads every column with.
    spec fn spec_extra_width(&self) -> usize;

    /// Returns the supported features for the renderer.
    fn features(&self) -> (f: Features)
        ensures
            f.single_line_cells == self.spec_single_line_cells(),
            f.str_width_fn == self.spec_width_fn(),
            f.extra_column_width == self.spec_extra_width(),
    ;

    /// Initializes the renderer. Called before any rendering begins.
    fn init(&mut self, ctx: &RenderContext)
        ensures
            old(self).spec_writes(Hook::Init, Part::Data, *ctx, None, Seq::empty(), *final(self)),
    ;

    /// Hook for the start of the table.
    fn write_table_start(&mut self, ctx: &RenderContext) -> (s: String)
        ensures
            old(self).spec_writes(Hook::TableStart, Part::Data, *ctx, None, s@, *final(self)),
    ;

    /// Hook for the end of the table.
    fn write_table_end(&mut self, ctx: &RenderContext) -> (s: String)
        ensures
            old(self).spec_writes(Hook::TableEnd, Part::Data, *ctx, None, s@, *final(self)),
    ;

    /// Hook for a single cell's line in a header row.
    fn write_header_cell_line(&mut self, ctx: &RenderContext, cell: &CellContext) -> (s: String)
        requires
            cell.spec_measured(),
        ensures
            old(self).spec_writes(Hook::CellLine, Part::Header, *ctx, Some(*cell), s@, *final(self)),
    ;

    /// Hook for a single cell's line in a data row.
    fn write_data_cell_line(&mut self, ctx: &RenderContext, cell: &CellContext) -> (s: String)
        requires
            cell.spec_measured(),
        ensures
            old(self).spec_writes(Hook::CellLine, Part::Data, *ctx, Some(*cell), s@, *final(self)),
    ;

    /// Hook for a single cell's line in a footer row.
    fn write_footer_cell_line(&mut self, ctx: &RenderContext, cell: &CellContext) -> (s: String)
        requires
            cell.spec_measured(),
        ensures
            old(self).spec_writes(Hook::CellLine, Part::Footer, *ctx, Some(*cell), s@, *final(self)),
    ;

    /// Hook for the start of the header.
    fn write_header_start(&mut self, ctx: &RenderContext) -> (s: String)
        ensures
            old(self).spec_writes(Hook::SectionStart, Part::Header, *ctx, None, s@, *final(self)),
    ;

    /// Hook for the end of the header.
    fn write_header_end(&mut self, ctx: &RenderContext) -> (s: String)
        ensures
            old(self).spec_writes(Hook::SectionEnd, Part::Header, *ctx, None, s@, *final(self)),
    ;

    /// Hook for the start of the data.
    fn write_data_start(&mut self, ctx: &RenderContext) -> (s: String)
        ensures
            old(self).spec_writes(Hook::SectionStart, Part::Data, *ctx, None, s@, *final(self)),
    ;

    /// Hook for the end of the data.
    fn write_data_end(&mut self, ctx: &RenderContext) -> (s: String)
        ensures
            old(self).spec_writes(Hook::SectionEnd, Part::Data, *ctx, None, s@, *final(self)),
    ;

    /// Hook for the start of the footer.
    fn write_footer_start(&mut self, ctx: &RenderContext) -> (s: String)
        ensures
            old(self).spec_writes(Hook::SectionStart, Part::Footer, *ctx, None, s@, *final(self)),
    ;

    /// Hook for the end of the footer.
    fn write_footer_end(&mut self, ctx: &RenderContext) -> (s: String)
        ensures
            old(self).spec_writes(Hook::SectionEnd, Part::Footer, *ctx, None, s@, *final(self)),
    ;

    /// Hook for the start of a header row.
    fn write_header_row_start(&mut self, ctx: &RenderContext) -> (s: String)
        ensures
            old(self).spec_writes(Hook::RowStart, Part::Header, *ctx, None, s@, *final(self)),
    ;

    /// Hook for the start of a data row.
    fn write_data_row_start(&mut self, ctx: &RenderContext) -> (s: String)
        ensures
            old(self).spec_writes(Hook::RowStart, Part::Data, *ctx, None, s@, *final(self)),
    ;

    /// Hook for the start of a footer row.
    fn write_footer_row_start(&mut self, ctx: &RenderContext) -> (s: String)
        ensures
            old(self).spec_writes(Hook::RowStart, Part::Footer, *ctx, None, s@, *final(self)),
    ;

    /// Hook for the end of a header row.
    fn write_header_row_end(&mut self, ctx: &RenderContext) -> (s: String)
        ensures
            old(self).spec_writes(Hook::RowEnd, Part::Header, *ctx, None, s@, *final(self)),
    ;

    /// Hook for the end of a data row.
    fn write_data_row_end(&mut self, ctx: &RenderContext) -> (s: String)
        ensures
            old(self).spec_writes(Hook::RowEnd, Part::Data, *ctx, None, s@, *final(self)),
    ;

    /// Hook for the end of a footer row.
    fn write_footer_row_end(&mut self, ctx: &RenderContext) -> (s: String)
        ensures
            old(self).spec_writes(Hook::RowEnd, Part::Footer, *ctx, None, s@, *final(self)),
    ;

    /// Hook for the start of a header cell.
    fn write_header_cell_start(&mut self, ctx: &RenderContext) -> (s: String)
        ensures
            old(self).spec_writes(Hook::CellStart, Part::Header, *ctx, None, s@, *final(self)),
    ;

    /// Hook for the start of a data cell.
    fn write_data_cell_start(&mut self, ctx: &RenderContext) -> (s: String)
        ensures
            old(self).spec_writes(Hook::CellStart, Part::Data, *ctx, None, s@, *final(self)),
    ;

    /// Hook for the start of a footer cell.
    fn write_footer_cell_start(&mut self, ctx: &RenderContext) -> (s: String)
        ensures
            old(self).spec_writes(Hook::CellStart, Part::Footer, *ctx, None, s@, *final(self)),
    ;

    /// Hook for the end of a header cell.
    fn write_header_cell_end(&mut self, ctx: &RenderContext) -> (s: String)
        ensures
            old(self).spec_writes(Hook::CellEnd, Part::Header, *ctx, None, s@, *final(self)),
    ;

    /// Hook for the end of a data cell.
    fn write_data_cell_end(&mut self, ctx: &RenderContext) -> (s: String)
        ensures
            old(self).spec_writes(Hook::CellEnd, Part::Data, *ctx, None, s@, *final(self)),
    ;

    /// Hook for the end of a footer cell.
    fn write_footer_cell_end(&mut self, ctx: &RenderContext) -> (s: String)
        ensures
            old(self).spec_writes(Hook::CellEnd, Part::Footer, *ctx, None, s@, *final(self)),
    ;

    /// Hook for the start of a header line.
    fn write_header_line_start(&mut self, ctx: &RenderContext) -> (s: String)
        ensures
            old(self).spec_writes(Hook::LineStart, Part::Header, *ctx, None, s@, *final(self)),
    ;

    /// Hook for the start of a data line.
    fn write_data_line_start(&mut self, ctx: &RenderContext) -> (s: String)
        ensures
            old(self).spec_writes(Hook::LineStart, Part::Data, *ctx, None, s@, *final(self)),
    ;

    /// Hook for the start of a footer line.
    fn write_footer_line_start(&mut self, ctx: &RenderContext) -> (s: String)
        ensures
            old(self).spec_writes(Hook::LineStart, Part::Footer, *ctx, None, s@, *final(self)),
    ;

    /// Hook for the end of a header line.
    fn write_header_line_end(&mut self, ctx: &RenderContext) -> (s: String)
        ensures
            old(self).spec_writes(Hook::LineEnd, Part::Header, *ctx, None, s@, *final(self)),
    ;

    /// Hook for the end of a data line.
    fn write_data_line_end(&mut self, ctx: &RenderContext) -> (s: String)
        ensures
            old(self).spec_writes(Hook::LineEnd, Part::Data, *ctx, None, s@, *final(self)),
    ;

    /// Hook for the end of a footer line.
    fn write_footer_line_end(&mut self, ctx: &RenderContext) -> (s: String)
        ensures
            old(self).spec_writes(Hook::LineEnd, Part::Footer, *ctx, None, s@, *final(self)),
    ;

    /// Hook for the start of a header cell line.
    fn write_header_cell_line_start(&mut self, ctx: &RenderContext) -> (s: String)
        ensures
            old(self).spec_writes(Hook::CellLineStart, Part::Header, *ctx, None, s@, *final(self)),
    ;

    /// Hook for the start of a data cell line.
    fn write_data_cell_line_start(&mut self, ctx: &RenderContext) -> (s: String)
        ensures
            old(self).spec_writes(Hook::CellLineStart, Part::Data, *ctx, None, s@, *final(self)),
    ;

    /// Hook for the start of a footer cell line.
    fn write_footer_cell_line_start(&mut self, ctx: &RenderContext) -> (s: String)
        ensures
            old(self).spec_writes(Hook::CellLineStart, Part::Footer, *ctx, None, s@, *final(self)),
    ;

    /// Hook for the end of a header cell line.
    fn write_header_cell_line_end(&mut self, ctx: &RenderContext) -> (s: String)
        ensures
            old(self).spec_writes(Hook::CellLineEnd, Part::Header, *ctx, None, s@, *final(self)),
    ;

    /// Hook for the end of a data cell line.
    fn write_data_cell_line_end(&mut self, ctx: &RenderContext) -> (s: String)
        ensures
            old(self).spec_writes(Hook::CellLineEnd, Part::Data, *ctx, None, s@, *final(self)),
    ;

    /// Hook for the end of a footer cell line.
    fn write_footer_cell_line_end(&mut self, ctx: &RenderContext) -> (s: String)
        ensures
            old(self).spec_writes(Hook::CellLineEnd, Part::Footer, *ctx, None, s@, *final(self)),
    ;
}

} // verus!
