//! A plain renderer with minimal decoration: cells separated by one space.

use vstd::prelude::*;
use vstd::utf8::encode_utf8;

use vstd::string::StringSliceAdditionalSpecFns;

use crate::align::HorzAlign;
use crate::basic::render::{padded, spec_padded, Features, Renderer};
use crate::render::newline;
use crate::collate::ColSpec;
use crate::driver::{Hook, Part};
use crate::text_buf::char_string;

verus! {

/// A renderer that separates cells by a single space and draws nothing else.
#[derive(Debug, Clone, Copy)]
pub struct MinimalRenderer {
    col_final: usize,
}

impl MinimalRenderer {
    /// The index of the last column, as set by `init`.
    pub closed spec fn spec_col_final(&self) -> usize {
        self.col_final
    }

    /// Constructs a new `MinimalRenderer`.
    pub fn new() -> (r: MinimalRenderer)
        ensures
            r.spec_col_final() == 0,
    {
        MinimalRenderer { col_final: 0 }
    }
}

impl Default for MinimalRenderer {
    /// The same as `new`.
    fn default() -> (r: MinimalRenderer)
        ensures
            r.spec_col_final() == 0,
    {
        MinimalRenderer::new()
    }
}

impl Renderer for MinimalRenderer {
    /// Whether the renderer supports multiline cells.
    open spec fn spec_multiline(&self) -> bool {
        true
    }

    open spec fn spec_inits(
        &self,
        column_descs: Seq<ColSpec>,
        row_count: usize,
        column_widths: Seq<usize>,
        after: Self,
    ) -> bool {
        (after.spec_col_final() == if column_widths.len() > 0 {
                (column_widths.len() - 1) as usize
            } else {
                0
            })
    }

    open spec fn spec_writes(
        &self,
        hook: Hook,
        part: Part,
        row: usize,
        col: usize,
        line: usize,
        cell: Option<(Seq<char>, usize, HorzAlign)>,
        out: Seq<char>,
        after: Self,
    ) -> bool {
        match hook {
            Hook::Init => out == Seq::<char>::empty() && after == *self,
            Hook::TableStart => out == Seq::<char>::empty() && after == *self,
            Hook::TableEnd => out == Seq::<char>::empty() && after == *self,
            Hook::SectionStart => out == Seq::<char>::empty() && after == *self,
            Hook::SectionEnd => out == Seq::<char>::empty() && after == *self,
            Hook::RowStart => out == Seq::<char>::empty() && after == *self,
            Hook::RowEnd => out == Seq::<char>::empty() && after == *self,
            Hook::CellStart => out == Seq::<char>::empty() && after == *self,
            Hook::CellEnd => out == Seq::<char>::empty() && after == *self,
            Hook::LineStart => out == Seq::<char>::empty() && after == *self,
            Hook::LineEnd => out == seq!['\n'] && after == *self,
            Hook::CellLineStart => out == Seq::<char>::empty() && after == *self,
            Hook::CellLineEnd => (out == if col == self.spec_col_final() { Seq::empty() } else { seq![' '] }) && (after == *self),
            Hook::CellLine => match cell {
                Some(c) => out == spec_padded(c.0, (encode_utf8(c.0).len() as usize) as nat, c.1, 0, c.2, true) && after == *self,
                None => false,
            },
        }
    }

    /// Multiline cells.
    fn features(&self) -> (f: Features)
        ensures
            f == Features(1),
    {
        Features::multiline()
    }

    fn init(&mut self, column_descs: &[ColSpec], row_count: usize, column_widths: &[usize])
        ensures
            final(self).spec_col_final() == if column_widths@.len() > 0 {
                (column_widths@.len() - 1) as usize
            } else {
                0
            },
    {
        let n = column_widths.len();
        self.col_final = if n > 0 { n - 1 } else { 0 };
    }

    /// One space after every cell line but those of the last column.
    fn write_data_cell_line_end(&mut self, row: usize, col: usize, line: usize) -> (s: String)
        ensures
            s@ == if col == old(self).spec_col_final() { Seq::empty() } else { seq![' '] },
            *final(self) == *old(self),
    {
        if col == self.col_final {
            return String::new();
        }
        char_string(' ')
    }

    /// The text padded to the width by its byte length.
    fn write_data_cell_line(
        &mut self,
        row: usize,
        col: usize,
        line: usize,
        text: &str,
        width: usize,
        horz_align: HorzAlign,
    ) -> (s: String) {
        padded(text, width, 0, horz_align, true)
    }

    /// A line break.
    fn write_data_line_end(&mut self, row: usize, line: usize) -> (s: String) {
        newline()
    }

    /// Nothing before a data cell line.
    fn write_data_cell_line_start(&mut self, row: usize, col: usize, line: usize) -> (s: String) {
        String::new()
    }

    fn write_table_start(&mut self) -> (s: String) {
        String::new()
    }

    fn write_table_end(&mut self) -> (s: String) {
        String::new()
    }

    fn write_header_cell_line(&mut self,
        row: usize,
        col: usize,
        line: usize,
        text: &str,
        width: usize,
        horz_align: HorzAlign,
    ) -> (s: String) {
        self.write_data_cell_line(row, col, line, text, width, horz_align)
    }

    fn write_footer_cell_line(&mut self,
        row: usize,
        col: usize,
        line: usize,
        text: &str,
        width: usize,
        horz_align: HorzAlign,
    ) -> (s: String) {
        self.write_data_cell_line(row, col, line, text, width, horz_align)
    }

    fn write_header_start(&mut self) -> (s: String) {
        String::new()
    }

    fn write_header_end(&mut self) -> (s: String) {
        String::new()
    }

    fn write_data_start(&mut self) -> (s: String) {
        String::new()
    }

    fn write_data_end(&mut self) -> (s: String) {
        String::new()
    }

    fn write_footer_start(&mut self) -> (s: String) {
        String::new()
    }

    fn write_footer_end(&mut self) -> (s: String) {
        String::new()
    }

    fn write_header_row_start(&mut self, row: usize) -> (s: String) {
        String::new()
    }

    fn write_data_row_start(&mut self, row: usize) -> (s: String) {
        String::new()
    }

    fn write_footer_row_start(&mut self, row: usize) -> (s: String) {
        String::new()
    }

    fn write_header_row_end(&mut self, row: usize) -> (s: String) {
        String::new()
    }

    fn write_data_row_end(&mut self, row: usize) -> (s: String) {
        String::new()
    }

    fn write_footer_row_end(&mut self, row: usize) -> (s: String) {
        String::new()
    }

    fn write_header_cell_start(&mut self, row: usize, col: usize) -> (s: String) {
        String::new()
    }

    fn write_data_cell_start(&mut self, row: usize, col: usize) -> (s: String) {
        String::new()
    }

    fn write_footer_cell_start(&mut self, row: usize, col: usize) -> (s: String) {
        String::new()
    }

    fn write_header_cell_end(&mut self, row: usize, col: usize) -> (s: String) {
        String::new()
    }

    fn write_data_cell_end(&mut self, row: usize, col: usize) -> (s: String) {
        String::new()
    }

    fn write_footer_cell_end(&mut self, row: usize, col: usize) -> (s: String) {
        String::new()
    }

    fn write_header_line_start(&mut self, row: usize, line: usize) -> (s: String) {
        String::new()
    }

    fn write_data_line_start(&mut self, row: usize, line: usize) -> (s: String) {
        String::new()
    }

    fn write_footer_line_start(&mut self, row: usize, line: usize) -> (s: String) {
        String::new()
    }

    fn write_header_line_end(&mut self, row: usize, line: usize) -> (s: String) {
        self.write_data_line_end(row, line)
    }

    fn write_footer_line_end(&mut self, row: usize, line: usize) -> (s: String) {
        self.write_data_line_end(row, line)
    }

    fn write_header_cell_line_start(&mut self, row: usize, col: usize, line: usize) -> (s: String) {
        self.write_data_cell_line_start(row, col, line)
    }

    fn write_footer_cell_line_start(&mut self, row: usize, col: usize, line: usize) -> (s: String) {
        self.write_data_cell_line_start(row, col, line)
    }

    fn write_header_cell_line_end(&mut self, row: usize, col: usize, line: usize) -> (s: String) {
        self.write_data_cell_line_end(row, col, line)
    }

    fn write_footer_cell_line_end(&mut self, row: usize, col: usize, line: usize) -> (s: String) {
        self.write_data_cell_line_end(row, col, line)
    }
}


/// Every cell line of this renderer, in the header, the data and the footer,
/// is written alike.
pub proof fn lemma_plain_minimal_cell_lines_alike(
    r: MinimalRenderer,
    part: Part,
    row: usize,
    col: usize,
    line: usize,
    cell: (Seq<char>, usize, HorzAlign),
    out: Seq<char>,
    after: MinimalRenderer,
)
    requires
        r.spec_writes(Hook::CellLine, part, row, col, line, Some(cell), out, after),
    ensures
        r.spec_writes(Hook::CellLine, Part::Data, row, col, line, Some(cell), out, after),
        r.spec_writes(Hook::CellLine, Part::Header, row, col, line, Some(cell), out, after),
        r.spec_writes(Hook::CellLine, Part::Footer, row, col, line, Some(cell), out, after),
        after == r,
{
}

} // verus!
