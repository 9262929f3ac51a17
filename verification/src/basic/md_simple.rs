//! A plain renderer that draws tables in the pandoc-markdown 'simple' style.

use vstd::prelude::*;
use vstd::utf8::encode_utf8;
use vstd::string::StringSliceAdditionalSpecFns;

use crate::align::HorzAlign;
use crate::basic::md_pipe::spec_any_header;
use crate::basic::render::{padded, spec_padded, Features, Renderer};
use crate::render::newline;
use crate::cell::{push_repeat, push_spaces, spec_repeat, spec_spaces};
use crate::collate::ColSpec;
use crate::driver::{Hook, Part};
use crate::markdown::pipe::lemma_dashes_add;
use crate::text_buf::{char_string, push_char};

verus! {

/// A plain renderer that draws tables in the pandoc-markdown 'simple' style.
/// It learns the column widths and whether headers exist in `init`.
#[derive(Debug, Clone)]
pub struct MarkdownSimpleRenderer {
    column_widths: Vec<usize>,
    headers_provided: bool,
    column_padding: u8,
    extra_width: u8,
    pad_trailing_column: bool,
}

impl MarkdownSimpleRenderer {
    /// The column widths learned in `init`.
    pub closed spec fn spec_column_widths(&self) -> Seq<usize> {
        self.column_widths@
    }

    /// Whether some column has a header, as learned in `init`.
    pub closed spec fn spec_headers_provided(&self) -> bool {
        self.headers_provided
    }

    /// The spaces between columns, beyond the first.
    pub closed spec fn spec_column_padding(&self) -> u8 {
        self.column_padding
    }

    /// The extra width added to every column.
    pub closed spec fn spec_extra_width(&self) -> u8 {
        self.extra_width
    }

    /// Whether the last column is padded to its width.
    pub closed spec fn spec_pad_trailing_column(&self) -> bool {
        self.pad_trailing_column
    }

    /// The gap between columns: spaces over the padding and one more.
    pub open spec fn spec_gap(&self) -> Seq<char> {
        spec_spaces(self.spec_column_padding() as nat) + seq![' ']
    }

    /// The dividing rule over the first `k` columns: dashes over each column
    /// and its extra width, with gaps between neighbouring columns.
    pub open spec fn spec_rule_cols(&self, k: nat) -> Seq<char>
        decreases k,
    {
        if k == 0 {
            Seq::empty()
        } else {
            let widths = self.spec_column_widths();
            self.spec_rule_cols((k - 1) as nat) + spec_repeat(
                seq!['-'],
                (widths[k - 1] + self.spec_extra_width()) as nat,
            ) + (if k < widths.len() {
                self.spec_gap()
            } else {
                Seq::empty()
            })
        }
    }

    /// The dividing rule and a line break, or nothing without columns.
    pub open spec fn spec_rule(&self) -> Seq<char> {
        if self.spec_column_widths().len() == 0 {
            Seq::empty()
        } else {
            self.spec_rule_cols(self.spec_column_widths().len()) + seq!['\n']
        }
    }

    /// What follows a cell line: nothing in the last column, the gap
    /// elsewhere.
    pub open spec fn spec_cell_line_end(&self, col: usize) -> Seq<char> {
        if col + 1 == self.spec_column_widths().len() {
            Seq::empty()
        } else {
            self.spec_gap()
        }
    }

    /// Constructs a new renderer: no columns learned, no padding, two columns
    /// of extra width, a padded trailing column.
    pub fn new() -> (r: MarkdownSimpleRenderer)
        ensures
            r.spec_column_widths().len() == 0,
            !r.spec_headers_provided(),
            r.spec_column_padding() == 0,
            r.spec_extra_width() == 2,
            r.spec_pad_trailing_column(),
    {
        MarkdownSimpleRenderer {
            column_widths: Vec::new(),
            headers_provided: false,
            column_padding: 0,
            extra_width: 2,
            pad_trailing_column: true,
        }
    }

    /// Sets the column padding and returns the renderer.
    pub fn with_column_padding(self, column_padding: u8) -> (r: MarkdownSimpleRenderer)
        ensures
            r.spec_column_padding() == column_padding,
            r.spec_column_widths() == self.spec_column_widths(),
            r.spec_headers_provided() == self.spec_headers_provided(),
            r.spec_extra_width() == self.spec_extra_width(),
            r.spec_pad_trailing_column() == self.spec_pad_trailing_column(),
    {
        MarkdownSimpleRenderer { column_padding, ..self }
    }

    /// Sets the extra column width and returns the renderer.
    pub fn with_extra_width(self, extra_width: u8) -> (r: MarkdownSimpleRenderer)
        ensures
            r.spec_extra_width() == extra_width,
            r.spec_column_widths() == self.spec_column_widths(),
            r.spec_headers_provided() == self.spec_headers_provided(),
            r.spec_column_padding() == self.spec_column_padding(),
            r.spec_pad_trailing_column() == self.spec_pad_trailing_column(),
    {
        MarkdownSimpleRenderer { extra_width, ..self }
    }

    /// Sets whether the last column is padded and returns the renderer.
    pub fn with_padded_trailing_column(self, pad_trailing_column: bool) -> (r: MarkdownSimpleRenderer)
        ensures
            r.spec_pad_trailing_column() == pad_trailing_column,
            r.spec_column_widths() == self.spec_column_widths(),
            r.spec_headers_provided() == self.spec_headers_provided(),
            r.spec_column_padding() == self.spec_column_padding(),
            r.spec_extra_width() == self.spec_extra_width(),
    {
        MarkdownSimpleRenderer { pad_trailing_column, ..self }
    }

    /// The gap between columns.
    fn gap(&self) -> (s: String)
        ensures
            s@ == self.spec_gap(),
    {
        let mut s = String::new();
        push_spaces(&mut s, self.column_padding as usize);
        push_char(&mut s, ' ');
        s
    }

    /// Draws the dividing rule.
    fn write_rule(&self) -> (s: String)
        ensures
            s@ == self.spec_rule(),
    {
        let n = self.column_widths.len();
        if n == 0 {
            return String::new();
        }
        let dash = char_string('-');
        let g = self.gap();
        let mut out = String::new();
        let mut i: usize = 0;
        assert(out@ =~= self.spec_rule_cols(0));
        while i < n
            invariant
                i <= n,
                n == self.spec_column_widths().len(),
                dash@ == seq!['-'],
                g@ == self.spec_gap(),
                out@ == self.spec_rule_cols(i as nat),
            decreases n - i,
        {
            let w = self.column_widths[i];
            push_repeat(&mut out, dash.as_str(), w);
            push_repeat(&mut out, dash.as_str(), self.extra_width as usize);
            proof {
                lemma_dashes_add(w as nat, self.extra_width as nat);
            }
            if i + 1 < n {
                out.append(g.as_str());
            }
            i = i + 1;
            assert(out@ =~= self.spec_rule_cols(i as nat));
        }
        push_char(&mut out, '\n');
        out
    }
}

impl Default for MarkdownSimpleRenderer {
    /// The same as `new`.
    fn default() -> (r: MarkdownSimpleRenderer)
        ensures
            r.spec_column_widths().len() == 0,
            !r.spec_headers_provided(),
            r.spec_column_padding() == 0,
            r.spec_extra_width() == 2,
            r.spec_pad_trailing_column(),
    {
        MarkdownSimpleRenderer::new()
    }
}

impl Renderer for MarkdownSimpleRenderer {
    /// Whether the renderer supports multiline cells.
    open spec fn spec_multiline(&self) -> bool {
        false
    }

    open spec fn spec_inits(
        &self,
        column_descs: Seq<ColSpec>,
        row_count: usize,
        column_widths: Seq<usize>,
        after: Self,
    ) -> bool {
        (after.spec_column_widths() == column_widths) && (after.spec_headers_provided() == spec_any_header(column_descs)) && (after.spec_column_padding() == self.spec_column_padding()) && (after.spec_extra_width() == self.spec_extra_width()) && (after.spec_pad_trailing_column() == self.spec_pad_trailing_column())
    }

    open spec fn spec_writes(
        &self,
        hook: Hook,
        part: Part,
        row: usize,
        col: usize,
        line: usize,
        cell: Option<(Seq<char>, usize, HorzAlign)>,
        out: Seq<char>,
        after: Self,
    ) -> bool {
        match hook {
            Hook::Init => out == Seq::<char>::empty() && after == *self,
            Hook::TableStart => out == Seq::<char>::empty() && after == *self,
            Hook::TableEnd => out == Seq::<char>::empty() && after == *self,
            Hook::SectionStart => match part {
                Part::Header => out == Seq::<char>::empty() && after == *self,
                Part::Data => (out == self.spec_rule()) && (after == *self),
                Part::Footer => out == Seq::<char>::empty() && after == *self,
            },
            Hook::SectionEnd => match part {
                Part::Header => out == Seq::<char>::empty() && after == *self,
                Part::Data => (out == if self.spec_headers_provided() { Seq::empty() } else { self.spec_rule() }) && (after == *self),
                Part::Footer => out == Seq::<char>::empty() && after == *self,
            },
            Hook::RowStart => out == Seq::<char>::empty() && after == *self,
            Hook::RowEnd => out == Seq::<char>::empty() && after == *self,
            Hook::CellStart => out == Seq::<char>::empty() && after == *self,
            Hook::CellEnd => out == Seq::<char>::empty() && after == *self,
            Hook::LineStart => out == Seq::<char>::empty() && after == *self,
            Hook::LineEnd => out == seq!['\n'] && after == *self,
            Hook::CellLineStart => out == Seq::<char>::empty() && after == *self,
            Hook::CellLineEnd => (out == self.spec_cell_line_end(col)) && (after == *self),
            Hook::CellLine => match cell {
                Some(c) => (out == spec_padded(
                c.0,
                (encode_utf8(c.0).len() as usize) as nat,
                c.1,
                self.spec_extra_width() as nat,
                c.2,
                self.spec_pad_trailing_column() || col + 1 < self.spec_column_widths().len(),
            )) && (after == *self),
                None => false,
            },
        }
    }

    /// No feature.
    fn features(&self) -> (f: Features)
        ensures
            f == Features(0),
    {
        Features::empty()
    }

    /// Learns the column widths and whether some column has a header.
    fn init(&mut self, column_descs: &[ColSpec], row_count: usize, column_widths: &[usize])
        ensures
            final(self).spec_column_widths() == column_widths@,
            final(self).spec_headers_provided() == spec_any_header(column_descs@),
            final(self).spec_column_padding() == old(self).spec_column_padding(),
            final(self).spec_extra_width() == old(self).spec_extra_width(),
            final(self).spec_pad_trailing_column() == old(self).spec_pad_trailing_column(),
    {
        let mut widths: Vec<usize> = Vec::new();
        let mut k: usize = 0;
        while k < column_widths.len()
            invariant
                k <= column_widths@.len(),
                widths@ == column_widths@.take(k as int),
            decreases column_widths@.len() - k,
        {
            widths.push(column_widths[k]);
            k = k + 1;
            assert(widths@ =~= column_widths@.take(k as int));
        }
        assert(column_widths@.take(column_widths@.len() as int) =~= column_widths@);
        let mut any = false;
        let mut i: usize = 0;
        while i < column_descs.len()
            invariant
                i <= column_descs@.len(),
                any == exists|j: int| 0 <= j < i && (#[trigger] column_descs@[j].header)@.len() > 0,
            decreases column_descs@.len() - i,
        {
            if column_descs[i].header.unicode_len() != 0 {
                any = true;
            }
            i = i + 1;
        }
        self.column_widths = widths;
        self.headers_provided = any;
    }

    /// The text padded to the width plus the extra width, measured by its
    /// byte length, without right padding in an unpadded last column.
    fn write_data_cell_line(
        &mut self,
        row: usize,
        col: usize,
        line: usize,
        text: &str,
        width: usize,
        horz_align: HorzAlign,
    ) -> (s: String)
        ensures
            s@ == spec_padded(
                text@,
                (text.spec_bytes().len() as usize) as nat,
                width,
                old(self).spec_extra_width() as nat,
                horz_align,
                old(self).spec_pad_trailing_column() || col + 1 < old(self).spec_column_widths().len(),
            ),
            *final(self) == *old(self),
    {
        let right = self.pad_trailing_column || (col as u128) + 1 < self.column_widths.len() as u128;
        padded(text, width, self.extra_width as usize, horz_align, right)
    }

    fn write_header_cell_line_end(&mut self, row: usize, col: usize, line: usize) -> (s: String)
        ensures
            s@ == old(self).spec_cell_line_end(col),
            *final(self) == *old(self),
    {
        if (col as u128) + 1 == self.column_widths.len() as u128 {
            return String::new();
        }
        self.gap()
    }

    fn write_data_start(&mut self) -> (s: String)
        ensures
            s@ == old(self).spec_rule(),
            *final(self) == *old(self),
    {
        self.write_rule()
    }

    fn write_data_cell_line_end(&mut self, row: usize, col: usize, line: usize) -> (s: String)
        ensures
            s@ == old(self).spec_cell_line_end(col),
            *final(self) == *old(self),
    {
        if (col as u128) + 1 == self.column_widths.len() as u128 {
            return String::new();
        }
        self.gap()
    }

    /// The dividing rule again when no column has a header.
    fn write_data_end(&mut self) -> (s: String)
        ensures
            s@ == if old(self).spec_headers_provided() { Seq::empty() } else { old(self).spec_rule() },
            *final(self) == *old(self),
    {
        if !self.headers_provided {
            return self.write_rule();
        }
        String::new()
    }

    /// A line break.
    fn write_data_line_end(&mut self, row: usize, line: usize) -> (s: String) {
        newline()
    }

    /// Nothing before a data cell line.
    fn write_data_cell_line_start(&mut self, row: usize, col: usize, line: usize) -> (s: String) {
        String::new()
    }

    fn write_table_start(&mut self) -> (s: String) {
        String::new()
    }

    fn write_table_end(&mut self) -> (s: String) {
        String::new()
    }

    fn write_header_cell_line(&mut self,
        row: usize,
        col: usize,
        line: usize,
        text: &str,
        width: usize,
        horz_align: HorzAlign,
    ) -> (s: String) {
        self.write_data_cell_line(row, col, line, text, width, horz_align)
    }

    fn write_footer_cell_line(&mut self,
        row: usize,
        col: usize,
        line: usize,
        text: &str,
        width: usize,
        horz_align: HorzAlign,
    ) -> (s: String) {
        self.write_data_cell_line(row, col, line, text, width, horz_align)
    }

    fn write_header_start(&mut self) -> (s: String) {
        String::new()
    }

    fn write_header_end(&mut self) -> (s: String) {
        String::new()
    }

    fn write_footer_start(&mut self) -> (s: String) {
        String::new()
    }

    fn write_footer_end(&mut self) -> (s: String) {
        String::new()
    }

    fn write_header_row_start(&mut self, row: usize) -> (s: String) {
        String::new()
    }

    fn write_data_row_start(&mut self, row: usize) -> (s: String) {
        String::new()
    }

    fn write_footer_row_start(&mut self, row: usize) -> (s: String) {
        String::new()
    }

    fn write_header_row_end(&mut self, row: usize) -> (s: String) {
        String::new()
    }

    fn write_data_row_end(&mut self, row: usize) -> (s: String) {
        String::new()
    }

    fn write_footer_row_end(&mut self, row: usize) -> (s: String) {
        String::new()
    }

    fn write_header_cell_start(&mut self, row: usize, col: usize) -> (s: String) {
        String::new()
    }

    fn write_data_cell_start(&mut self, row: usize, col: usize) -> (s: String) {
        String::new()
    }

    fn write_footer_cell_start(&mut self, row: usize, col: usize) -> (s: String) {
        String::new()
    }

    fn write_header_cell_end(&mut self, row: usize, col: usize) -> (s: String) {
        String::new()
    }

    fn write_data_cell_end(&mut self, row: usize, col: usize) -> (s: String) {
        String::new()
    }

    fn write_footer_cell_end(&mut self, row: usize, col: usize) -> (s: String) {
        String::new()
    }

    fn write_header_line_start(&mut self, row: usize, line: usize) -> (s: String) {
        String::new()
    }

    fn write_data_line_start(&mut self, row: usize, line: usize) -> (s: String) {
        String::new()
    }

    fn write_footer_line_start(&mut self, row: usize, line: usize) -> (s: String) {
        String::new()
    }

    fn write_header_line_end(&mut self, row: usize, line: usize) -> (s: String) {
        self.write_data_line_end(row, line)
    }

    fn write_footer_line_end(&mut self, row: usize, line: usize) -> (s: String) {
        self.write_data_line_end(row, line)
    }

    fn write_header_cell_line_start(&mut self, row: usize, col: usize, line: usize) -> (s: String) {
        self.write_data_cell_line_start(row, col, line)
    }

    fn write_footer_cell_line_start(&mut self, row: usize, col: usize, line: usize) -> (s: String) {
        self.write_data_cell_line_start(row, col, line)
    }

    fn write_footer_cell_line_end(&mut self, row: usize, col: usize, line: usize) -> (s: String) {
        self.write_data_cell_line_end(row, col, line)
    }
}


/// Every cell line of this renderer, in the header, the data and the footer,
/// is written alike.
pub proof fn lemma_plain_simple_cell_lines_alike(
    r: MarkdownSimpleRenderer,
    part: Part,
    row: usize,
    col: usize,
    line: usize,
    cell: (Seq<char>, usize, HorzAlign),
    out: Seq<char>,
    after: MarkdownSimpleRenderer,
)
    requires
        r.spec_writes(Hook::CellLine, part, row, col, line, Some(cell), out, after),
    ensures
        r.spec_writes(Hook::CellLine, Part::Data, row, col, line, Some(cell), out, after),
        r.spec_writes(Hook::CellLine, Part::Header, row, col, line, Some(cell), out, after),
        r.spec_writes(Hook::CellLine, Part::Footer, row, col, line, Some(cell), out, after),
        after == r,
{
}

} // verus!
