//! A plain renderer that draws tables in the markdown 'pipe' style.

use vstd::prelude::*;
use vstd::utf8::encode_utf8;
use vstd::string::StringSliceAdditionalSpecFns;

use crate::align::HorzAlign;
use crate::basic::render::{padded, spec_padded, Features, Renderer};
use crate::render::newline;
use crate::collate::ColSpec;
use crate::driver::{Hook, Part};
use crate::markdown::pipe::{
    push_column_sep,
    push_divider_part,
    push_empty_part,
    spec_column_sep,
    spec_divider_part,
    spec_empty_part,
};
use crate::text_buf::push_char;

verus! {

/// Whether some column specification has a header.
pub open spec fn spec_any_header(descs: Seq<ColSpec>) -> bool {
    exists|i: int| 0 <= i < descs.len() && (#[trigger] descs[i].header)@.len() > 0
}

/// The alignment of column `i` among `aligns`, if it has one.
pub open spec fn spec_align_in(aligns: Seq<HorzAlign>, i: int) -> Option<HorzAlign> {
    if 0 <= i < aligns.len() {
        Some(aligns[i])
    } else {
        None
    }
}

/// Returns the alignment of column `i` among `aligns`, if it has one.
pub fn align_in(aligns: &Vec<HorzAlign>, i: usize) -> (a: Option<HorzAlign>)
    ensures
        a == spec_align_in(aligns@, i as int),
{
    if i < aligns.len() {
        Some(aligns[i])
    } else {
        None
    }
}

/// A plain renderer that draws tables in the markdown 'pipe' style. It
/// learns the column widths, alignments and whether headers exist in `init`.
#[derive(Debug, Clone)]
pub struct MarkdownPipeRenderer {
    column_widths: Vec<usize>,
    column_horz_aligns: Vec<HorzAlign>,
    headers_provided: bool,
    column_padding: u8,
    extra_width: u8,
    align_markers: bool,
    header_pipes: bool,
}

impl MarkdownPipeRenderer {
    /// The column widths learned in `init`.
    pub closed spec fn spec_column_widths(&self) -> Seq<usize> {
        self.column_widths@
    }

    /// The column alignments learned in `init`.
    pub closed spec fn spec_column_horz_aligns(&self) -> Seq<HorzAlign> {
        self.column_horz_aligns@
    }

    /// Whether some column has a header, as learned in `init`.
    pub closed spec fn spec_headers_provided(&self) -> bool {
        self.headers_provided
    }

    /// The padding used in column separators.
    pub closed spec fn spec_column_padding(&self) -> u8 {
        self.column_padding
    }

    /// The extra width added to every column.
    pub closed spec fn spec_extra_width(&self) -> u8 {
        self.extra_width
    }

    /// Whether the header divider marks column alignments with `:`.
    pub closed spec fn spec_align_markers(&self) -> bool {
        self.align_markers
    }

    /// Whether the header divider separates columns with `|` (else `+`).
    pub closed spec fn spec_header_pipes(&self) -> bool {
        self.header_pipes
    }

    /// A separator of blanks with this renderer's padding.
    pub open spec fn spec_blank_sep(&self, bias: HorzAlign) -> Seq<char> {
        spec_column_sep(self.spec_column_padding(), bias, '|', ' ', ' ', ' ')
    }

    /// The header divider parts of the first `k` columns.
    pub open spec fn spec_divider_cols(&self, k: nat) -> Seq<char>
        decreases k,
    {
        if k == 0 {
            Seq::empty()
        } else {
            let i = k - 1;
            let widths = self.spec_column_widths();
            let aligns = self.spec_column_horz_aligns();
            self.spec_divider_cols((k - 1) as nat) + spec_divider_part(
                self.spec_column_padding(),
                self.spec_extra_width(),
                if self.spec_align_markers() { ':' } else { '-' },
                if self.spec_header_pipes() { '|' } else { '+' },
                widths[i],
                spec_align_in(aligns, i),
                spec_align_in(aligns, i + 1),
                i == 0,
                i + 1 == widths.len(),
            )
        }
    }

    /// The blank-row parts of the first `k` columns.
    pub open spec fn spec_empty_cols(&self, k: nat) -> Seq<char>
        decreases k,
    {
        if k == 0 {
            Seq::empty()
        } else {
            let widths = self.spec_column_widths();
            self.spec_empty_cols((k - 1) as nat) + spec_empty_part(
                self.spec_column_padding(),
                self.spec_extra_width(),
                widths[k - 1],
                true,
                k == widths.len(),
            )
        }
    }

    /// A row of blank cells.
    pub open spec fn spec_empty_row(&self) -> Seq<char> {
        self.spec_blank_sep(HorzAlign::Left) + self.spec_empty_cols(self.spec_column_widths().len())
            + self.spec_blank_sep(HorzAlign::Right)
    }

    /// What starts the data: nothing without columns; otherwise a blank row
    /// when no column has a header, then the header divider.
    pub open spec fn spec_data_start(&self) -> Seq<char> {
        if self.spec_column_widths().len() == 0 {
            Seq::empty()
        } else {
            (if !self.spec_headers_provided() {
                self.spec_empty_row() + seq!['\n']
            } else {
                Seq::empty()
            }) + self.spec_divider_cols(self.spec_column_widths().len()) + seq!['\n']
        }
    }

    /// Constructs a new renderer: no columns learned, no padding, no extra
    /// width, alignment markers and header pipes.
    pub fn new() -> (r: MarkdownPipeRenderer)
        ensures
            r.spec_column_widths().len() == 0,
            r.spec_column_horz_aligns().len() == 0,
            !r.spec_headers_provided(),
            r.spec_column_padding() == 0,
            r.spec_extra_width() == 0,
            r.spec_align_markers(),
            r.spec_header_pipes(),
    {
        MarkdownPipeRenderer {
            column_widths: Vec::new(),
            column_horz_aligns: Vec::new(),
            headers_provided: false,
            column_padding: 0,
            extra_width: 0,
            align_markers: true,
            header_pipes: true,
        }
    }

    /// Sets the column padding and returns the renderer.
    pub fn with_column_padding(self, column_padding: u8) -> (r: MarkdownPipeRenderer)
        ensures
            r.spec_column_padding() == column_padding,
            r.spec_column_widths() == self.spec_column_widths(),
            r.spec_column_horz_aligns() == self.spec_column_horz_aligns(),
            r.spec_headers_provided() == self.spec_headers_provided(),
            r.spec_extra_width() == self.spec_extra_width(),
            r.spec_align_markers() == self.spec_align_markers(),
            r.spec_header_pipes() == self.spec_header_pipes(),
    {
        MarkdownPipeRenderer { column_padding, ..self }
    }

    /// Sets the extra column width and returns the renderer.
    pub fn with_extra_width(self, extra_width: u8) -> (r: MarkdownPipeRenderer)
        ensures
            r.spec_extra_width() == extra_width,
            r.spec_column_widths() == self.spec_column_widths(),
            r.spec_column_horz_aligns() == self.spec_column_horz_aligns(),
            r.spec_headers_provided() == self.spec_headers_provided(),
            r.spec_column_padding() == self.spec_column_padding(),
            r.spec_align_markers() == self.spec_align_markers(),
            r.spec_header_pipes() == self.spec_header_pipes(),
    {
        MarkdownPipeRenderer { extra_width, ..self }
    }

    /// Sets whether the header divider marks alignments and returns the
    /// renderer.
    pub fn with_alignment_markers(self, align_markers: bool) -> (r: MarkdownPipeRenderer)
        ensures
            r.spec_align_markers() == align_markers,
            r.spec_column_widths() == self.spec_column_widths(),
            r.spec_column_horz_aligns() == self.spec_column_horz_aligns(),
            r.spec_headers_provided() == self.spec_headers_provided(),
            r.spec_column_padding() == self.spec_column_padding(),
            r.spec_extra_width() == self.spec_extra_width(),
            r.spec_header_pipes() == self.spec_header_pipes(),
    {
        MarkdownPipeRenderer { align_markers, ..self }
    }

    /// Sets whether the header divider separates columns with pipes and
    /// returns the renderer.
    pub fn with_header_div_pipes(self, header_pipes: bool) -> (r: MarkdownPipeRenderer)
        ensures
            r.spec_header_pipes() == header_pipes,
            r.spec_column_widths() == self.spec_column_widths(),
            r.spec_column_horz_aligns() == self.spec_column_horz_aligns(),
            r.spec_headers_provided() == self.spec_headers_provided(),
            r.spec_column_padding() == self.spec_column_padding(),
            r.spec_extra_width() == self.spec_extra_width(),
            r.spec_align_markers() == self.spec_align_markers(),
    {
        MarkdownPipeRenderer { header_pipes, ..self }
    }

    /// Draws a row of blank cells.
    fn write_empty_row(&self) -> (s: String)
        ensures
            s@ == self.spec_empty_row(),
    {
        let mut out = String::new();
        push_column_sep(&mut out, self.column_padding, HorzAlign::Left, '|', ' ', ' ', ' ');
        let ghost head = out@;
        let n = self.column_widths.len();
        let mut i: usize = 0;
        assert(head =~= head + self.spec_empty_cols(0));
        while i < n
            invariant
                i <= n,
                n == self.spec_column_widths().len(),
                out@ == head + self.spec_empty_cols(i as nat),
            decreases n - i,
        {
            push_empty_part(&mut out, self.column_padding, self.extra_width, self.column_widths[i], true, i + 1 == n);
            i = i + 1;
        }
        push_column_sep(&mut out, self.column_padding, HorzAlign::Right, '|', ' ', ' ', ' ');
        assert(out@ =~= self.spec_empty_row());
        out
    }
}

impl Default for MarkdownPipeRenderer {
    /// The same as `new`.
    fn default() -> (r: MarkdownPipeRenderer)
        ensures
            r.spec_column_widths().len() == 0,
            r.spec_column_horz_aligns().len() == 0,
            !r.spec_headers_provided(),
            r.spec_column_padding() == 0,
            r.spec_extra_width() == 0,
            r.spec_align_markers(),
            r.spec_header_pipes(),
    {
        MarkdownPipeRenderer::new()
    }
}

impl Renderer for MarkdownPipeRenderer {
    /// Whether the renderer supports multiline cells.
    open spec fn spec_multiline(&self) -> bool {
        false
    }

    open spec fn spec_inits(
        &self,
        column_descs: Seq<ColSpec>,
        row_count: usize,
        column_widths: Seq<usize>,
        after: Self,
    ) -> bool {
        (after.spec_column_widths() == column_widths) && (after.spec_column_horz_aligns().len() == column_descs.len()) && (forall|i: int|
                0 <= i < column_descs.len() ==> #[trigger] after.spec_column_horz_aligns()[i]
                    == column_descs[i].horz_align) && (after.spec_headers_provided() == spec_any_header(column_descs)) && (after.spec_column_padding() == self.spec_column_padding()) && (after.spec_extra_width() == self.spec_extra_width()) && (after.spec_align_markers() == self.spec_align_markers()) && (after.spec_header_pipes() == self.spec_header_pipes())
    }

    open spec fn spec_writes(
        &self,
        hook: Hook,
        part: Part,
        row: usize,
        col: usize,
        line: usize,
        cell: Option<(Seq<char>, usize, HorzAlign)>,
        out: Seq<char>,
        after: Self,
    ) -> bool {
        match hook {
            Hook::Init => out == Seq::<char>::empty() && after == *self,
            Hook::TableStart => out == Seq::<char>::empty() && after == *self,
            Hook::TableEnd => out == Seq::<char>::empty() && after == *self,
            Hook::SectionStart => match part {
                Part::Header => out == Seq::<char>::empty() && after == *self,
                Part::Data => (out == self.spec_data_start()) && (after == *self),
                Part::Footer => out == Seq::<char>::empty() && after == *self,
            },
            Hook::SectionEnd => out == Seq::<char>::empty() && after == *self,
            Hook::RowStart => out == Seq::<char>::empty() && after == *self,
            Hook::RowEnd => out == Seq::<char>::empty() && after == *self,
            Hook::CellStart => out == Seq::<char>::empty() && after == *self,
            Hook::CellEnd => out == Seq::<char>::empty() && after == *self,
            Hook::LineStart => out == Seq::<char>::empty() && after == *self,
            Hook::LineEnd => out == seq!['\n'] && after == *self,
            Hook::CellLineStart => (out == if col == 0 { self.spec_blank_sep(HorzAlign::Left) } else { Seq::empty() }) && (after == *self),
            Hook::CellLineEnd => (out == self.spec_blank_sep(
                if col + 1 == self.spec_column_widths().len() { HorzAlign::Right } else { HorzAlign::Center },
            )) && (after == *self),
            Hook::CellLine => match cell {
                Some(c) => (out == spec_padded(
                c.0,
                (encode_utf8(c.0).len() as usize) as nat,
                c.1,
                self.spec_extra_width() as nat,
                c.2,
                true,
            )) && (after == *self),
                None => false,
            },
        }
    }

    /// No feature.
    fn features(&self) -> (f: Features)
        ensures
            f == Features(0),
    {
        Features::empty()
    }

    /// Learns the column widths and alignments, and whether some column has a
    /// header.
    fn init(&mut self, column_descs: &[ColSpec], row_count: usize, column_widths: &[usize])
        ensures
            final(self).spec_column_widths() == column_widths@,
            final(self).spec_column_horz_aligns().len() == column_descs@.len(),
            forall|i: int|
                0 <= i < column_descs@.len() ==> #[trigger] final(self).spec_column_horz_aligns()[i]
                    == column_descs@[i].horz_align,
            final(self).spec_headers_provided() == spec_any_header(column_descs@),
            final(self).spec_column_padding() == old(self).spec_column_padding(),
            final(self).spec_extra_width() == old(self).spec_extra_width(),
            final(self).spec_align_markers() == old(self).spec_align_markers(),
            final(self).spec_header_pipes() == old(self).spec_header_pipes(),
    {
        let mut widths: Vec<usize> = Vec::new();
        let mut k: usize = 0;
        while k < column_widths.len()
            invariant
                k <= column_widths@.len(),
                widths@ == column_widths@.take(k as int),
            decreases column_widths@.len() - k,
        {
            widths.push(column_widths[k]);
            k = k + 1;
            assert(widths@ =~= column_widths@.take(k as int));
        }
        assert(column_widths@.take(column_widths@.len() as int) =~= column_widths@);
        let mut aligns: Vec<HorzAlign> = Vec::new();
        let mut any = false;
        let mut i: usize = 0;
        while i < column_descs.len()
            invariant
                i <= column_descs@.len(),
                aligns@.len() == i,
                forall|j: int| 0 <= j < i ==> #[trigger] aligns@[j] == column_descs@[j].horz_align,
                any == exists|j: int| 0 <= j < i && (#[trigger] column_descs@[j].header)@.len() > 0,
            decreases column_descs@.len() - i,
        {
            aligns.push(column_descs[i].horz_align);
            if column_descs[i].header.unicode_len() != 0 {
                any = true;
            }
            i = i + 1;
        }
        self.column_widths = widths;
        self.column_horz_aligns = aligns;
        self.headers_provided = any;
    }

    /// The text padded to the width plus the extra width, measured by its
    /// byte length.
    fn write_data_cell_line(
        &mut self,
        row: usize,
        col: usize,
        line: usize,
        text: &str,
        width: usize,
        horz_align: HorzAlign,
    ) -> (s: String)
        ensures
            s@ == spec_padded(
                text@,
                (text.spec_bytes().len() as usize) as nat,
                width,
                old(self).spec_extra_width() as nat,
                horz_align,
                true,
            ),
            *final(self) == *old(self),
    {
        padded(text, width, self.extra_width as usize, horz_align, true)
    }

    fn write_data_start(&mut self) -> (s: String)
        ensures
            s@ == old(self).spec_data_start(),
            *final(self) == *old(self),
    {
        let n = self.column_widths.len();
        if n == 0 {
            return String::new();
        }
        let mut out = String::new();
        if !self.headers_provided {
            let e = self.write_empty_row();
            out.append(e.as_str());
            push_char(&mut out, '\n');
        }
        let am: char = if self.align_markers { ':' } else { '-' };
        let im: char = if self.header_pipes { '|' } else { '+' };
        let ghost head = out@;
        let mut i: usize = 0;
        assert(head =~= head + self.spec_divider_cols(0));
        while i < n
            invariant
                i <= n,
                n == self.spec_column_widths().len(),
                am == (if self.spec_align_markers() { ':' } else { '-' }),
                im == (if self.spec_header_pipes() { '|' } else { '+' }),
                out@ == head + self.spec_divider_cols(i as nat),
            decreases n - i,
        {
            push_divider_part(
                &mut out,
                self.column_padding,
                self.extra_width,
                am,
                im,
                self.column_widths[i],
                align_in(&self.column_horz_aligns, i),
                align_in(&self.column_horz_aligns, i + 1),
                i == 0,
                i + 1 == n,
            );
            i = i + 1;
        }
        push_char(&mut out, '\n');
        assert(out@ =~= old(self).spec_data_start());
        out
    }

    fn write_data_cell_line_start(&mut self, row: usize, col: usize, line: usize) -> (s: String)
        ensures
            s@ == if col == 0 { old(self).spec_blank_sep(HorzAlign::Left) } else { Seq::empty() },
            *final(self) == *old(self),
    {
        let mut out = String::new();
        if col == 0 {
            push_column_sep(&mut out, self.column_padding, HorzAlign::Left, '|', ' ', ' ', ' ');
        }
        assert(out@ =~= if col == 0 { old(self).spec_blank_sep(HorzAlign::Left) } else { Seq::empty() });
        out
    }

    fn write_data_cell_line_end(&mut self, row: usize, col: usize, line: usize) -> (s: String)
        ensures
            s@ == old(self).spec_blank_sep(
                if col + 1 == old(self).spec_column_widths().len() { HorzAlign::Right } else { HorzAlign::Center },
            ),
            *final(self) == *old(self),
    {
        let bias = if col as u128 + 1 == self.column_widths.len() as u128 {
            HorzAlign::Right
        } else {
            HorzAlign::Center
        };
        let mut out = String::new();
        push_column_sep(&mut out, self.column_padding, bias, '|', ' ', ' ', ' ');
        assert(out@ =~= old(self).spec_blank_sep(bias));
        out
    }

    /// A line break.
    fn write_data_line_end(&mut self, row: usize, line: usize) -> (s: String) {
        newline()
    }

    fn write_table_start(&mut self) -> (s: String) {
        String::new()
    }

    fn write_table_end(&mut self) -> (s: String) {
        String::new()
    }

    fn write_header_cell_line(&mut self,
        row: usize,
        col: usize,
        line: usize,
        text: &str,
        width: usize,
        horz_align: HorzAlign,
    ) -> (s: String) {
        self.write_data_cell_line(row, col, line, text, width, horz_align)
    }

    fn write_footer_cell_line(&mut self,
        row: usize,
        col: usize,
        line: usize,
        text: &str,
        width: usize,
        horz_align: HorzAlign,
    ) -> (s: String) {
        self.write_data_cell_line(row, col, line, text, width, horz_align)
    }

    fn write_header_start(&mut self) -> (s: String) {
        String::new()
    }

    fn write_header_end(&mut self) -> (s: String) {
        String::new()
    }

    fn write_data_end(&mut self) -> (s: String) {
        String::new()
    }

    fn write_footer_start(&mut self) -> (s: String) {
        String::new()
    }

    fn write_footer_end(&mut self) -> (s: String) {
        String::new()
    }

    fn write_header_row_start(&mut self, row: usize) -> (s: String) {
        String::new()
    }

    fn write_data_row_start(&mut self, row: usize) -> (s: String) {
        String::new()
    }

    fn write_footer_row_start(&mut self, row: usize) -> (s: String) {
        String::new()
    }

    fn write_header_row_end(&mut self, row: usize) -> (s: String) {
        String::new()
    }

    fn write_data_row_end(&mut self, row: usize) -> (s: String) {
        String::new()
    }

    fn write_footer_row_end(&mut self, row: usize) -> (s: String) {
        String::new()
    }

    fn write_header_cell_start(&mut self, row: usize, col: usize) -> (s: String) {
        String::new()
    }

    fn write_data_cell_start(&mut self, row: usize, col: usize) -> (s: String) {
        String::new()
    }

    fn write_footer_cell_start(&mut self, row: usize, col: usize) -> (s: String) {
        String::new()
    }

    fn write_header_cell_end(&mut self, row: usize, col: usize) -> (s: String) {
        String::new()
    }

    fn write_data_cell_end(&mut self, row: usize, col: usize) -> (s: String) {
        String::new()
    }

    fn write_footer_cell_end(&mut self, row: usize, col: usize) -> (s: String) {
        String::new()
    }

    fn write_header_line_start(&mut self, row: usize, line: usize) -> (s: String) {
        String::new()
    }

    fn write_data_line_start(&mut self, row: usize, line: usize) -> (s: String) {
        String::new()
    }

    fn write_footer_line_start(&mut self, row: usize, line: usize) -> (s: String) {
        String::new()
    }

    fn write_header_line_end(&mut self, row: usize, line: usize) -> (s: String) {
        self.write_data_line_end(row, line)
    }

    fn write_footer_line_end(&mut self, row: usize, line: usize) -> (s: String) {
        self.write_data_line_end(row, line)
    }

    fn write_header_cell_line_start(&mut self, row: usize, col: usize, line: usize) -> (s: String) {
        self.write_data_cell_line_start(row, col, line)
    }

    fn write_footer_cell_line_start(&mut self, row: usize, col: usize, line: usize) -> (s: String) {
        self.write_data_cell_line_start(row, col, line)
    }

    fn write_header_cell_line_end(&mut self, row: usize, col: usize, line: usize) -> (s: String) {
        self.write_data_cell_line_end(row, col, line)
    }

    fn write_footer_cell_line_end(&mut self, row: usize, col: usize, line: usize) -> (s: String) {
        self.write_data_cell_line_end(row, col, line)
    }
}


/// Every cell line of this renderer, in the header, the data and the footer,
/// is written alike.
pub proof fn lemma_plain_pipe_cell_lines_alike(
    r: MarkdownPipeRenderer,
    part: Part,
    row: usize,
    col: usize,
    line: usize,
    cell: (Seq<char>, usize, HorzAlign),
    out: Seq<char>,
    after: MarkdownPipeRenderer,
)
    requires
        r.spec_writes(Hook::CellLine, part, row, col, line, Some(cell), out, after),
    ensures
        r.spec_writes(Hook::CellLine, Part::Data, row, col, line, Some(cell), out, after),
        r.spec_writes(Hook::CellLine, Part::Header, row, col, line, Some(cell), out, after),
        r.spec_writes(Hook::CellLine, Part::Footer, row, col, line, Some(cell), out, after),
        after == r,
{
}

} // verus!
