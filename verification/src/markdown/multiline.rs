//! A table renderer that draws tables in the pandoc-markdown 'multiline'
//! style.

use vstd::prelude::*;

use crate::align::HorzAlign;
use crate::cell::{push_repeat, push_spaces, spec_repeat, spec_spaces};
use crate::context::{CellContext, RenderContext};
use crate::features::{Features, StrWidth, WidthContribution};
use crate::markdown::ws_trim::{spec_trim, TrailingWsTrimWriter};
use crate::driver::{Hook, Part};
use crate::render::{formatted_cell_line, newline, spec_formatted_cell_line, Renderer};
use crate::text_buf::push_char;

verus! {

/// A rule line over the first `k` of the columns: `fill` over each column,
/// with `sep` between neighbouring columns.
pub open spec fn spec_rule_cols(widths: Seq<usize>, k: nat, fill: char, sep: Seq<char>) -> Seq<char>
    decreases k,
{
    if k == 0 {
        Seq::empty()
    } else {
        spec_rule_cols(widths, (k - 1) as nat, fill, sep) + spec_repeat(seq![fill], widths[k - 1] as nat) + (
        if k < widths.len() {
            sep
        } else {
            Seq::empty()
        })
    }
}

/// Appends a rule line over the columns of `widths` to `out`.
fn push_rule(out: &mut String, widths: &[usize], fill: char, sep: &str)
    ensures
        final(out)@ == old(out)@ + spec_rule_cols(widths@, widths@.len(), fill, sep@),
{
    let ghost start = out@;
    let mut f = String::new();
    push_char(&mut f, fill);
    assert(f@ =~= seq![fill]);
    let n = widths.len();
    let mut i: usize = 0;
    assert(start =~= start + spec_rule_cols(widths@, 0, fill, sep@));
    while i < n
        invariant
            i <= n,
            n == widths@.len(),
            f@ == seq![fill],
            out@ == start + spec_rule_cols(widths@, i as nat, fill, sep@),
        decreases n - i,
    {
        push_repeat(out, f.as_str(), widths[i]);
        if i + 1 < n {
            out.append(sep);
        }
        i = i + 1;
        assert(out@ =~= start + spec_rule_cols(widths@, i as nat, fill, sep@));
    }
}

/// A table renderer that draws tables in the pandoc-markdown 'multiline'
/// style.
#[derive(Debug, Clone)]
pub struct MarkdownMultilineRenderer {
    column_padding: u8,
    extra_column_width: u8,
    pad_trailing_column: bool,
}

impl MarkdownMultilineRenderer {
    /// The spaces between columns, beyond the first.
    pub closed spec fn spec_column_padding(&self) -> u8 {
        self.column_padding
    }

    /// The extra width added to every column.
    pub closed spec fn spec_extra_column_width(&self) -> u8 {
        self.extra_column_width
    }

    /// Whether the last column is padded to its width.
    pub closed spec fn spec_pad_trailing_column(&self) -> bool {
        self.pad_trailing_column
    }

    /// The separator between columns in a rule made of `c`: `c` over the
    /// padding and once more.
    pub open spec fn spec_gap(&self, c: char) -> Seq<char> {
        spec_repeat(seq![c], self.spec_column_padding() as nat) + seq![c]
    }

    /// A rule of `fill` over the columns, with gaps of `gap`, and a line
    /// break; nothing for an empty table.
    pub open spec fn spec_rule(&self, ctx: RenderContext, fill: char, gap: char) -> Seq<char> {
        if ctx.spec_is_empty() {
            Seq::empty()
        } else {
            spec_rule_cols(ctx.col_widths@, ctx.col_widths@.len(), fill, self.spec_gap(gap)) + seq!['\n']
        }
    }

    /// What follows a cell line: nothing in the last column, otherwise the
    /// gap of spaces.
    pub open spec fn spec_cell_line_end(&self, ctx: RenderContext) -> Seq<char> {
        if ctx.spec_is_last_column() {
            Seq::empty()
        } else {
            self.spec_gap(' ')
        }
    }

    /// A cell line: laid out as by default, with trailing whitespace trimmed
    /// in an unpadded last column of text that is not right-aligned.
    pub open spec fn spec_cell_line(&self, ctx: RenderContext, cell: CellContext) -> Seq<char> {
        if cell.text_width is Some && ctx.spec_is_last_column() && cell.desc.horz_align != HorzAlign::Right
            && !self.spec_pad_trailing_column() {
            spec_trim(Seq::empty(), spec_formatted_cell_line(cell)).1
        } else {
            spec_formatted_cell_line(cell)
        }
    }

    /// Constructs a new renderer: no padding, two columns of extra width, a
    /// padded trailing column.
    pub fn new() -> (r: MarkdownMultilineRenderer)
        ensures
            r.spec_column_padding() == 0,
            r.spec_extra_column_width() == 2,
            r.spec_pad_trailing_column(),
    {
        MarkdownMultilineRenderer { column_padding: 0, extra_column_width: 2, pad_trailing_column: true }
    }

    /// Sets the column padding and returns the renderer.
    pub fn with_column_padding(self, column_padding: u8) -> (r: MarkdownMultilineRenderer)
        ensures
            r.spec_column_padding() == column_padding,
            r.spec_extra_column_width() == self.spec_extra_column_width(),
            r.spec_pad_trailing_column() == self.spec_pad_trailing_column(),
    {
        MarkdownMultilineRenderer { column_padding, ..self }
    }

    /// Sets the extra column width and returns the renderer.
    pub fn with_extra_column_width(self, extra_column_width: u8) -> (r: MarkdownMultilineRenderer)
        ensures
            r.spec_column_padding() == self.spec_column_padding(),
            r.spec_extra_column_width() == extra_column_width,
            r.spec_pad_trailing_column() == self.spec_pad_trailing_column(),
    {
        MarkdownMultilineRenderer { extra_column_width, ..self }
    }

    /// Sets whether the last column is padded and returns the renderer.
    pub fn with_padded_trailing_column(self, pad_trailing_column: bool) -> (r: MarkdownMultilineRenderer)
        ensures
            r.spec_column_padding() == self.spec_column_padding(),
            r.spec_extra_column_width() == self.spec_extra_column_width(),
            r.spec_pad_trailing_column() == pad_trailing_column,
    {
        MarkdownMultilineRenderer { pad_trailing_column, ..self }
    }

    /// The gap of `c` between columns.
    fn gap(&self, c: char) -> (s: String)
        ensures
            s@ == self.spec_gap(c),
    {
        let mut one = String::new();
        push_char(&mut one, c);
        assert(one@ =~= seq![c]);
        let mut s = String::new();
        push_repeat(&mut s, one.as_str(), self.column_padding as usize);
        push_char(&mut s, c);
        assert(s@ =~= self.spec_gap(c));
        s
    }

    /// Draws a rule of `fill` with gaps of `gap`.
    fn write_rule(&self, ctx: &RenderContext, fill: char, gap: char) -> (s: String)
        ensures
            s@ == self.spec_rule(*ctx, fill, gap),
    {
        if ctx.is_empty() {
            return String::new();
        }
        let g = self.gap(gap);
        let mut s = String::new();
        push_rule(&mut s, ctx.col_widths, fill, g.as_str());
        push_char(&mut s, '\n');
        assert(s@ =~= self.spec_rule(*ctx, fill, gap));
        s
    }
}

impl Default for MarkdownMultilineRenderer {
    /// The same as `new`.
    fn default() -> (r: MarkdownMultilineRenderer)
        ensures
            r.spec_column_padding() == 0,
            r.spec_extra_column_width() == 2,
            r.spec_pad_trailing_column(),
    {
        MarkdownMultilineRenderer::new()
    }
}

impl Renderer for MarkdownMultilineRenderer {
    /// Text is measured by its unicode display width.
    open spec fn spec_width_fn(&self) -> Option<StrWidth> {
        Some(StrWidth::UnicodeDisplayWidth)
    }

    /// The extra width every column is padded with.
    open spec fn spec_extra_width(&self) -> usize {
        self.spec_extra_column_width() as usize
    }

    /// Whether each data cell's text is put on one line: rows may span several lines.
    open spec fn spec_single_line_cells(&self) -> bool {
        false
    }

    open spec fn spec_writes(
        &self,
        hook: Hook,
        part: Part,
        ctx: RenderContext,
        cell: Option<CellContext>,
        out: Seq<char>,
        after: Self,
    ) -> bool {
        match hook {
            Hook::Init => out == Seq::<char>::empty() && after == *self,
            Hook::TableStart => out == Seq::<char>::empty() && after == *self,
            Hook::TableEnd => out == Seq::<char>::empty() && after == *self,
            Hook::SectionStart => match part {
                Part::Header => (out == self.spec_rule(ctx, '-', '-')) && (after == *self),
                Part::Data => (out == self.spec_rule(ctx, '-', ' ')) && (after == *self),
                Part::Footer => out == Seq::<char>::empty() && after == *self,
            },
            Hook::SectionEnd => match part {
                Part::Header => out == Seq::<char>::empty() && after == *self,
                Part::Data => (out == if ctx.spec_is_headerless() {
                self.spec_rule(ctx, '-', ' ')
            } else {
                self.spec_rule(ctx, '-', '-') + seq!['\n']
            }) && (after == *self),
                Part::Footer => out == Seq::<char>::empty() && after == *self,
            },
            Hook::RowStart => match part {
                Part::Header => out == Seq::<char>::empty() && after == *self,
                Part::Data => (out == if ctx.spec_is_first_row() { Seq::empty() } else { seq!['\n'] }) && (after == *self),
                Part::Footer => out == Seq::<char>::empty() && after == *self,
            },
            Hook::RowEnd => out == Seq::<char>::empty() && after == *self,
            Hook::CellStart => out == Seq::<char>::empty() && after == *self,
            Hook::CellEnd => out == Seq::<char>::empty() && after == *self,
            Hook::LineStart => out == Seq::<char>::empty() && after == *self,
            Hook::LineEnd => out == seq!['\n'] && after == *self,
            Hook::CellLineStart => out == Seq::<char>::empty() && after == *self,
            Hook::CellLineEnd => (out == self.spec_cell_line_end(ctx)) && (after == *self),
            Hook::CellLine => match cell {
                Some(c) => (out == self.spec_cell_line(ctx, c)) && (after == *self),
                None => false,
            },
        }
    }

    /// The default features with the renderer's extra column width.
    fn features(&self) -> (f: Features)
        ensures
            f.flags.0 == 1,
            f.str_width_fn == Some(StrWidth::UnicodeDisplayWidth),
            f.width_contribution_fn == Some(WidthContribution::Interspersed),
            f.extra_column_width == self.spec_extra_column_width(),
    {
        Features::default_features().with_extra_column_width(self.extra_column_width as usize)
    }

    fn write_header_start(&mut self, ctx: &RenderContext) -> (s: String)
        ensures
            s@ == old(self).spec_rule(*ctx, '-', '-'),
            *final(self) == *old(self),
    {
        self.write_rule(ctx, '-', '-')
    }

    fn write_data_cell_line(&mut self, ctx: &RenderContext, cell: &CellContext) -> (s: String)
        ensures
            s@ == old(self).spec_cell_line(*ctx, *cell),
            *final(self) == *old(self),
    {
        let text = formatted_cell_line(cell);
        if cell.text_width.is_some() && ctx.is_last_column() && cell.desc.horz_align != HorzAlign::Right
            && !self.pad_trailing_column {
            let mut writer = TrailingWsTrimWriter::new();
            let out = writer.write(text.as_str());
            writer.clear_pending();
            out
        } else {
            text
        }
    }

    fn write_header_cell_line_end(&mut self, ctx: &RenderContext) -> (s: String)
        ensures
            s@ == old(self).spec_cell_line_end(*ctx),
            *final(self) == *old(self),
    {
        if ctx.is_last_column() {
            return String::new();
        }
        self.gap(' ')
    }

    fn write_data_start(&mut self, ctx: &RenderContext) -> (s: String)
        ensures
            s@ == old(self).spec_rule(*ctx, '-', ' '),
            *final(self) == *old(self),
    {
        self.write_rule(ctx, '-', ' ')
    }

    fn write_data_cell_line_end(&mut self, ctx: &RenderContext) -> (s: String)
        ensures
            s@ == old(self).spec_cell_line_end(*ctx),
            *final(self) == *old(self),
    {
        if ctx.is_last_column() {
            return String::new();
        }
        self.gap(' ')
    }

    fn write_data_row_start(&mut self, ctx: &RenderContext) -> (s: String)
        ensures
            s@ == if ctx.spec_is_first_row() { Seq::empty() } else { seq!['\n'] },
            *final(self) == *old(self),
    {
        if ctx.is_first_row() {
            return String::new();
        }
        newline()
    }

    fn write_data_end(&mut self, ctx: &RenderContext) -> (s: String)
        ensures
            s@ == if ctx.spec_is_headerless() {
                old(self).spec_rule(*ctx, '-', ' ')
            } else {
                old(self).spec_rule(*ctx, '-', '-') + seq!['\n']
            },
            *final(self) == *old(self),
    {
        if ctx.is_headerless() {
            self.write_rule(ctx, '-', ' ')
        } else {
            let mut s = self.write_rule(ctx, '-', '-');
            push_char(&mut s, '\n');
            assert(s@ =~= self.spec_rule(*ctx, '-', '-') + seq!['\n']);
            s
        }
    }

    /// A line break.
    fn write_data_line_end(&mut self, ctx: &RenderContext) -> (s: String) {
        newline()
    }

    /// Nothing before a data cell line.
    fn write_data_cell_line_start(&mut self, ctx: &RenderContext) -> (s: String) {
        String::new()
    }

    fn init(&mut self, ctx: &RenderContext) {
    }

    fn write_table_start(&mut self, ctx: &RenderContext) -> (s: String) {
        String::new()
    }

    fn write_table_end(&mut self, ctx: &RenderContext) -> (s: String) {
        String::new()
    }

    fn write_header_cell_line(&mut self, ctx: &RenderContext, cell: &CellContext) -> (s: String) {
        self.write_data_cell_line(ctx, cell)
    }

    fn write_footer_cell_line(&mut self, ctx: &RenderContext, cell: &CellContext) -> (s: String) {
        self.write_data_cell_line(ctx, cell)
    }

    fn write_header_end(&mut self, ctx: &RenderContext) -> (s: String) {
        String::new()
    }

    fn write_footer_start(&mut self, ctx: &RenderContext) -> (s: String) {
        String::new()
    }

    fn write_footer_end(&mut self, ctx: &RenderContext) -> (s: String) {
        String::new()
    }

    fn write_header_row_start(&mut self, ctx: &RenderContext) -> (s: String) {
        String::new()
    }

    fn write_footer_row_start(&mut self, ctx: &RenderContext) -> (s: String) {
        String::new()
    }

    fn write_header_row_end(&mut self, ctx: &RenderContext) -> (s: String) {
        String::new()
    }

    fn write_data_row_end(&mut self, ctx: &RenderContext) -> (s: String) {
        String::new()
    }

    fn write_footer_row_end(&mut self, ctx: &RenderContext) -> (s: String) {
        String::new()
    }

    fn write_header_cell_start(&mut self, ctx: &RenderContext) -> (s: String) {
        String::new()
    }

    fn write_data_cell_start(&mut self, ctx: &RenderContext) -> (s: String) {
        String::new()
    }

    fn write_footer_cell_start(&mut self, ctx: &RenderContext) -> (s: String) {
        String::new()
    }

    fn write_header_cell_end(&mut self, ctx: &RenderContext) -> (s: String) {
        String::new()
    }

    fn write_data_cell_end(&mut self, ctx: &RenderContext) -> (s: String) {
        String::new()
    }

    fn write_footer_cell_end(&mut self, ctx: &RenderContext) -> (s: String) {
        String::new()
    }

    fn write_header_line_start(&mut self, ctx: &RenderContext) -> (s: String) {
        String::new()
    }

    fn write_data_line_start(&mut self, ctx: &RenderContext) -> (s: String) {
        String::new()
    }

    fn write_footer_line_start(&mut self, ctx: &RenderContext) -> (s: String) {
        String::new()
    }

    fn write_header_line_end(&mut self, ctx: &RenderContext) -> (s: String) {
        self.write_data_line_end(ctx)
    }

    fn write_footer_line_end(&mut self, ctx: &RenderContext) -> (s: String) {
        self.write_data_line_end(ctx)
    }

    fn write_header_cell_line_start(&mut self, ctx: &RenderContext) -> (s: String) {
        self.write_data_cell_line_start(ctx)
    }

    fn write_footer_cell_line_start(&mut self, ctx: &RenderContext) -> (s: String) {
        self.write_data_cell_line_start(ctx)
    }

    fn write_footer_cell_line_end(&mut self, ctx: &RenderContext) -> (s: String) {
        self.write_data_cell_line_end(ctx)
    }
}


/// Every cell line of this renderer, in the header, the data and the footer,
/// is written alike.
pub proof fn lemma_multiline_cell_lines_alike(r: MarkdownMultilineRenderer, part: Part, ctx: RenderContext, cell: CellContext, out: Seq<char>, after: MarkdownMultilineRenderer)
    requires
        r.spec_writes(Hook::CellLine, part, ctx, Some(cell), out, after),
    ensures
        r.spec_writes(Hook::CellLine, Part::Data, ctx, Some(cell), out, after),
        r.spec_writes(Hook::CellLine, Part::Header, ctx, Some(cell), out, after),
        r.spec_writes(Hook::CellLine, Part::Footer, ctx, Some(cell), out, after),
        after == r,
{
}

} // verus!
