//! A table renderer that draws tables in the pandoc-markdown 'grid' style.

use vstd::prelude::*;

use crate::align::HorzAlign;
use crate::cell::{push_repeat, spec_cell_layout, spec_cell_line, spec_layout_columns, spec_repeat};
use crate::context::{CellContext, RenderContext};
use crate::features::{Features, LateFormat, StrWidth, WidthContribution};
use crate::driver::{Hook, Part};
use crate::render::{formatted_cell_line, lemma_formatted_line_fills_cell, newline, spec_ellipsis, spec_formatted_cell_line, Renderer};
use crate::split::{copy_columns, spec_same_columns};
use crate::text_buf::push_char;
use crate::wrap::WrapOptions;

verus! {

/// A grid column separator: `outer` over the padding on each side the bias
/// leaves open, around `center`.
pub open spec fn spec_grid_sep(pad: nat, bias: HorzAlign, center: char, outer: char) -> Seq<char> {
    (if bias != HorzAlign::Left { spec_repeat(seq![outer], pad) } else { Seq::empty() }) + seq![center] + (
    if bias != HorzAlign::Right {
        spec_repeat(seq![outer], pad)
    } else {
        Seq::empty()
    })
}

/// The first `k` columns of a row separator of `line`, with `+` crossings
/// between neighbouring columns.
pub open spec fn spec_sep_cols(widths: Seq<usize>, k: nat, pad: nat, line: char) -> Seq<char>
    decreases k,
{
    if k == 0 {
        Seq::empty()
    } else {
        spec_sep_cols(widths, (k - 1) as nat, pad, line) + spec_repeat(seq![line], widths[k - 1] as nat) + (
        if k < widths.len() {
            spec_grid_sep(pad, HorzAlign::Center, '+', line)
        } else {
            Seq::empty()
        })
    }
}

/// A table renderer that draws tables in the pandoc-markdown 'grid' style.
#[derive(Debug, Clone)]
pub struct MarkdownGridRenderer {
    column_padding: u8,
    wrap_options: Option<WrapOptions>,
    wrap_columns: Option<Vec<usize>>,
}

impl MarkdownGridRenderer {
    /// The padding on each side of the cell text.
    pub closed spec fn spec_column_padding(&self) -> u8 {
        self.column_padding
    }

    /// The wrapping options, if cells are wrapped.
    pub closed spec fn spec_wrap_options(&self) -> Option<WrapOptions> {
        self.wrap_options
    }

    /// The columns to wrap, or `None` for every column.
    pub closed spec fn spec_wrap_columns(&self) -> Option<Vec<usize>> {
        self.wrap_columns
    }

    /// A column separator with this renderer's padding.
    pub open spec fn spec_sep(&self, bias: HorzAlign, center: char, outer: char) -> Seq<char> {
        spec_grid_sep(self.spec_column_padding() as nat, bias, center, outer)
    }

    /// A row separator of `line` over the columns of `widths`.
    pub open spec fn spec_row_sep(&self, widths: Seq<usize>, line: char) -> Seq<char> {
        self.spec_sep(HorzAlign::Left, '+', line) + spec_sep_cols(
            widths,
            widths.len(),
            self.spec_column_padding() as nat,
            line,
        ) + self.spec_sep(HorzAlign::Right, '+', line)
    }

    /// A row separator of `line` and a line break, or nothing for an empty
    /// table.
    pub open spec fn spec_rule(&self, ctx: RenderContext, line: char) -> Seq<char> {
        if ctx.spec_is_empty() {
            Seq::empty()
        } else {
            self.spec_row_sep(ctx.col_widths@, line) + seq!['\n']
        }
    }

    /// Constructs a new renderer: padding 1, wrapping with the default
    /// options in every column.
    pub fn new() -> (r: MarkdownGridRenderer)
        ensures
            r.spec_column_padding() == 1,
            r.spec_wrap_options() is Some,
            r.spec_wrap_columns() is None,
    {
        MarkdownGridRenderer { column_padding: 1, wrap_options: Some(WrapOptions::new()), wrap_columns: None }
    }

    /// Sets the column padding, at least 1, and returns the renderer.
    pub fn with_column_padding(self, column_padding: u8) -> (r: MarkdownGridRenderer)
        ensures
            r.spec_column_padding() == if column_padding >= 1 { column_padding } else { 1 },
            r.spec_wrap_options() == self.spec_wrap_options(),
            r.spec_wrap_columns() == self.spec_wrap_columns(),
    {
        let p: u8 = if column_padding >= 1 { column_padding } else { 1 };
        MarkdownGridRenderer { column_padding: p, ..self }
    }

    /// Sets the wrapping options (`None` disables wrapping) and returns the
    /// renderer.
    pub fn with_wrap_options(self, wrap_options: Option<WrapOptions>) -> (r: MarkdownGridRenderer)
        ensures
            r.spec_column_padding() == self.spec_column_padding(),
            r.spec_wrap_options() == wrap_options,
            r.spec_wrap_columns() == self.spec_wrap_columns(),
    {
        MarkdownGridRenderer { wrap_options, ..self }
    }

    /// Sets the columns to wrap (`None` for every column) and returns the
    /// renderer.
    pub fn with_wrap_columns(self, wrap_columns: Option<Vec<usize>>) -> (r: MarkdownGridRenderer)
        ensures
            r.spec_column_padding() == self.spec_column_padding(),
            r.spec_wrap_options() == self.spec_wrap_options(),
            r.spec_wrap_columns() == wrap_columns,
    {
        MarkdownGridRenderer { wrap_columns, ..self }
    }

    /// Appends a column separator to `out`.
    fn push_sep(&self, out: &mut String, bias: HorzAlign, center: char, outer: char)
        ensures
            final(out)@ == old(out)@ + self.spec_sep(bias, center, outer),
    {
        let ghost start = out@;
        let mut o = String::new();
        push_char(&mut o, outer);
        assert(o@ =~= seq![outer]);
        let pad = self.column_padding as usize;
        if bias != HorzAlign::Left {
            push_repeat(out, o.as_str(), pad);
        }
        push_char(out, center);
        if bias != HorzAlign::Right {
            push_repeat(out, o.as_str(), pad);
        }
        assert(out@ =~= start + self.spec_sep(bias, center, outer));
    }

    /// Draws a row separator of `line`.
    fn write_row_sep(&self, ctx: &RenderContext, line: char) -> (s: String)
        ensures
            s@ == self.spec_row_sep(ctx.col_widths@, line),
    {
        let mut out = String::new();
        self.push_sep(&mut out, HorzAlign::Left, '+', line);
        let mut l = String::new();
        push_char(&mut l, line);
        assert(l@ =~= seq![line]);
        let ghost head = out@;
        let ghost widths = ctx.col_widths@;
        let n = ctx.col_widths.len();
        let mut i: usize = 0;
        assert(head =~= head + spec_sep_cols(widths, 0, self.spec_column_padding() as nat, line));
        while i < n
            invariant
                i <= n,
                n == widths.len(),
                widths == ctx.col_widths@,
                l@ == seq![line],
                out@ == head + spec_sep_cols(widths, i as nat, self.spec_column_padding() as nat, line),
            decreases n - i,
        {
            push_repeat(&mut out, l.as_str(), ctx.col_widths[i]);
            if i + 1 < n {
                self.push_sep(&mut out, HorzAlign::Center, '+', line);
            }
            i = i + 1;
            assert(out@ =~= head + spec_sep_cols(widths, i as nat, self.spec_column_padding() as nat, line));
        }
        self.push_sep(&mut out, HorzAlign::Right, '+', line);
        assert(out@ =~= self.spec_row_sep(ctx.col_widths@, line));
        out
    }

    /// Draws a row separator of `line` and a line break, or nothing for an
    /// empty table.
    fn write_rule(&self, ctx: &RenderContext, line: char) -> (s: String)
        ensures
            s@ == self.spec_rule(*ctx, line),
    {
        if ctx.is_empty() {
            return String::new();
        }
        let mut s = self.write_row_sep(ctx, line);
        push_char(&mut s, '\n');
        s
    }
}

impl Default for MarkdownGridRenderer {
    /// The same as `new`.
    fn default() -> (r: MarkdownGridRenderer)
        ensures
            r.spec_column_padding() == 1,
            r.spec_wrap_options() is Some,
            r.spec_wrap_columns() is None,
    {
        MarkdownGridRenderer::new()
    }
}

impl Renderer for MarkdownGridRenderer {
    /// Text is measured by its unicode display width.
    open spec fn spec_width_fn(&self) -> Option<StrWidth> {
        Some(StrWidth::UnicodeDisplayWidth)
    }

    /// The extra width every column is padded with.
    open spec fn spec_extra_width(&self) -> usize {
        0
    }

    /// Whether each data cell's text is put on one line: rows may span several lines.
    open spec fn spec_single_line_cells(&self) -> bool {
        false
    }

    open spec fn spec_writes(
        &self,
        hook: Hook,
        part: Part,
        ctx: RenderContext,
        cell: Option<CellContext>,
        out: Seq<char>,
        after: Self,
    ) -> bool {
        match hook {
            Hook::Init => out == Seq::<char>::empty() && after == *self,
            Hook::TableStart => out == Seq::<char>::empty() && after == *self,
            Hook::TableEnd => out == Seq::<char>::empty() && after == *self,
            Hook::SectionStart => match part {
                Part::Header => (out == self.spec_rule(ctx, '-')) && (after == *self),
                Part::Data => (out == self.spec_rule(ctx, if ctx.spec_is_headerless() { '-' } else { '=' })) && (after == *self),
                Part::Footer => out == Seq::<char>::empty() && after == *self,
            },
            Hook::SectionEnd => match part {
                Part::Header => out == Seq::<char>::empty() && after == *self,
                Part::Data => (out == self.spec_rule(ctx, '-')) && (after == *self),
                Part::Footer => out == Seq::<char>::empty() && after == *self,
            },
            Hook::RowStart => match part {
                Part::Header => out == Seq::<char>::empty() && after == *self,
                Part::Data => (out == if ctx.spec_is_first_row() {
                Seq::empty()
            } else {
                self.spec_row_sep(ctx.col_widths@, '-') + seq!['\n']
            }) && (after == *self),
                Part::Footer => out == Seq::<char>::empty() && after == *self,
            },
            Hook::RowEnd => out == Seq::<char>::empty() && after == *self,
            Hook::CellStart => out == Seq::<char>::empty() && after == *self,
            Hook::CellEnd => out == Seq::<char>::empty() && after == *self,
            Hook::LineStart => out == Seq::<char>::empty() && after == *self,
            Hook::LineEnd => out == seq!['\n'] && after == *self,
            Hook::CellLineStart => (out == if ctx.spec_is_first_column() {
                self.spec_sep(HorzAlign::Left, '|', ' ')
            } else {
                Seq::empty()
            }) && (after == *self),
            Hook::CellLineEnd => (out == self.spec_sep(
                if ctx.spec_is_last_column() { HorzAlign::Right } else { HorzAlign::Center },
                '|',
                ' ',
            )) && (after == *self),
            Hook::CellLine => match cell {
                Some(c) => (out == spec_formatted_cell_line(c)) && (after == *self),
                None => false,
            },
        }
    }

    /// Headers only, with one line per column plus one and twice the padding
    /// per column, and wrapping at the column width where it applies.
    fn features(&self) -> (f: Features)
        ensures
            f.flags.0 == 1,
            f.width_contribution_fn == Some(
                WidthContribution::Linear { per_column: (1 + 2 * self.spec_column_padding()) as usize, fixed: 1 },
            ),
            f.late_format_fn is Some <==> self.spec_wrap_options() is Some,
            f.late_format_fn matches Some(lf) ==> spec_same_columns(lf.wrap_columns, self.spec_wrap_columns())
                && Some(lf.wrap_options) == self.spec_wrap_options(),
    {
        let padding: usize = self.column_padding as usize;
        let features = Features::default_features().with_width_contribution_fn(
            WidthContribution::Linear { per_column: 1 + 2 * padding, fixed: 1 },
        );
        match &self.wrap_options {
            Some(wo) => {
                let lf = LateFormat { wrap_options: wo.duplicate(), wrap_columns: copy_columns(&self.wrap_columns) };
                features.with_late_format_fn(lf)
            },
            None => features,
        }
    }

    fn write_header_start(&mut self, ctx: &RenderContext) -> (s: String)
        ensures
            s@ == old(self).spec_rule(*ctx, '-'),
            *final(self) == *old(self),
    {
        self.write_rule(ctx, '-')
    }

    fn write_data_cell_line(&mut self, ctx: &RenderContext, cell: &CellContext) -> (s: String)
        ensures
            s@ == spec_formatted_cell_line(*cell),
            *final(self) == *old(self),
    {
        formatted_cell_line(cell)
    }

    fn write_data_start(&mut self, ctx: &RenderContext) -> (s: String)
        ensures
            s@ == old(self).spec_rule(*ctx, if ctx.spec_is_headerless() { '-' } else { '=' }),
            *final(self) == *old(self),
    {
        let c: char = if ctx.is_headerless() { '-' } else { '=' };
        self.write_rule(ctx, c)
    }

    fn write_data_cell_line_start(&mut self, ctx: &RenderContext) -> (s: String)
        ensures
            s@ == if ctx.spec_is_first_column() {
                old(self).spec_sep(HorzAlign::Left, '|', ' ')
            } else {
                Seq::empty()
            },
            *final(self) == *old(self),
    {
        let mut out = String::new();
        if ctx.is_first_column() {
            self.push_sep(&mut out, HorzAlign::Left, '|', ' ');
        }
        assert(out@ =~= if ctx.spec_is_first_column() {
            old(self).spec_sep(HorzAlign::Left, '|', ' ')
        } else {
            Seq::empty()
        });
        out
    }

    fn write_data_cell_line_end(&mut self, ctx: &RenderContext) -> (s: String)
        ensures
            s@ == old(self).spec_sep(
                if ctx.spec_is_last_column() { HorzAlign::Right } else { HorzAlign::Center },
                '|',
                ' ',
            ),
            *final(self) == *old(self),
    {
        let align = if ctx.is_last_column() { HorzAlign::Right } else { HorzAlign::Center };
        let mut out = String::new();
        self.push_sep(&mut out, align, '|', ' ');
        assert(out@ =~= old(self).spec_sep(align, '|', ' '));
        out
    }

    fn write_data_row_start(&mut self, ctx: &RenderContext) -> (s: String)
        ensures
            s@ == if ctx.spec_is_first_row() {
                Seq::empty()
            } else {
                old(self).spec_row_sep(ctx.col_widths@, '-') + seq!['\n']
            },
            *final(self) == *old(self),
    {
        if ctx.is_first_row() {
            return String::new();
        }
        let mut s = self.write_row_sep(ctx, '-');
        push_char(&mut s, '\n');
        assert(s@ =~= self.spec_row_sep(ctx.col_widths@, '-') + seq!['\n']);
        s
    }

    fn write_data_end(&mut self, ctx: &RenderContext) -> (s: String)
        ensures
            s@ == old(self).spec_rule(*ctx, '-'),
            *final(self) == *old(self),
    {
        self.write_rule(ctx, '-')
    }

    /// A line break.
    fn write_data_line_end(&mut self, ctx: &RenderContext) -> (s: String) {
        newline()
    }

    fn init(&mut self, ctx: &RenderContext) {
    }

    fn write_table_start(&mut self, ctx: &RenderContext) -> (s: String) {
        String::new()
    }

    fn write_table_end(&mut self, ctx: &RenderContext) -> (s: String) {
        String::new()
    }

    fn write_header_cell_line(&mut self, ctx: &RenderContext, cell: &CellContext) -> (s: String) {
        self.write_data_cell_line(ctx, cell)
    }

    fn write_footer_cell_line(&mut self, ctx: &RenderContext, cell: &CellContext) -> (s: String) {
        self.write_data_cell_line(ctx, cell)
    }

    fn write_header_end(&mut self, ctx: &RenderContext) -> (s: String) {
        String::new()
    }

    fn write_footer_start(&mut self, ctx: &RenderContext) -> (s: String) {
        String::new()
    }

    fn write_footer_end(&mut self, ctx: &RenderContext) -> (s: String) {
        String::new()
    }

    fn write_header_row_start(&mut self, ctx: &RenderContext) -> (s: String) {
        String::new()
    }

    fn write_footer_row_start(&mut self, ctx: &RenderContext) -> (s: String) {
        String::new()
    }

    fn write_header_row_end(&mut self, ctx: &RenderContext) -> (s: String) {
        String::new()
    }

    fn write_data_row_end(&mut self, ctx: &RenderContext) -> (s: String) {
        String::new()
    }

    fn write_footer_row_end(&mut self, ctx: &RenderContext) -> (s: String) {
        String::new()
    }

    fn write_header_cell_start(&mut self, ctx: &RenderContext) -> (s: String) {
        String::new()
    }

    fn write_data_cell_start(&mut self, ctx: &RenderContext) -> (s: String) {
        String::new()
    }

    fn write_footer_cell_start(&mut self, ctx: &RenderContext) -> (s: String) {
        String::new()
    }

    fn write_header_cell_end(&mut self, ctx: &RenderContext) -> (s: String) {
        String::new()
    }

    fn write_data_cell_end(&mut self, ctx: &RenderContext) -> (s: String) {
        String::new()
    }

    fn write_footer_cell_end(&mut self, ctx: &RenderContext) -> (s: String) {
        String::new()
    }

    fn write_header_line_start(&mut self, ctx: &RenderContext) -> (s: String) {
        String::new()
    }

    fn write_data_line_start(&mut self, ctx: &RenderContext) -> (s: String) {
        String::new()
    }

    fn write_footer_line_start(&mut self, ctx: &RenderContext) -> (s: String) {
        String::new()
    }

    fn write_header_line_end(&mut self, ctx: &RenderContext) -> (s: String) {
        self.write_data_line_end(ctx)
    }

    fn write_footer_line_end(&mut self, ctx: &RenderContext) -> (s: String) {
        self.write_data_line_end(ctx)
    }

    fn write_header_cell_line_start(&mut self, ctx: &RenderContext) -> (s: String) {
        self.write_data_cell_line_start(ctx)
    }

    fn write_footer_cell_line_start(&mut self, ctx: &RenderContext) -> (s: String) {
        self.write_data_cell_line_start(ctx)
    }

    fn write_header_cell_line_end(&mut self, ctx: &RenderContext) -> (s: String) {
        self.write_data_cell_line_end(ctx)
    }

    fn write_footer_cell_line_end(&mut self, ctx: &RenderContext) -> (s: String) {
        self.write_data_cell_line_end(ctx)
    }
}


/// Every cell line of this renderer, in the header, the data and the footer,
/// is written alike, and measured text is laid out to exactly the width of
/// its cell, so every line of the table has the same width.
pub proof fn lemma_md_grid_cell_lines_fill_cells(r: MarkdownGridRenderer, part: Part, ctx: RenderContext, cell: CellContext, out: Seq<char>, after: MarkdownGridRenderer)
    requires
        r.spec_writes(Hook::CellLine, part, ctx, Some(cell), out, after),
    ensures
        r.spec_writes(Hook::CellLine, Part::Data, ctx, Some(cell), out, after),
        r.spec_writes(Hook::CellLine, Part::Header, ctx, Some(cell), out, after),
        r.spec_writes(Hook::CellLine, Part::Footer, ctx, Some(cell), out, after),
        after == r,
        cell.text_width matches Some(w) ==> ({
            let layout = spec_cell_layout(cell.text@, w, cell.cell_width, cell.desc.horz_align);
            &&& out == spec_cell_line(layout, spec_ellipsis())
            &&& spec_layout_columns(layout) == cell.cell_width
        }),
        cell.text_width is None ==> out == cell.text@,
{
    lemma_formatted_line_fills_cell(cell);
}

} // verus!
