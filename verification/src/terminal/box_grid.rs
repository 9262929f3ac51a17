//! A table renderer that draws box-drawn grid lines between the cells.

use vstd::prelude::*;

use crate::cell::{push_repeat, push_spaces, spec_cell_layout, spec_cell_line, spec_layout_columns, spec_repeat, spec_spaces};
use crate::context::{CellContext, RenderContext};
use crate::features::{Features, LateFormat, StrWidth, WidthContribution};
use crate::split::{copy_columns, spec_same_columns};
use crate::driver::{Hook, Part};
use crate::render::{formatted_cell_line, lemma_formatted_line_fills_cell, newline, spec_ellipsis, spec_formatted_cell_line, Renderer};
use crate::style::Style;
use crate::terminal::box_tile::{lemma_repeat_len, spec_width_total};
use crate::terminal::line_style::{LineShape, LineStyle, StyledChar};
use crate::wrap::WrapOptions;

verus! {

/// The column runs of a grid divider line: for each column width, `horz`
/// repeated over the width and twice per padding column, with `cross`
/// between neighbouring columns.
pub open spec fn spec_grid_columns(widths: Seq<usize>, pad: nat, horz: Seq<char>, cross: Seq<char>) -> Seq<
    char,
>
    decreases widths.len(),
{
    if widths.len() == 0 {
        Seq::empty()
    } else {
        spec_grid_columns(widths.drop_last(), pad, horz, cross) + (if widths.len() > 1 {
            cross
        } else {
            Seq::empty()
        }) + spec_repeat(horz, widths.last() as nat) + spec_repeat(horz + horz, pad)
    }
}

/// With one-character pieces, the column runs take the column widths, twice
/// the padding per column, and one crossing between neighbouring columns.
pub proof fn lemma_grid_columns_len(widths: Seq<usize>, pad: nat, horz: Seq<char>, cross: Seq<char>)
    requires
        horz.len() == 1,
        cross.len() == 1,
    ensures
        spec_grid_columns(widths, pad, horz, cross).len() == spec_width_total(widths) + widths.len() * (2
            * pad + 1) - (if widths.len() > 0 { 1int } else { 0 }),
    decreases widths.len(),
{
    if widths.len() > 0 {
        let n = widths.len();
        lemma_grid_columns_len(widths.drop_last(), pad, horz, cross);
        lemma_repeat_len(horz, widths.last() as nat);
        lemma_repeat_len(horz + horz, pad);
        assert(n * (2 * pad + 1) == (n - 1) * (2 * pad + 1) + (2 * pad + 1)) by (nonlinear_arith);
        let hl = (horz + horz).len();
        assert(pad * hl == 2 * pad) by (nonlinear_arith)
            requires
                hl == 2,
        ;
        let w = widths.last() as nat;
        assert(w * horz.len() == w) by (nonlinear_arith)
            requires
                horz.len() == 1,
        ;
    }
}

/// The line styles for each part of the box grid renderer.
#[derive(Debug, Clone, Copy, PartialEq, Eq, Structural)]
pub struct BoxGridStyle {
    /// The line style for the left border.
    pub border_left: LineStyle,
    /// The line style for the right border.
    pub border_right: LineStyle,
    /// The line style for the top border.
    pub border_top: LineStyle,
    /// The line style for the bottom border.
    pub border_bottom: LineStyle,
    /// The line style for the separators between rows.
    pub row_sep: LineStyle,
    /// The line style for the separators between columns.
    pub col_sep: LineStyle,
    /// The line style for the separators between the header, data and footer.
    pub div_sep: LineStyle,
    /// Whether to draw rounded corners where possible.
    pub round_corners: bool,
}

impl BoxGridStyle {
    /// The default style: light borders and row separators, triple-dashed
    /// column separators, double section separators, square corners.
    pub open spec fn spec_default() -> BoxGridStyle {
        BoxGridStyle {
            border_left: LineStyle { shape: LineShape::Light, style: Style::spec_plain() },
            border_right: LineStyle { shape: LineShape::Light, style: Style::spec_plain() },
            border_top: LineStyle { shape: LineShape::Light, style: Style::spec_plain() },
            border_bottom: LineStyle { shape: LineShape::Light, style: Style::spec_plain() },
            row_sep: LineStyle { shape: LineShape::Light, style: Style::spec_plain() },
            col_sep: LineStyle { shape: LineShape::LightDash3, style: Style::spec_plain() },
            div_sep: LineStyle { shape: LineShape::Double, style: Style::spec_plain() },
            round_corners: false,
        }
    }

    /// Constructs the default style.
    pub fn new() -> (st: BoxGridStyle)
        ensures
            st == BoxGridStyle::spec_default(),
    {
        BoxGridStyle {
            border_left: LineStyle::new(LineShape::Light),
            border_right: LineStyle::new(LineShape::Light),
            border_top: LineStyle::new(LineShape::Light),
            border_bottom: LineStyle::new(LineShape::Light),
            row_sep: LineStyle::new(LineShape::Light),
            col_sep: LineStyle::new(LineShape::LightDash3),
            div_sep: LineStyle::new(LineShape::Double),
            round_corners: false,
        }
    }

    /// Sets whether to draw rounded corners and returns the style.
    pub fn with_round_corners(self, round_corners: bool) -> (st: BoxGridStyle)
        ensures
            st == (BoxGridStyle { round_corners, ..self }),
    {
        BoxGridStyle { round_corners, ..self }
    }

    /// Sets the shape of the four borders and returns the style.
    pub fn with_borders_shape(self, line_shape: LineShape) -> (st: BoxGridStyle)
        ensures
            st == (BoxGridStyle {
                border_left: LineStyle { shape: line_shape, ..self.border_left },
                border_right: LineStyle { shape: line_shape, ..self.border_right },
                border_top: LineStyle { shape: line_shape, ..self.border_top },
                border_bottom: LineStyle { shape: line_shape, ..self.border_bottom },
                ..self
            }),
    {
        BoxGridStyle {
            border_left: LineStyle { shape: line_shape, ..self.border_left },
            border_right: LineStyle { shape: line_shape, ..self.border_right },
            border_top: LineStyle { shape: line_shape, ..self.border_top },
            border_bottom: LineStyle { shape: line_shape, ..self.border_bottom },
            ..self
        }
    }

    /// Sets the ANSI style of the four borders and returns the style.
    pub fn with_borders_style(self, style: Style) -> (st: BoxGridStyle)
        ensures
            st == (BoxGridStyle {
                border_left: LineStyle { style, ..self.border_left },
                border_right: LineStyle { style, ..self.border_right },
                border_top: LineStyle { style, ..self.border_top },
                border_bottom: LineStyle { style, ..self.border_bottom },
                ..self
            }),
    {
        BoxGridStyle {
            border_left: LineStyle { style, ..self.border_left },
            border_right: LineStyle { style, ..self.border_right },
            border_top: LineStyle { style, ..self.border_top },
            border_bottom: LineStyle { style, ..self.border_bottom },
            ..self
        }
    }

    /// Sets the shape of the three separators and returns the style.
    pub fn with_separators_shape(self, line_shape: LineShape) -> (st: BoxGridStyle)
        ensures
            st == (BoxGridStyle {
                row_sep: LineStyle { shape: line_shape, ..self.row_sep },
                col_sep: LineStyle { shape: line_shape, ..self.col_sep },
                div_sep: LineStyle { shape: line_shape, ..self.div_sep },
                ..self
            }),
    {
        BoxGridStyle {
            row_sep: LineStyle { shape: line_shape, ..self.row_sep },
            col_sep: LineStyle { shape: line_shape, ..self.col_sep },
            div_sep: LineStyle { shape: line_shape, ..self.div_sep },
            ..self
        }
    }

    /// Sets the ANSI style of the three separators and returns the style.
    pub fn with_separators_style(self, style: Style) -> (st: BoxGridStyle)
        ensures
            st == (BoxGridStyle {
                row_sep: LineStyle { style, ..self.row_sep },
                col_sep: LineStyle { style, ..self.col_sep },
                div_sep: LineStyle { style, ..self.div_sep },
                ..self
            }),
    {
        BoxGridStyle {
            row_sep: LineStyle { style, ..self.row_sep },
            col_sep: LineStyle { style, ..self.col_sep },
            div_sep: LineStyle { style, ..self.div_sep },
            ..self
        }
    }
}

impl Default for BoxGridStyle {
    /// The same as `new`.
    fn default() -> (st: BoxGridStyle)
        ensures
            st == BoxGridStyle::spec_default(),
    {
        BoxGridStyle::new()
    }
}

/// Which horizontal line of the grid is drawn.
#[derive(Debug, Clone, Copy, PartialEq, Eq, Structural)]
pub enum GridLine {
    /// The top border.
    Top,
    /// The separator between the header, data and footer sections.
    Section,
    /// The separator between rows.
    Row,
    /// The bottom border.
    Bottom,
}

/// A table renderer that draws box-drawn grid lines between the cells.
#[derive(Debug, Clone)]
pub struct BoxGridRenderer {
    column_padding: u8,
    extra_column_width: u8,
    style: BoxGridStyle,
    wrap_options: Option<WrapOptions>,
    wrap_columns: Option<Vec<usize>>,
}

/// The left end, horizontal run, crossing and right end of a grid line.
pub open spec fn spec_grid_pieces(st: BoxGridStyle, line: GridLine) -> (StyledChar, StyledChar, StyledChar, StyledChar) {
    let (bl, br) = (st.border_left.shape, st.border_right.shape);
    let round = st.round_corners;
    match line {
        GridLine::Top => {
            let b = st.border_top;
            (
                StyledChar { ch: b.shape.spec_corner_top_left(bl, round), style: b.style },
                StyledChar { ch: b.shape.spec_horz(), style: b.style },
                StyledChar { ch: b.shape.spec_horz_with_bottom(st.col_sep.shape), style: b.style },
                StyledChar { ch: b.shape.spec_corner_top_right(br, round), style: b.style },
            )
        },
        GridLine::Bottom => {
            let b = st.border_bottom;
            (
                StyledChar { ch: b.shape.spec_corner_bottom_left(bl, round), style: b.style },
                StyledChar { ch: b.shape.spec_horz(), style: b.style },
                StyledChar { ch: b.shape.spec_horz_with_top(st.col_sep.shape), style: b.style },
                StyledChar { ch: b.shape.spec_corner_bottom_right(br, round), style: b.style },
            )
        },
        GridLine::Section => {
            let d = st.div_sep;
            (
                StyledChar { ch: bl.spec_vert_with_right(d.shape), style: st.border_left.style },
                StyledChar { ch: d.shape.spec_horz(), style: d.style },
                StyledChar { ch: d.shape.spec_cross(st.col_sep.shape), style: d.style },
                StyledChar { ch: br.spec_vert_with_left(d.shape), style: st.border_right.style },
            )
        },
        GridLine::Row => {
            let d = st.row_sep;
            (
                StyledChar { ch: bl.spec_vert_with_right(d.shape), style: st.border_left.style },
                StyledChar { ch: d.shape.spec_horz(), style: d.style },
                StyledChar { ch: d.shape.spec_cross(st.col_sep.shape), style: d.style },
                StyledChar { ch: br.spec_vert_with_left(d.shape), style: st.border_right.style },
            )
        },
    }
}

impl BoxGridRenderer {
    /// The padding on each side of the cell text.
    pub closed spec fn spec_column_padding(&self) -> u8 {
        self.column_padding
    }

    /// The extra width added to every column.
    pub closed spec fn spec_extra_column_width(&self) -> u8 {
        self.extra_column_width
    }

    /// The line styles.
    pub closed spec fn spec_style(&self) -> BoxGridStyle {
        self.style
    }

    /// The wrapping options, if cells are wrapped.
    pub closed spec fn spec_wrap_options(&self) -> Option<WrapOptions> {
        self.wrap_options
    }

    /// The columns to wrap, or `None` for every column.
    pub closed spec fn spec_wrap_columns(&self) -> Option<Vec<usize>> {
        self.wrap_columns
    }

    /// The table width the borders, separators and padding take: one line per
    /// column plus one, and twice the padding per column.
    pub open spec fn spec_contribution(&self) -> WidthContribution {
        WidthContribution::Linear { per_column: (1 + 2 * self.spec_column_padding()) as usize, fixed: 1 }
    }

    /// A grid line over the columns of `widths`.
    pub open spec fn spec_div(&self, widths: Seq<usize>, line: GridLine) -> Seq<char> {
        let (l, h, c, r) = spec_grid_pieces(self.spec_style(), line);
        l.spec_render() + spec_grid_columns(widths, self.spec_column_padding() as nat, h.spec_render(), c.spec_render())
            + r.spec_render()
    }

    /// A grid line and a line break, or nothing for an empty table.
    pub open spec fn spec_line(&self, ctx: RenderContext, line: GridLine) -> Seq<char> {
        if ctx.spec_is_empty() {
            Seq::empty()
        } else {
            self.spec_div(ctx.col_widths@, line) + seq!['\n']
        }
    }

    /// A vertical line in `ls`.
    pub open spec fn spec_vert(ls: LineStyle) -> Seq<char> {
        StyledChar { ch: ls.shape.spec_vert(), style: ls.style }.spec_render()
    }

    /// What precedes a cell line: the left border and padding in the first
    /// column, nothing elsewhere.
    pub open spec fn spec_cell_line_start(&self, ctx: RenderContext) -> Seq<char> {
        if ctx.spec_is_first_column() {
            Self::spec_vert(self.spec_style().border_left) + spec_spaces(self.spec_column_padding() as nat)
        } else {
            Seq::empty()
        }
    }

    /// What follows a cell line: padding and the right border in the last
    /// column, otherwise padding, a column separator and padding.
    pub open spec fn spec_cell_line_end(&self, ctx: RenderContext) -> Seq<char> {
        let pad = spec_spaces(self.spec_column_padding() as nat);
        if ctx.spec_is_last_column() {
            pad + Self::spec_vert(self.spec_style().border_right)
        } else {
            pad + Self::spec_vert(self.spec_style().col_sep) + pad
        }
    }

    /// Constructs a new renderer: padding 1, no extra width, the default
    /// style, wrapping with the default options in every column.
    pub fn new() -> (r: BoxGridRenderer)
        ensures
            r.spec_column_padding() == 1,
            r.spec_extra_column_width() == 0,
            r.spec_style() == BoxGridStyle::spec_default(),
            r.spec_wrap_options() is Some,
            r.spec_wrap_columns() is None,
    {
        BoxGridRenderer {
            column_padding: 1,
            extra_column_width: 0,
            style: BoxGridStyle::new(),
            wrap_options: Some(WrapOptions::new()),
            wrap_columns: None,
        }
    }

    /// Sets the column padding, at least 1, and returns the renderer.
    pub fn with_column_padding(self, column_padding: u8) -> (r: BoxGridRenderer)
        ensures
            r.spec_column_padding() == if column_padding >= 1 { column_padding } else { 1 },
            r.spec_extra_column_width() == self.spec_extra_column_width(),
            r.spec_style() == self.spec_style(),
            r.spec_wrap_options() == self.spec_wrap_options(),
            r.spec_wrap_columns() == self.spec_wrap_columns(),
    {
        let p: u8 = if column_padding >= 1 { column_padding } else { 1 };
        BoxGridRenderer { column_padding: p, ..self }
    }

    /// Sets the extra column width and returns the renderer.
    pub fn with_extra_column_width(self, extra_column_width: u8) -> (r: BoxGridRenderer)
        ensures
            r.spec_column_padding() == self.spec_column_padding(),
            r.spec_extra_column_width() == extra_column_width,
            r.spec_style() == self.spec_style(),
            r.spec_wrap_options() == self.spec_wrap_options(),
            r.spec_wrap_columns() == self.spec_wrap_columns(),
    {
        BoxGridRenderer { extra_column_width, ..self }
    }

    /// Sets the line styles and returns the renderer.
    pub fn with_style(self, style: BoxGridStyle) -> (r: BoxGridRenderer)
        ensures
            r.spec_column_padding() == self.spec_column_padding(),
            r.spec_extra_column_width() == self.spec_extra_column_width(),
            r.spec_style() == style,
            r.spec_wrap_options() == self.spec_wrap_options(),
            r.spec_wrap_columns() == self.spec_wrap_columns(),
    {
        BoxGridRenderer { style, ..self }
    }

    /// Sets the wrapping options (`None` disables wrapping) and returns the
    /// renderer.
    pub fn with_wrap_options(self, wrap_options: Option<WrapOptions>) -> (r: BoxGridRenderer)
        ensures
            r.spec_column_padding() == self.spec_column_padding(),
            r.spec_extra_column_width() == self.spec_extra_column_width(),
            r.spec_style() == self.spec_style(),
            r.spec_wrap_options() == wrap_options,
            r.spec_wrap_columns() == self.spec_wrap_columns(),
    {
        BoxGridRenderer { wrap_options, ..self }
    }

    /// Sets the columns to wrap (`None` for every column) and returns the
    /// renderer.
    pub fn with_wrap_columns(self, wrap_columns: Option<Vec<usize>>) -> (r: BoxGridRenderer)
        ensures
            r.spec_column_padding() == self.spec_column_padding(),
            r.spec_extra_column_width() == self.spec_extra_column_width(),
            r.spec_style() == self.spec_style(),
            r.spec_wrap_options() == self.spec_wrap_options(),
            r.spec_wrap_columns() == wrap_columns,
    {
        BoxGridRenderer { wrap_columns, ..self }
    }

    /// The pieces of a grid line.
    fn grid_pieces(&self, line: GridLine) -> (p: (StyledChar, StyledChar, StyledChar, StyledChar))
        ensures
            p == spec_grid_pieces(self.spec_style(), line),
    {
        let st = self.style;
        let (bl, br) = (st.border_left.shape, st.border_right.shape);
        let round = st.round_corners;
        match line {
            GridLine::Top => {
                let b = st.border_top;
                (
                    b.corner_top_left(bl, round),
                    b.horz(),
                    b.horz_with_bottom(st.col_sep.shape),
                    b.corner_top_right(br, round),
                )
            },
            GridLine::Bottom => {
                let b = st.border_bottom;
                (
                    b.corner_bottom_left(bl, round),
                    b.horz(),
                    b.horz_with_top(st.col_sep.shape),
                    b.corner_bottom_right(br, round),
                )
            },
            GridLine::Section => {
                let d = st.div_sep;
                (
                    st.border_left.vert_with_right(d.shape),
                    d.horz(),
                    d.cross(st.col_sep.shape),
                    st.border_right.vert_with_left(d.shape),
                )
            },
            GridLine::Row => {
                let d = st.row_sep;
                (
                    st.border_left.vert_with_right(d.shape),
                    d.horz(),
                    d.cross(st.col_sep.shape),
                    st.border_right.vert_with_left(d.shape),
                )
            },
        }
    }

    /// Draws a grid line over the columns of `ctx`.
    fn write_div(&self, ctx: &RenderContext, line: GridLine) -> (s: String)
        ensures
            s@ == self.spec_div(ctx.col_widths@, line),
    {
        let (left, horz, cross, right) = self.grid_pieces(line);
        let pad = self.column_padding;
        let h = horz.render();
        let c = cross.render();
        let mut hh = h.clone();
        hh.append(h.as_str());
        let mut out = left.render();
        let ghost head = out@;
        let ghost widths = ctx.col_widths@;
        let mut i: usize = 0;
        assert(widths.take(0) =~= Seq::<usize>::empty());
        assert(head =~= head + spec_grid_columns(widths.take(0), pad as nat, h@, c@));
        while i < ctx.col_widths.len()
            invariant
                i <= widths.len(),
                widths == ctx.col_widths@,
                h@ == horz.spec_render(),
                c@ == cross.spec_render(),
                hh@ == h@ + h@,
                pad == self.column_padding,
                out@ == head + spec_grid_columns(widths.take(i as int), pad as nat, h@, c@),
            decreases widths.len() - i,
        {
            assert(widths.take(i + 1).drop_last() =~= widths.take(i as int));
            if i > 0 {
                out.append(c.as_str());
            }
            push_repeat(&mut out, h.as_str(), ctx.col_widths[i]);
            push_repeat(&mut out, hh.as_str(), pad as usize);
            i = i + 1;
            assert(out@ =~= head + spec_grid_columns(widths.take(i as int), pad as nat, h@, c@));
        }
        assert(widths.take(widths.len() as int) =~= widths);
        let r = right.render();
        out.append(r.as_str());
        out
    }

    /// Draws a grid line and a line break, or nothing for an empty table.
    fn write_line(&self, ctx: &RenderContext, line: GridLine) -> (s: String)
        ensures
            s@ == self.spec_line(*ctx, line),
    {
        if ctx.is_empty() {
            return String::new();
        }
        let mut s = self.write_div(ctx, line);
        let nl = newline();
        s.append(nl.as_str());
        s
    }
}

impl Default for BoxGridRenderer {
    /// The same as `new`.
    fn default() -> (r: BoxGridRenderer)
        ensures
            r.spec_column_padding() == 1,
            r.spec_extra_column_width() == 0,
            r.spec_style() == BoxGridStyle::spec_default(),
            r.spec_wrap_options() is Some,
            r.spec_wrap_columns() is None,
    {
        BoxGridRenderer::new()
    }
}

/// With plain styles, every grid line of a non-empty table is as wide as the
/// columns plus the width contribution the renderer reports.
pub proof fn lemma_grid_line_width(r: BoxGridRenderer, ctx: RenderContext, line: GridLine)
    requires
        r.spec_style().border_left.style == Style::spec_plain(),
        r.spec_style().border_right.style == Style::spec_plain(),
        r.spec_style().border_top.style == Style::spec_plain(),
        r.spec_style().border_bottom.style == Style::spec_plain(),
        r.spec_style().row_sep.style == Style::spec_plain(),
        r.spec_style().div_sep.style == Style::spec_plain(),
        !ctx.spec_is_empty(),
    ensures
        r.spec_line(ctx, line).len() == spec_width_total(ctx.col_widths@) + r.spec_contribution().spec_eval(
            ctx.col_widths@.len(),
        ) + 1,
{
    Style::lemma_plain_renders_nothing();
    let (l, h, c, rc) = spec_grid_pieces(r.spec_style(), line);
    assert(l.spec_render() =~= seq![l.ch]);
    assert(h.spec_render() =~= seq![h.ch]);
    assert(c.spec_render() =~= seq![c.ch]);
    assert(rc.spec_render() =~= seq![rc.ch]);
    lemma_grid_columns_len(ctx.col_widths@, r.spec_column_padding() as nat, h.spec_render(), c.spec_render());
    let n = ctx.col_widths@.len();
    let p = r.spec_column_padding() as nat;
    assert(((1 + 2 * p) as usize) * n == n * (2 * p + 1)) by (nonlinear_arith)
        requires
            p < 256,
    ;
}

impl Renderer for BoxGridRenderer {
    /// Text is measured by its unicode display width.
    open spec fn spec_width_fn(&self) -> Option<StrWidth> {
        Some(StrWidth::UnicodeDisplayWidth)
    }

    /// The extra width every column is padded with.
    open spec fn spec_extra_width(&self) -> usize {
        self.spec_extra_column_width() as usize
    }

    /// Whether each data cell's text is put on one line: rows may span several lines.
    open spec fn spec_single_line_cells(&self) -> bool {
        false
    }

    open spec fn spec_writes(
        &self,
        hook: Hook,
        part: Part,
        ctx: RenderContext,
        cell: Option<CellContext>,
        out: Seq<char>,
        after: Self,
    ) -> bool {
        match hook {
            Hook::Init => out == Seq::<char>::empty() && after == *self,
            Hook::TableStart => (out == self.spec_line(ctx, GridLine::Top)) && (after == *self),
            Hook::TableEnd => (out == self.spec_line(ctx, GridLine::Bottom)) && (after == *self),
            Hook::SectionStart => match part {
                Part::Header => out == Seq::<char>::empty() && after == *self,
                Part::Data => out == Seq::<char>::empty() && after == *self,
                Part::Footer => (out == self.spec_line(ctx, GridLine::Section)) && (after == *self),
            },
            Hook::SectionEnd => match part {
                Part::Header => (out == self.spec_line(ctx, GridLine::Section)) && (after == *self),
                Part::Data => out == Seq::<char>::empty() && after == *self,
                Part::Footer => out == Seq::<char>::empty() && after == *self,
            },
            Hook::RowStart => match part {
                Part::Header => out == Seq::<char>::empty() && after == *self,
                Part::Data => (out == if ctx.spec_is_first_row() { Seq::empty() } else { self.spec_line(ctx, GridLine::Row) }) && (after == *self),
                Part::Footer => out == Seq::<char>::empty() && after == *self,
            },
            Hook::RowEnd => out == Seq::<char>::empty() && after == *self,
            Hook::CellStart => out == Seq::<char>::empty() && after == *self,
            Hook::CellEnd => out == Seq::<char>::empty() && after == *self,
            Hook::LineStart => out == Seq::<char>::empty() && after == *self,
            Hook::LineEnd => out == seq!['\n'] && after == *self,
            Hook::CellLineStart => (out == self.spec_cell_line_start(ctx)) && (after == *self),
            Hook::CellLineEnd => (out == self.spec_cell_line_end(ctx)) && (after == *self),
            Hook::CellLine => match cell {
                Some(c) => (out == spec_formatted_cell_line(c)) && (after == *self),
                None => false,
            },
        }
    }

    /// Headers only, with one line per column plus one and twice the padding
    /// per column, and wrapping at the column width where it applies.
    fn features(&self) -> (f: Features)
        ensures
            f.flags.0 == 1,
            f.extra_column_width == self.spec_extra_column_width(),
            f.width_contribution_fn == Some(self.spec_contribution()),
            f.late_format_fn is Some <==> self.spec_wrap_options() is Some,
            f.late_format_fn matches Some(lf) ==> spec_same_columns(lf.wrap_columns, self.spec_wrap_columns())
                && Some(lf.wrap_options) == self.spec_wrap_options(),
    {
        let padding: usize = self.column_padding as usize;
        let features = Features::default_features()
            .with_extra_column_width(self.extra_column_width as usize)
            .with_width_contribution_fn(WidthContribution::Linear { per_column: 1 + 2 * padding, fixed: 1 });
        match &self.wrap_options {
            Some(wo) => {
                let lf = LateFormat { wrap_options: wo.duplicate(), wrap_columns: copy_columns(&self.wrap_columns) };
                features.with_late_format_fn(lf)
            },
            None => features,
        }
    }

    fn write_data_cell_line(&mut self, ctx: &RenderContext, cell: &CellContext) -> (s: String)
        ensures
            s@ == spec_formatted_cell_line(*cell),
            *final(self) == *old(self),
    {
        formatted_cell_line(cell)
    }

    fn write_table_start(&mut self, ctx: &RenderContext) -> (s: String)
        ensures
            s@ == old(self).spec_line(*ctx, GridLine::Top),
            *final(self) == *old(self),
    {
        self.write_line(ctx, GridLine::Top)
    }

    fn write_header_end(&mut self, ctx: &RenderContext) -> (s: String)
        ensures
            s@ == old(self).spec_line(*ctx, GridLine::Section),
            *final(self) == *old(self),
    {
        self.write_line(ctx, GridLine::Section)
    }

    fn write_data_cell_line_start(&mut self, ctx: &RenderContext) -> (s: String)
        ensures
            s@ == old(self).spec_cell_line_start(*ctx),
            *final(self) == *old(self),
    {
        if ctx.is_first_column() {
            let mut s = self.style.border_left.vert().render();
            push_spaces(&mut s, self.column_padding as usize);
            s
        } else {
            String::new()
        }
    }

    fn write_data_cell_line_end(&mut self, ctx: &RenderContext) -> (s: String)
        ensures
            s@ == old(self).spec_cell_line_end(*ctx),
            *final(self) == *old(self),
    {
        let mut s = String::new();
        push_spaces(&mut s, self.column_padding as usize);
        if ctx.is_last_column() {
            let v = self.style.border_right.vert().render();
            s.append(v.as_str());
        } else {
            let v = self.style.col_sep.vert().render();
            s.append(v.as_str());
            push_spaces(&mut s, self.column_padding as usize);
        }
        assert(s@ =~= old(self).spec_cell_line_end(*ctx));
        s
    }

    fn write_data_row_start(&mut self, ctx: &RenderContext) -> (s: String)
        ensures
            s@ == if ctx.spec_is_first_row() { Seq::empty() } else { old(self).spec_line(*ctx, GridLine::Row) },
            *final(self) == *old(self),
    {
        if ctx.is_first_row() {
            return String::new();
        }
        self.write_line(ctx, GridLine::Row)
    }

    fn write_footer_start(&mut self, ctx: &RenderContext) -> (s: String)
        ensures
            s@ == old(self).spec_line(*ctx, GridLine::Section),
            *final(self) == *old(self),
    {
        self.write_line(ctx, GridLine::Section)
    }

    fn write_table_end(&mut self, ctx: &RenderContext) -> (s: String)
        ensures
            s@ == old(self).spec_line(*ctx, GridLine::Bottom),
            *final(self) == *old(self),
    {
        self.write_line(ctx, GridLine::Bottom)
    }

    /// A line break.
    fn write_data_line_end(&mut self, ctx: &RenderContext) -> (s: String) {
        newline()
    }

    fn init(&mut self, ctx: &RenderContext) {
    }

    fn write_header_cell_line(&mut self, ctx: &RenderContext, cell: &CellContext) -> (s: String) {
        self.write_data_cell_line(ctx, cell)
    }

    fn write_footer_cell_line(&mut self, ctx: &RenderContext, cell: &CellContext) -> (s: String) {
        self.write_data_cell_line(ctx, cell)
    }

    fn write_header_start(&mut self, ctx: &RenderContext) -> (s: String) {
        String::new()
    }

    fn write_data_start(&mut self, ctx: &RenderContext) -> (s: String) {
        String::new()
    }

    fn write_data_end(&mut self, ctx: &RenderContext) -> (s: String) {
        String::new()
    }

    fn write_footer_end(&mut self, ctx: &RenderContext) -> (s: String) {
        String::new()
    }

    fn write_header_row_start(&mut self, ctx: &RenderContext) -> (s: String) {
        String::new()
    }

    fn write_footer_row_start(&mut self, ctx: &RenderContext) -> (s: String) {
        String::new()
    }

    fn write_header_row_end(&mut self, ctx: &RenderContext) -> (s: String) {
        String::new()
    }

    fn write_data_row_end(&mut self, ctx: &RenderContext) -> (s: String) {
        String::new()
    }

    fn write_footer_row_end(&mut self, ctx: &RenderContext) -> (s: String) {
        String::new()
    }

    fn write_header_cell_start(&mut self, ctx: &RenderContext) -> (s: String) {
        String::new()
    }

    fn write_data_cell_start(&mut self, ctx: &RenderContext) -> (s: String) {
        String::new()
    }

    fn write_footer_cell_start(&mut self, ctx: &RenderContext) -> (s: String) {
        String::new()
    }

    fn write_header_cell_end(&mut self, ctx: &RenderContext) -> (s: String) {
        String::new()
    }

    fn write_data_cell_end(&mut self, ctx: &RenderContext) -> (s: String) {
        String::new()
    }

    fn write_footer_cell_end(&mut self, ctx: &RenderContext) -> (s: String) {
        String::new()
    }

    fn write_header_line_start(&mut self, ctx: &RenderContext) -> (s: String) {
        String::new()
    }

    fn write_data_line_start(&mut self, ctx: &RenderContext) -> (s: String) {
        String::new()
    }

    fn write_footer_line_start(&mut self, ctx: &RenderContext) -> (s: String) {
        String::new()
    }

    fn write_header_line_end(&mut self, ctx: &RenderContext) -> (s: String) {
        self.write_data_line_end(ctx)
    }

    fn write_footer_line_end(&mut self, ctx: &RenderContext) -> (s: String) {
        self.write_data_line_end(ctx)
    }

    fn write_header_cell_line_start(&mut self, ctx: &RenderContext) -> (s: String) {
        self.write_data_cell_line_start(ctx)
    }

    fn write_footer_cell_line_start(&mut self, ctx: &RenderContext) -> (s: String) {
        self.write_data_cell_line_start(ctx)
    }

    fn write_header_cell_line_end(&mut self, ctx: &RenderContext) -> (s: String) {
        self.write_data_cell_line_end(ctx)
    }

    fn write_footer_cell_line_end(&mut self, ctx: &RenderContext) -> (s: String) {
        self.write_data_cell_line_end(ctx)
    }
}


/// Every cell line of this renderer, in the header, the data and the footer,
/// is written alike, and measured text is laid out to exactly the width of
/// its cell, so every line of the table has the same width.
pub proof fn lemma_grid_cell_lines_fill_cells(r: BoxGridRenderer, part: Part, ctx: RenderContext, cell: CellContext, out: Seq<char>, after: BoxGridRenderer)
    requires
        r.spec_writes(Hook::CellLine, part, ctx, Some(cell), out, after),
    ensures
        r.spec_writes(Hook::CellLine, Part::Data, ctx, Some(cell), out, after),
        r.spec_writes(Hook::CellLine, Part::Header, ctx, Some(cell), out, after),
        r.spec_writes(Hook::CellLine, Part::Footer, ctx, Some(cell), out, after),
        after == r,
        cell.text_width matches Some(w) ==> ({
            let layout = spec_cell_layout(cell.text@, w, cell.cell_width, cell.desc.horz_align);
            &&& out == spec_cell_line(layout, spec_ellipsis())
            &&& spec_layout_columns(layout) == cell.cell_width
        }),
        cell.text_width is None ==> out == cell.text@,
{
    lemma_formatted_line_fills_cell(cell);
}

} // verus!
