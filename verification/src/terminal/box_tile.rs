//! A table renderer that draws each cell as a distinct box-drawn 'tile'.

use vstd::prelude::*;

use crate::cell::{push_repeat, push_spaces, spec_cell_layout, spec_cell_line, spec_layout_columns, spec_repeat, spec_spaces};
use crate::context::{CellContext, RenderContext};
use crate::features::{Features, StrWidth, SupportFlags, WidthContribution};
use crate::driver::{Hook, Part};
use crate::render::{formatted_cell_line, lemma_formatted_line_fills_cell, newline, spec_ellipsis, spec_formatted_cell_line, Renderer};
use crate::style::Style;
use crate::terminal::line_style::{LineShape, LineStyle, StyledChar};
use crate::wrap::WrapOptions;

verus! {

/// The tiles of a divider line, one per column width: `horz` repeated over
/// the column width and twice per padding column, then `right`, with `left`
/// between neighbouring tiles.
pub open spec fn spec_tile_columns(
    widths: Seq<usize>,
    pad: nat,
    left: Seq<char>,
    horz: Seq<char>,
    right: Seq<char>,
) -> Seq<char>
    decreases widths.len(),
{
    if widths.len() == 0 {
        Seq::empty()
    } else {
        spec_tile_columns(widths.drop_last(), pad, left, horz, right) + (if widths.len() > 1 {
            left
        } else {
            Seq::empty()
        }) + spec_repeat(horz, widths.last() as nat) + spec_repeat(horz + horz, pad) + right
    }
}

/// The sum of the column widths.
pub open spec fn spec_width_total(widths: Seq<usize>) -> int
    decreases widths.len(),
{
    if widths.len() == 0 {
        0
    } else {
        spec_width_total(widths.drop_last()) + widths.last()
    }
}

/// `piece` repeated `n` times is `n` times as long.
pub proof fn lemma_repeat_len(piece: Seq<char>, n: nat)
    ensures
        spec_repeat(piece, n).len() == n * piece.len(),
    decreases n,
{
    if n > 0 {
        let m = (n - 1) as nat;
        lemma_repeat_len(piece, m);
        assert(spec_repeat(piece, n) == spec_repeat(piece, m) + piece);
        assert(n * piece.len() == m * piece.len() + piece.len()) by (nonlinear_arith)
            requires
                m == n - 1,
        ;
    } else {
        assert(spec_repeat(piece, n) =~= Seq::<char>::empty());
    }
}

/// With one-character pieces, the tiles take the column widths plus, per
/// column, the two padding runs, the right piece and (but for the first) the
/// left piece.
pub proof fn lemma_tile_columns_len(
    widths: Seq<usize>,
    pad: nat,
    left: Seq<char>,
    horz: Seq<char>,
    right: Seq<char>,
)
    requires
        left.len() == 1,
        horz.len() == 1,
        right.len() == 1,
    ensures
        spec_tile_columns(widths, pad, left, horz, right).len() == spec_width_total(widths) + widths.len()
            * (2 * pad + 2) - (if widths.len() > 0 { 1int } else { 0 }),
    decreases widths.len(),
{
    if widths.len() > 0 {
        let n = widths.len();
        lemma_tile_columns_len(widths.drop_last(), pad, left, horz, right);
        lemma_repeat_len(horz, widths.last() as nat);
        lemma_repeat_len(horz + horz, pad);
        assert(n * (2 * pad + 2) == (n - 1) * (2 * pad + 2) + (2 * pad + 2)) by (nonlinear_arith);
        assert(spec_width_total(widths) == spec_width_total(widths.drop_last()) + widths.last());
        assert((horz + horz).len() == 2);
        let hl = (horz + horz).len();
        assert(pad * hl == 2 * pad) by (nonlinear_arith)
            requires
                hl == 2,
        ;
        let w = widths.last() as nat;
        assert(w * horz.len() == w) by (nonlinear_arith)
            requires
                horz.len() == 1,
        ;
    }
}

/// The line styles for each part of the box tile renderer.
#[derive(Debug, Clone, Copy, PartialEq, Eq, Structural)]
pub struct BoxTileStyle {
    /// The line style for the header borders.
    pub header: LineStyle,
    /// The line style for the footer borders.
    pub footer: LineStyle,
    /// The line style for the data borders.
    pub data: LineStyle,
    /// Whether to draw rounded corners where possible.
    pub round_corners: bool,
}

impl BoxTileStyle {
    /// The default style: double header and footer borders, light data
    /// borders, square corners, no effects.
    pub open spec fn spec_default() -> BoxTileStyle {
        BoxTileStyle {
            header: LineStyle { shape: LineShape::Double, style: Style::spec_plain() },
            footer: LineStyle { shape: LineShape::Double, style: Style::spec_plain() },
            data: LineStyle { shape: LineShape::Light, style: Style::spec_plain() },
            round_corners: false,
        }
    }

    /// Constructs the default style: double header and footer borders, light
    /// data borders, square corners, no effects.
    pub fn new() -> (st: BoxTileStyle)
        ensures
            st == BoxTileStyle::spec_default(),
    {
        BoxTileStyle {
            header: LineStyle::new(LineShape::Double),
            footer: LineStyle::new(LineShape::Double),
            data: LineStyle::new(LineShape::Light),
            round_corners: false,
        }
    }

    /// Sets whether to draw rounded corners and returns the style.
    pub fn with_round_corners(self, round_corners: bool) -> (st: BoxTileStyle)
        ensures
            st == (BoxTileStyle { round_corners, ..self }),
    {
        BoxTileStyle { round_corners, ..self }
    }

    /// Sets the shape of the header borders and returns the style.
    pub fn with_header_borders_shape(self, line_shape: LineShape) -> (st: BoxTileStyle)
        ensures
            st == (BoxTileStyle { header: LineStyle { shape: line_shape, ..self.header }, ..self }),
    {
        BoxTileStyle { header: LineStyle { shape: line_shape, ..self.header }, ..self }
    }

    /// Sets the ANSI style of the header borders and returns the style.
    pub fn with_header_borders_style(self, style: Style) -> (st: BoxTileStyle)
        ensures
            st == (BoxTileStyle { header: LineStyle { style, ..self.header }, ..self }),
    {
        BoxTileStyle { header: LineStyle { style, ..self.header }, ..self }
    }

    /// Sets the shape of the footer borders and returns the style.
    pub fn with_footer_borders_shape(self, line_shape: LineShape) -> (st: BoxTileStyle)
        ensures
            st == (BoxTileStyle { footer: LineStyle { shape: line_shape, ..self.footer }, ..self }),
    {
        BoxTileStyle { footer: LineStyle { shape: line_shape, ..self.footer }, ..self }
    }

    /// Sets the ANSI style of the footer borders and returns the style.
    pub fn with_footer_borders_style(self, style: Style) -> (st: BoxTileStyle)
        ensures
            st == (BoxTileStyle { footer: LineStyle { style, ..self.footer }, ..self }),
    {
        BoxTileStyle { footer: LineStyle { style, ..self.footer }, ..self }
    }

    /// Sets the shape of the data borders and returns the style.
    pub fn with_data_borders_shape(self, line_shape: LineShape) -> (st: BoxTileStyle)
        ensures
            st == (BoxTileStyle { data: LineStyle { shape: line_shape, ..self.data }, ..self }),
    {
        BoxTileStyle { data: LineStyle { shape: line_shape, ..self.data }, ..self }
    }

    /// Sets the ANSI style of the data borders and returns the style.
    pub fn with_data_borders_style(self, style: Style) -> (st: BoxTileStyle)
        ensures
            st == (BoxTileStyle { data: LineStyle { style, ..self.data }, ..self }),
    {
        BoxTileStyle { data: LineStyle { style, ..self.data }, ..self }
    }
}

impl Default for BoxTileStyle {
    /// The same as `new`.
    fn default() -> (st: BoxTileStyle)
        ensures
            st == BoxTileStyle::spec_default(),
    {
        BoxTileStyle::new()
    }
}

/// A table renderer that draws each cell as a distinct box-drawn tile.
#[derive(Debug, Clone)]
pub struct BoxTileRenderer {
    column_padding: u8,
    extra_column_width: u8,
    style: BoxTileStyle,
}

/// The corner pieces of a tile edge drawn in `ls`: top or bottom corners.
pub open spec fn spec_tile_corners(ls: LineStyle, round: bool, top: bool) -> (StyledChar, StyledChar) {
    if top {
        (
            StyledChar { ch: ls.shape.spec_corner_top_left(ls.shape, round), style: ls.style },
            StyledChar { ch: ls.shape.spec_corner_top_right(ls.shape, round), style: ls.style },
        )
    } else {
        (
            StyledChar { ch: ls.shape.spec_corner_bottom_left(ls.shape, round), style: ls.style },
            StyledChar { ch: ls.shape.spec_corner_bottom_right(ls.shape, round), style: ls.style },
        )
    }
}

impl BoxTileRenderer {
    /// The padding on each side of the cell text.
    pub closed spec fn spec_column_padding(&self) -> u8 {
        self.column_padding
    }

    /// The extra width added to every column.
    pub closed spec fn spec_extra_column_width(&self) -> u8 {
        self.extra_column_width
    }

    /// The border styles.
    pub closed spec fn spec_style(&self) -> BoxTileStyle {
        self.style
    }

    /// The table width the borders and padding take: two border columns and
    /// twice the padding per column.
    pub open spec fn spec_contribution(&self) -> WidthContribution {
        WidthContribution::Linear { per_column: (2 + 2 * self.spec_column_padding()) as usize, fixed: 0 }
    }

    /// A divider line over the columns of `widths`: `left`, then the tiles.
    pub open spec fn spec_div(
        &self,
        widths: Seq<usize>,
        left: StyledChar,
        horz: StyledChar,
        right: StyledChar,
    ) -> Seq<char> {
        left.spec_render() + spec_tile_columns(
            widths,
            self.spec_column_padding() as nat,
            left.spec_render(),
            horz.spec_render(),
            right.spec_render(),
        )
    }

    /// The top (`top`) or bottom edge line of a row of tiles drawn in `ls`,
    /// ending with a line break; nothing for an empty table.
    pub open spec fn spec_edge(&self, ctx: RenderContext, ls: LineStyle, top: bool) -> Seq<char> {
        if ctx.spec_is_empty() {
            Seq::empty()
        } else {
            let (l, r) = spec_tile_corners(ls, self.spec_style().round_corners, top);
            self.spec_div(ctx.col_widths@, l, StyledChar { ch: ls.shape.spec_horz(), style: ls.style }, r)
                + seq!['\n']
        }
    }

    /// The left border of a cell line: the vertical line, then the padding.
    pub open spec fn spec_border_left(&self, ls: LineStyle) -> Seq<char> {
        StyledChar { ch: ls.shape.spec_vert(), style: ls.style }.spec_render() + spec_spaces(
            self.spec_column_padding() as nat,
        )
    }

    /// The right border of a cell line: the padding, then the vertical line.
    pub open spec fn spec_border_right(&self, ls: LineStyle) -> Seq<char> {
        spec_spaces(self.spec_column_padding() as nat) + StyledChar {
            ch: ls.shape.spec_vert(),
            style: ls.style,
        }.spec_render()
    }

    /// Constructs a new renderer: padding 1, no extra width, default style.
    pub fn new() -> (r: BoxTileRenderer)
        ensures
            r.spec_column_padding() == 1,
            r.spec_extra_column_width() == 0,
            r.spec_style() == BoxTileStyle::spec_default(),
    {
        BoxTileRenderer { column_padding: 1, extra_column_width: 0, style: BoxTileStyle::new() }
    }

    /// Sets the column padding, at least 1, and returns the renderer.
    pub fn with_column_padding(self, column_padding: u8) -> (r: BoxTileRenderer)
        ensures
            r.spec_column_padding() == if column_padding >= 1 { column_padding } else { 1 },
            r.spec_extra_column_width() == self.spec_extra_column_width(),
            r.spec_style() == self.spec_style(),
    {
        let p: u8 = if column_padding >= 1 { column_padding } else { 1 };
        BoxTileRenderer { column_padding: p, ..self }
    }

    /// Sets the extra column width and returns the renderer.
    pub fn with_extra_column_width(self, extra_column_width: u8) -> (r: BoxTileRenderer)
        ensures
            r.spec_column_padding() == self.spec_column_padding(),
            r.spec_extra_column_width() == extra_column_width,
            r.spec_style() == self.spec_style(),
    {
        BoxTileRenderer { extra_column_width, ..self }
    }

    /// Sets the border styles and returns the renderer.
    pub fn with_style(self, style: BoxTileStyle) -> (r: BoxTileRenderer)
        ensures
            r.spec_column_padding() == self.spec_column_padding(),
            r.spec_extra_column_width() == self.spec_extra_column_width(),
            r.spec_style() == style,
    {
        BoxTileRenderer { style, ..self }
    }

    /// Draws a divider line over the columns of `ctx`.
    fn write_div(&self, ctx: &RenderContext, left: StyledChar, horz: StyledChar, right: StyledChar) -> (s:
        String)
        ensures
            s@ == self.spec_div(ctx.col_widths@, left, horz, right),
    {
        let pad = self.column_padding;
        let l = left.render();
        let h = horz.render();
        let r = right.render();
        let mut hh = h.clone();
        hh.append(h.as_str());
        let mut out = l.clone();
        let ghost widths = ctx.col_widths@;
        let mut i: usize = 0;
        assert(widths.take(0) =~= Seq::<usize>::empty());
        while i < ctx.col_widths.len()
            invariant
                i <= widths.len(),
                widths == ctx.col_widths@,
                l@ == left.spec_render(),
                h@ == horz.spec_render(),
                r@ == right.spec_render(),
                hh@ == h@ + h@,
                pad == self.column_padding,
                out@ == l@ + spec_tile_columns(widths.take(i as int), pad as nat, l@, h@, r@),
            decreases widths.len() - i,
        {
            assert(widths.take(i + 1).drop_last() =~= widths.take(i as int));
            if i > 0 {
                out.append(l.as_str());
            }
            push_repeat(&mut out, h.as_str(), ctx.col_widths[i]);
            push_repeat(&mut out, hh.as_str(), pad as usize);
            out.append(r.as_str());
            i = i + 1;
            assert(out@ =~= l@ + spec_tile_columns(widths.take(i as int), pad as nat, l@, h@, r@));
        }
        assert(widths.take(widths.len() as int) =~= widths);
        out
    }

    /// Draws the top or bottom edge of a row of tiles in `ls`.
    fn write_edge(&self, ctx: &RenderContext, ls: LineStyle, top: bool) -> (s: String)
        ensures
            s@ == self.spec_edge(*ctx, ls, top),
    {
        if ctx.is_empty() {
            return String::new();
        }
        let round = self.style.round_corners;
        let (l, r) = if top {
            (ls.corner_top_left(ls.shape, round), ls.corner_top_right(ls.shape, round))
        } else {
            (ls.corner_bottom_left(ls.shape, round), ls.corner_bottom_right(ls.shape, round))
        };
        let mut s = self.write_div(ctx, l, ls.horz(), r);
        let nl = newline();
        s.append(nl.as_str());
        s
    }

    /// Draws the left border of a cell line.
    fn write_border_left(&self, ls: LineStyle) -> (s: String)
        ensures
            s@ == self.spec_border_left(ls),
    {
        let mut s = ls.vert().render();
        push_spaces(&mut s, self.column_padding as usize);
        s
    }

    /// Draws the right border of a cell line.
    fn write_border_right(&self, ls: LineStyle) -> (s: String)
        ensures
            s@ == self.spec_border_right(ls),
    {
        let mut s = String::new();
        push_spaces(&mut s, self.column_padding as usize);
        let v = ls.vert().render();
        s.append(v.as_str());
        assert(s@ =~= self.spec_border_right(ls));
        s
    }
}

impl Default for BoxTileRenderer {
    /// The same as `new`.
    fn default() -> (r: BoxTileRenderer)
        ensures
            r.spec_column_padding() == 1,
            r.spec_extra_column_width() == 0,
            r.spec_style() == BoxTileStyle::spec_default(),
    {
        BoxTileRenderer::new()
    }
}

/// With plain styles, every tile divider of a non-empty table is as wide as
/// the columns plus the width contribution the renderer reports.
pub proof fn lemma_tile_div_width(r: BoxTileRenderer, ctx: RenderContext, ls: LineStyle, top: bool)
    requires
        ls.style == Style::spec_plain(),
        !ctx.spec_is_empty(),
    ensures
        r.spec_edge(ctx, ls, top).len() == spec_width_total(ctx.col_widths@) + r.spec_contribution().spec_eval(
            ctx.col_widths@.len(),
        ) + 1,
{
    Style::lemma_plain_renders_nothing();
    let (l, rc) = spec_tile_corners(ls, r.spec_style().round_corners, top);
    assert(l.spec_render() =~= seq![l.ch]);
    assert(rc.spec_render() =~= seq![rc.ch]);
    let h = StyledChar { ch: ls.shape.spec_horz(), style: ls.style };
    assert(h.spec_render() =~= seq![h.ch]);
    let n = ctx.col_widths@.len();
    let p = r.spec_column_padding() as nat;
    assert(((2 + 2 * p) as usize) * n == n * (2 * p + 2)) by (nonlinear_arith)
        requires
            p < 256,
    ;
    lemma_tile_columns_len(
        ctx.col_widths@,
        r.spec_column_padding() as nat,
        l.spec_render(),
        h.spec_render(),
        rc.spec_render(),
    );
}

impl Renderer for BoxTileRenderer {
    /// Text is measured by its unicode display width.
    open spec fn spec_width_fn(&self) -> Option<StrWidth> {
        Some(StrWidth::UnicodeDisplayWidth)
    }

    /// The extra width every column is padded with.
    open spec fn spec_extra_width(&self) -> usize {
        self.spec_extra_column_width() as usize
    }

    /// Whether each data cell's text is put on one line: rows may span several lines.
    open spec fn spec_single_line_cells(&self) -> bool {
        false
    }

    open spec fn spec_writes(
        &self,
        hook: Hook,
        part: Part,
        ctx: RenderContext,
        cell: Option<CellContext>,
        out: Seq<char>,
        after: Self,
    ) -> bool {
        match hook {
            Hook::Init => out == Seq::<char>::empty() && after == *self,
            Hook::TableStart => out == Seq::<char>::empty() && after == *self,
            Hook::TableEnd => out == Seq::<char>::empty() && after == *self,
            Hook::SectionStart => match part {
                Part::Header => (out == self.spec_edge(ctx, self.spec_style().header, true)) && (after == *self),
                Part::Data => out == Seq::<char>::empty() && after == *self,
                Part::Footer => (out == self.spec_edge(ctx, self.spec_style().footer, true)) && (after == *self),
            },
            Hook::SectionEnd => match part {
                Part::Header => (out == self.spec_edge(ctx, self.spec_style().header, false)) && (after == *self),
                Part::Data => out == Seq::<char>::empty() && after == *self,
                Part::Footer => (out == self.spec_edge(ctx, self.spec_style().footer, false)) && (after == *self),
            },
            Hook::RowStart => match part {
                Part::Header => out == Seq::<char>::empty() && after == *self,
                Part::Data => (out == self.spec_edge(ctx, self.spec_style().data, true)) && (after == *self),
                Part::Footer => out == Seq::<char>::empty() && after == *self,
            },
            Hook::RowEnd => match part {
                Part::Header => out == Seq::<char>::empty() && after == *self,
                Part::Data => (out == self.spec_edge(ctx, self.spec_style().data, false)) && (after == *self),
                Part::Footer => out == Seq::<char>::empty() && after == *self,
            },
            Hook::CellStart => out == Seq::<char>::empty() && after == *self,
            Hook::CellEnd => out == Seq::<char>::empty() && after == *self,
            Hook::LineStart => out == Seq::<char>::empty() && after == *self,
            Hook::LineEnd => out == seq!['\n'] && after == *self,
            Hook::CellLineStart => match part {
                Part::Header => (out == self.spec_border_left(self.spec_style().header)) && (after == *self),
                Part::Data => (out == self.spec_border_left(self.spec_style().data)) && (after == *self),
                Part::Footer => (out == self.spec_border_left(self.spec_style().footer)) && (after == *self),
            },
            Hook::CellLineEnd => match part {
                Part::Header => (out == self.spec_border_right(self.spec_style().header)) && (after == *self),
                Part::Data => (out == self.spec_border_right(self.spec_style().data)) && (after == *self),
                Part::Footer => (out == self.spec_border_right(self.spec_style().footer)) && (after == *self),
            },
            Hook::CellLine => match cell {
                Some(c) => (out == spec_formatted_cell_line(c)) && (after == *self),
                None => false,
            },
        }
    }

    /// Headers, footers, column widths, multiline cells and ANSI styling, with
    /// two border columns and twice the padding per column, and wrapping on by
    /// default.
    fn features(&self) -> (f: Features)
        ensures
            f.flags == SupportFlags(1023),
            f.extra_column_width == self.spec_extra_column_width(),
            f.width_contribution_fn == Some(self.spec_contribution()),
            f.default_text_wrap is Some,
    {
        let padding: usize = self.column_padding as usize;
        Features::new(SupportFlags(1023))
            .with_extra_column_width(self.extra_column_width as usize)
            .with_width_contribution_fn(WidthContribution::Linear { per_column: 2 + 2 * padding, fixed: 0 })
            .with_default_text_wrap(Some(WrapOptions::new()))
    }

    fn write_data_cell_line(&mut self, ctx: &RenderContext, cell: &CellContext) -> (s: String)
        ensures
            s@ == spec_formatted_cell_line(*cell),
            *final(self) == *old(self),
    {
        formatted_cell_line(cell)
    }

    fn write_header_start(&mut self, ctx: &RenderContext) -> (s: String)
        ensures
            s@ == old(self).spec_edge(*ctx, old(self).spec_style().header, true),
            *final(self) == *old(self),
    {
        self.write_edge(ctx, self.style.header, true)
    }

    fn write_header_end(&mut self, ctx: &RenderContext) -> (s: String)
        ensures
            s@ == old(self).spec_edge(*ctx, old(self).spec_style().header, false),
            *final(self) == *old(self),
    {
        self.write_edge(ctx, self.style.header, false)
    }

    fn write_header_cell_line_start(&mut self, ctx: &RenderContext) -> (s: String)
        ensures
            s@ == old(self).spec_border_left(old(self).spec_style().header),
            *final(self) == *old(self),
    {
        self.write_border_left(self.style.header)
    }

    fn write_header_cell_line_end(&mut self, ctx: &RenderContext) -> (s: String)
        ensures
            s@ == old(self).spec_border_right(old(self).spec_style().header),
            *final(self) == *old(self),
    {
        self.write_border_right(self.style.header)
    }

    fn write_data_cell_line_start(&mut self, ctx: &RenderContext) -> (s: String)
        ensures
            s@ == old(self).spec_border_left(old(self).spec_style().data),
            *final(self) == *old(self),
    {
        self.write_border_left(self.style.data)
    }

    fn write_data_cell_line_end(&mut self, ctx: &RenderContext) -> (s: String)
        ensures
            s@ == old(self).spec_border_right(old(self).spec_style().data),
            *final(self) == *old(self),
    {
        self.write_border_right(self.style.data)
    }

    fn write_footer_cell_line_start(&mut self, ctx: &RenderContext) -> (s: String)
        ensures
            s@ == old(self).spec_border_left(old(self).spec_style().footer),
            *final(self) == *old(self),
    {
        self.write_border_left(self.style.footer)
    }

    fn write_footer_cell_line_end(&mut self, ctx: &RenderContext) -> (s: String)
        ensures
            s@ == old(self).spec_border_right(old(self).spec_style().footer),
            *final(self) == *old(self),
    {
        self.write_border_right(self.style.footer)
    }

    fn write_data_row_start(&mut self, ctx: &RenderContext) -> (s: String)
        ensures
            s@ == old(self).spec_edge(*ctx, old(self).spec_style().data, true),
            *final(self) == *old(self),
    {
        self.write_edge(ctx, self.style.data, true)
    }

    fn write_data_row_end(&mut self, ctx: &RenderContext) -> (s: String)
        ensures
            s@ == old(self).spec_edge(*ctx, old(self).spec_style().data, false),
            *final(self) == *old(self),
    {
        self.write_edge(ctx, self.style.data, false)
    }

    fn write_footer_start(&mut self, ctx: &RenderContext) -> (s: String)
        ensures
            s@ == old(self).spec_edge(*ctx, old(self).spec_style().footer, true),
            *final(self) == *old(self),
    {
        self.write_edge(ctx, self.style.footer, true)
    }

    fn write_footer_end(&mut self, ctx: &RenderContext) -> (s: String)
        ensures
            s@ == old(self).spec_edge(*ctx, old(self).spec_style().footer, false),
            *final(self) == *old(self),
    {
        self.write_edge(ctx, self.style.footer, false)
    }

    /// A line break.
    fn write_data_line_end(&mut self, ctx: &RenderContext) -> (s: String) {
        newline()
    }

    fn init(&mut self, ctx: &RenderContext) {
    }

    fn write_table_start(&mut self, ctx: &RenderContext) -> (s: String) {
        String::new()
    }

    fn write_table_end(&mut self, ctx: &RenderContext) -> (s: String) {
        String::new()
    }

    fn write_header_cell_line(&mut self, ctx: &RenderContext, cell: &CellContext) -> (s: String) {
        self.write_data_cell_line(ctx, cell)
    }

    fn write_footer_cell_line(&mut self, ctx: &RenderContext, cell: &CellContext) -> (s: String) {
        self.write_data_cell_line(ctx, cell)
    }

    fn write_data_start(&mut self, ctx: &RenderContext) -> (s: String) {
        String::new()
    }

    fn write_data_end(&mut self, ctx: &RenderContext) -> (s: String) {
        String::new()
    }

    fn write_header_row_start(&mut self, ctx: &RenderContext) -> (s: String) {
        String::new()
    }

    fn write_footer_row_start(&mut self, ctx: &RenderContext) -> (s: String) {
        String::new()
    }

    fn write_header_row_end(&mut self, ctx: &RenderContext) -> (s: String) {
        String::new()
    }

    fn write_footer_row_end(&mut self, ctx: &RenderContext) -> (s: String) {
        String::new()
    }

    fn write_header_cell_start(&mut self, ctx: &RenderContext) -> (s: String) {
        String::new()
    }

    fn write_data_cell_start(&mut self, ctx: &RenderContext) -> (s: String) {
        String::new()
    }

    fn write_footer_cell_start(&mut self, ctx: &RenderContext) -> (s: String) {
        String::new()
    }

    fn write_header_cell_end(&mut self, ctx: &RenderContext) -> (s: String) {
        String::new()
    }

    fn write_data_cell_end(&mut self, ctx: &RenderContext) -> (s: String) {
        String::new()
    }

    fn write_footer_cell_end(&mut self, ctx: &RenderContext) -> (s: String) {
        String::new()
    }

    fn write_header_line_start(&mut self, ctx: &RenderContext) -> (s: String) {
        String::new()
    }

    fn write_data_line_start(&mut self, ctx: &RenderContext) -> (s: String) {
        String::new()
    }

    fn write_footer_line_start(&mut self, ctx: &RenderContext) -> (s: String) {
        String::new()
    }

    fn write_header_line_end(&mut self, ctx: &RenderContext) -> (s: String) {
        self.write_data_line_end(ctx)
    }

    fn write_footer_line_end(&mut self, ctx: &RenderContext) -> (s: String) {
        self.write_data_line_end(ctx)
    }
}


/// Every cell line of this renderer, in the header, the data and the footer,
/// is written alike, and measured text is laid out to exactly the width of
/// its cell, so every line of the table has the same width.
pub proof fn lemma_tile_cell_lines_fill_cells(r: BoxTileRenderer, part: Part, ctx: RenderContext, cell: CellContext, out: Seq<char>, after: BoxTileRenderer)
    requires
        r.spec_writes(Hook::CellLine, part, ctx, Some(cell), out, after),
    ensures
        r.spec_writes(Hook::CellLine, Part::Data, ctx, Some(cell), out, after),
        r.spec_writes(Hook::CellLine, Part::Header, ctx, Some(cell), out, after),
        r.spec_writes(Hook::CellLine, Part::Footer, ctx, Some(cell), out, after),
        after == r,
        cell.text_width matches Some(w) ==> ({
            let layout = spec_cell_layout(cell.text@, w, cell.cell_width, cell.desc.horz_align);
            &&& out == spec_cell_line(layout, spec_ellipsis())
            &&& spec_layout_columns(layout) == cell.cell_width
        }),
        cell.text_width is None ==> out == cell.text@,
{
    lemma_formatted_line_fills_cell(cell);
}

} // verus!
