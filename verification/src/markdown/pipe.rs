//! A table renderer that draws tables in the markdown 'pipe' style.

use vstd::prelude::*;

use crate::align::{spec_split_padding, split_padding, HorzAlign};
use crate::cell::{push_repeat, push_spaces, spec_repeat, spec_spaces};
use crate::collate::ColSpec;
use crate::context::{CellContext, RenderContext};
use crate::features::{Features, StrWidth, SupportFlags};
use crate::driver::{Hook, Part};
use crate::render::{newline, Renderer};
use crate::text_buf::push_char;

verus! {

/// The number of `outer` characters on each side of a pipe-table separator
/// for the given column padding: half of half the padding, at least one,
/// less the one inner character.
pub open spec fn spec_sep_pad(column_padding: u8) -> nat {
    let half = column_padding / 2;
    ((if half > 2 { half } else { 2 }) / 2 - 1) as nat
}

/// A column separator: on the sides the bias leaves open, `outer` repeated
/// over the separator padding and the inner character next to `center`.
pub open spec fn spec_column_sep(
    column_padding: u8,
    bias: HorzAlign,
    center: char,
    outer: char,
    inner_left: char,
    inner_right: char,
) -> Seq<char> {
    let pad = spec_sep_pad(column_padding);
    (if bias != HorzAlign::Left {
        spec_repeat(seq![outer], pad) + seq![inner_left]
    } else {
        Seq::empty()
    }) + seq![center] + (if bias != HorzAlign::Right {
        seq![inner_right] + spec_repeat(seq![outer], pad)
    } else {
        Seq::empty()
    })
}

/// Appends a column separator to `out`.
pub fn push_column_sep(
    out: &mut String,
    column_padding: u8,
    bias: HorzAlign,
    center: char,
    outer: char,
    inner_left: char,
    inner_right: char,
)
    ensures
        final(out)@ == old(out)@ + spec_column_sep(column_padding, bias, center, outer, inner_left, inner_right),
{
    let half = column_padding / 2;
    let m: u8 = if half > 2 { half } else { 2 };
    let pad: usize = (m / 2 - 1) as usize;
    let ghost start = out@;
    let mut o = String::new();
    push_char(&mut o, outer);
    assert(o@ =~= seq![outer]);
    if bias != HorzAlign::Left {
        push_repeat(out, o.as_str(), pad);
        push_char(out, inner_left);
    }
    push_char(out, center);
    if bias != HorzAlign::Right {
        push_char(out, inner_right);
        push_repeat(out, o.as_str(), pad);
    }
    assert(out@ =~= start + spec_column_sep(column_padding, bias, center, outer, inner_left, inner_right));
}

/// The horizontal alignment of column `i`, if it is described.
pub open spec fn spec_align_at(descs: Seq<ColSpec>, i: int) -> Option<HorzAlign> {
    if 0 <= i < descs.len() {
        Some(descs[i].horz_align)
    } else {
        None
    }
}

/// Returns the horizontal alignment of column `i`, if it is described.
pub fn align_at(descs: &[ColSpec], i: usize) -> (a: Option<HorzAlign>)
    ensures
        a == spec_align_at(descs@, i as int),
{
    if i < descs.len() {
        Some(descs[i].horz_align)
    } else {
        None
    }
}

/// Whether an alignment is right or center.
pub open spec fn spec_leans_right(a: Option<HorzAlign>) -> bool {
    a == Some(HorzAlign::Right) || a == Some(HorzAlign::Center)
}

/// Whether an alignment is left or center.
pub open spec fn spec_leans_left(a: Option<HorzAlign>) -> bool {
    a == Some(HorzAlign::Left) || a == Some(HorzAlign::Center)
}

/// The part of a pipe-table header divider for one column: the opening
/// separator for the first column, dashes over the column width and extra
/// width, then the closing separator for the last column or an inner one
/// (`im` at its center) otherwise. Alignment markers `am` stand beside
/// right- or center-aligned columns on their left, and beside left- or
/// center-aligned columns on their right.
pub open spec fn spec_divider_part(
    column_padding: u8,
    extra: u8,
    am: char,
    im: char,
    width: usize,
    cur: Option<HorzAlign>,
    next: Option<HorzAlign>,
    first: bool,
    last: bool,
) -> Seq<char> {
    let l = if spec_leans_right(cur) { am } else { '-' };
    let r = if spec_leans_left(next) { am } else { '-' };
    (if first {
        spec_column_sep(column_padding, HorzAlign::Left, '|', '-', ' ', l)
    } else {
        Seq::empty()
    }) + spec_repeat(seq!['-'], (width + extra) as nat) + (if last {
        spec_column_sep(column_padding, HorzAlign::Right, '|', '-', l, ' ')
    } else {
        spec_column_sep(column_padding, HorzAlign::Center, im, '-', l, r)
    })
}

/// Appends the header divider part of one column to `out`.
pub fn push_divider_part(
    out: &mut String,
    column_padding: u8,
    extra: u8,
    am: char,
    im: char,
    width: usize,
    cur: Option<HorzAlign>,
    next: Option<HorzAlign>,
    first: bool,
    last: bool,
)
    ensures
        final(out)@ == old(out)@ + spec_divider_part(column_padding, extra, am, im, width, cur, next, first, last),
{
    let ghost start = out@;
    let cur_right = match cur {
        Some(HorzAlign::Right) | Some(HorzAlign::Center) => true,
        _ => false,
    };
    let next_left = match next {
        Some(HorzAlign::Left) | Some(HorzAlign::Center) => true,
        _ => false,
    };
    let l: char = if cur_right { am } else { '-' };
    let r: char = if next_left { am } else { '-' };
    if first {
        push_column_sep(out, column_padding, HorzAlign::Left, '|', '-', ' ', l);
    }
    let ghost mid = out@;
    let mut dash = String::new();
    push_char(&mut dash, '-');
    assert(dash@ =~= seq!['-']);
    push_repeat(out, dash.as_str(), width);
    push_repeat(out, dash.as_str(), extra as usize);
    proof {
        lemma_dashes_add(width as nat, extra as nat);
    }
    if last {
        push_column_sep(out, column_padding, HorzAlign::Right, '|', '-', l, ' ');
    } else {
        push_column_sep(out, column_padding, HorzAlign::Center, im, '-', l, r);
    }
    assert(out@ =~= start + spec_divider_part(column_padding, extra, am, im, width, cur, next, first, last));
}

/// The part of a blank pipe-table row for one column: blanks over the width
/// and extra width (if `fill`), then an inner separator unless last.
pub open spec fn spec_empty_part(column_padding: u8, extra: u8, width: usize, fill: bool, last: bool) -> Seq<
    char,
> {
    (if fill {
        spec_spaces((width + extra) as nat)
    } else {
        Seq::empty()
    }) + (if last {
        Seq::empty()
    } else {
        spec_column_sep(column_padding, HorzAlign::Center, '|', ' ', ' ', ' ')
    })
}

/// Appends the blank-row part of one column to `out`.
pub fn push_empty_part(out: &mut String, column_padding: u8, extra: u8, width: usize, fill: bool, last: bool)
    ensures
        final(out)@ == old(out)@ + spec_empty_part(column_padding, extra, width, fill, last),
{
    let ghost start = out@;
    if fill {
        push_spaces(out, width);
        push_spaces(out, extra as usize);
        proof {
            lemma_spaces_add(width as nat, extra as nat);
        }
    }
    if !last {
        push_column_sep(out, column_padding, HorzAlign::Center, '|', ' ', ' ', ' ');
    }
    assert(out@ =~= start + spec_empty_part(column_padding, extra, width, fill, last));
}

/// A table renderer that draws tables in the markdown 'pipe' style.
#[derive(Debug, Clone)]
pub struct MarkdownPipeRenderer {
    column_padding: u8,
    extra_width: u8,
    align_markers: bool,
    header_pipes: bool,
    pad_trailing_column: bool,
}

impl MarkdownPipeRenderer {
    /// The padding used in column separators.
    pub closed spec fn spec_column_padding(&self) -> u8 {
        self.column_padding
    }

    /// The extra width added to every column.
    pub closed spec fn spec_extra_width(&self) -> u8 {
        self.extra_width
    }

    /// Whether the header divider marks column alignments with `:`.
    pub closed spec fn spec_align_markers(&self) -> bool {
        self.align_markers
    }

    /// Whether the header divider separates columns with `|` (else `+`).
    pub closed spec fn spec_header_pipes(&self) -> bool {
        self.header_pipes
    }

    /// Whether the last column is padded to its width.
    pub closed spec fn spec_pad_trailing_column(&self) -> bool {
        self.pad_trailing_column
    }

    /// A column separator with this renderer's padding.
    pub open spec fn spec_sep(&self, bias: HorzAlign, center: char, outer: char, il: char, ir: char) -> Seq<char> {
        spec_column_sep(self.spec_column_padding(), bias, center, outer, il, ir)
    }

    /// The alignment marker: `:` with alignment markers, `-` otherwise.
    pub open spec fn spec_am(&self) -> char {
        if self.spec_align_markers() { ':' } else { '-' }
    }

    /// The divider's separators between columns: `|` with header pipes, `+`
    /// otherwise.
    pub open spec fn spec_im(&self) -> char {
        if self.spec_header_pipes() { '|' } else { '+' }
    }

    /// The part of the header divider for column `i` of `n`: the opening
    /// separator for the first column, dashes over the column and extra
    /// width, then the separator that follows, with alignment markers beside
    /// right- or center-aligned columns on their left and left- or
    /// center-aligned columns on their right.
    pub open spec fn spec_divider_col(&self, widths: Seq<usize>, descs: Seq<ColSpec>, i: int) -> Seq<char> {
        spec_divider_part(
            self.spec_column_padding(),
            self.spec_extra_width(),
            self.spec_am(),
            self.spec_im(),
            widths[i],
            spec_align_at(descs, i),
            spec_align_at(descs, i + 1),
            i == 0,
            i + 1 == widths.len(),
        )
    }

    /// The header divider parts of the first `k` columns.
    pub open spec fn spec_divider_cols(&self, widths: Seq<usize>, descs: Seq<ColSpec>, k: nat) -> Seq<char>
        decreases k,
    {
        if k == 0 {
            Seq::empty()
        } else {
            self.spec_divider_cols(widths, descs, (k - 1) as nat) + self.spec_divider_col(widths, descs, k - 1)
        }
    }

    /// The part of an empty row for column `i` of `n`: blanks over the column
    /// (but for an unpadded last column), then a separator unless last.
    pub open spec fn spec_empty_col(&self, widths: Seq<usize>, i: int) -> Seq<char> {
        spec_empty_part(
            self.spec_column_padding(),
            self.spec_extra_width(),
            widths[i],
            self.spec_pad_trailing_column() || i + 1 < widths.len(),
            i + 1 == widths.len(),
        )
    }

    /// The empty-row parts of the first `k` columns.
    pub open spec fn spec_empty_cols(&self, widths: Seq<usize>, k: nat) -> Seq<char>
        decreases k,
    {
        if k == 0 {
            Seq::empty()
        } else {
            self.spec_empty_cols(widths, (k - 1) as nat) + self.spec_empty_col(widths, k - 1)
        }
    }

    /// A row of blank cells, drawn above the divider of a headerless table.
    pub open spec fn spec_empty_row(&self, widths: Seq<usize>) -> Seq<char> {
        self.spec_sep(HorzAlign::Left, '|', ' ', ' ', ' ') + self.spec_empty_cols(widths, widths.len())
            + self.spec_sep(HorzAlign::Right, '|', ' ', ' ', ' ')
    }

    /// What starts the data: nothing for an empty table; otherwise, for a
    /// headerless table, a blank row, then the header divider.
    pub open spec fn spec_data_start(&self, ctx: RenderContext) -> Seq<char> {
        if ctx.spec_is_empty() {
            Seq::empty()
        } else {
            (if ctx.spec_is_headerless() {
                self.spec_empty_row(ctx.col_widths@) + seq!['\n']
            } else {
                Seq::empty()
            }) + self.spec_divider_cols(ctx.col_widths@, ctx.col_descs@, ctx.col_widths@.len()) + seq!['\n']
        }
    }

    /// A cell line: the text padded by the cell padding plus the extra width
    /// according to the alignment, without right padding in the last column
    /// unless trailing columns are padded.
    pub open spec fn spec_cell_line(&self, ctx: RenderContext, cell: CellContext) -> Seq<char> {
        let p = match cell.text_width {
            Some(w) => if cell.cell_width >= w { (cell.cell_width - w) as nat } else { 0 },
            None => 0,
        };
        let pad: nat = p + self.spec_extra_width() as nat;
        let (l, r) = spec_split_padding(cell.desc.horz_align, if pad > usize::MAX { usize::MAX as nat } else { pad });
        spec_spaces(l) + cell.text@ + (if self.spec_pad_trailing_column() || !ctx.spec_is_last_column() {
            spec_spaces(r)
        } else {
            Seq::empty()
        })
    }

    /// Constructs a new renderer: no padding, no extra width, alignment
    /// markers, header pipes and a padded trailing column.
    pub fn new() -> (r: MarkdownPipeRenderer)
        ensures
            r.spec_column_padding() == 0,
            r.spec_extra_width() == 0,
            r.spec_align_markers(),
            r.spec_header_pipes(),
            r.spec_pad_trailing_column(),
    {
        MarkdownPipeRenderer {
            column_padding: 0,
            extra_width: 0,
            align_markers: true,
            header_pipes: true,
            pad_trailing_column: true,
        }
    }

    /// Sets the column padding and returns the renderer.
    pub fn with_column_padding(self, column_padding: u8) -> (r: MarkdownPipeRenderer)
        ensures
            r.spec_column_padding() == column_padding,
            r.spec_extra_width() == self.spec_extra_width(),
            r.spec_align_markers() == self.spec_align_markers(),
            r.spec_header_pipes() == self.spec_header_pipes(),
            r.spec_pad_trailing_column() == self.spec_pad_trailing_column(),
    {
        MarkdownPipeRenderer { column_padding, ..self }
    }

    /// Sets the extra column width and returns the renderer.
    pub fn with_extra_width(self, extra_width: u8) -> (r: MarkdownPipeRenderer)
        ensures
            r.spec_column_padding() == self.spec_column_padding(),
            r.spec_extra_width() == extra_width,
            r.spec_align_markers() == self.spec_align_markers(),
            r.spec_header_pipes() == self.spec_header_pipes(),
            r.spec_pad_trailing_column() == self.spec_pad_trailing_column(),
    {
        MarkdownPipeRenderer { extra_width, ..self }
    }

    /// Sets whether the header divider marks alignments and returns the
    /// renderer.
    pub fn with_alignment_markers(self, align_markers: bool) -> (r: MarkdownPipeRenderer)
        ensures
            r.spec_column_padding() == self.spec_column_padding(),
            r.spec_extra_width() == self.spec_extra_width(),
            r.spec_align_markers() == align_markers,
            r.spec_header_pipes() == self.spec_header_pipes(),
            r.spec_pad_trailing_column() == self.spec_pad_trailing_column(),
    {
        MarkdownPipeRenderer { align_markers, ..self }
    }

    /// Sets whether the header divider separates columns with pipes and
    /// returns the renderer.
    pub fn with_header_div_pipes(self, header_pipes: bool) -> (r: MarkdownPipeRenderer)
        ensures
            r.spec_column_padding() == self.spec_column_padding(),
            r.spec_extra_width() == self.spec_extra_width(),
            r.spec_align_markers() == self.spec_align_markers(),
            r.spec_header_pipes() == header_pipes,
            r.spec_pad_trailing_column() == self.spec_pad_trailing_column(),
    {
        MarkdownPipeRenderer { header_pipes, ..self }
    }

    /// Sets whether the last column is padded and returns the renderer.
    pub fn with_padded_trailing_column(self, pad_trailing_column: bool) -> (r: MarkdownPipeRenderer)
        ensures
            r.spec_column_padding() == self.spec_column_padding(),
            r.spec_extra_width() == self.spec_extra_width(),
            r.spec_align_markers() == self.spec_align_markers(),
            r.spec_header_pipes() == self.spec_header_pipes(),
            r.spec_pad_trailing_column() == pad_trailing_column,
    {
        MarkdownPipeRenderer { pad_trailing_column, ..self }
    }

    /// Draws a row of blank cells.
    fn write_empty_row(&self, ctx: &RenderContext) -> (s: String)
        ensures
            s@ == self.spec_empty_row(ctx.col_widths@),
    {
        let mut out = String::new();
        push_column_sep(&mut out, self.column_padding, HorzAlign::Left, '|', ' ', ' ', ' ');
        let ghost head = out@;
        let ghost widths = ctx.col_widths@;
        let n = ctx.col_widths.len();
        let mut i: usize = 0;
        assert(head =~= head + self.spec_empty_cols(widths, 0));
        while i < n
            invariant
                i <= n,
                n == widths.len(),
                widths == ctx.col_widths@,
                out@ == head + self.spec_empty_cols(widths, i as nat),
            decreases n - i,
        {
            push_empty_part(
                &mut out,
                self.column_padding,
                self.extra_width,
                ctx.col_widths[i],
                self.pad_trailing_column || i + 1 < n,
                i + 1 == n,
            );
            i = i + 1;
        }
        push_column_sep(&mut out, self.column_padding, HorzAlign::Right, '|', ' ', ' ', ' ');
        assert(out@ =~= self.spec_empty_row(ctx.col_widths@));
        out
    }
}

impl Default for MarkdownPipeRenderer {
    /// The same as `new`.
    fn default() -> (r: MarkdownPipeRenderer)
        ensures
            r.spec_column_padding() == 0,
            r.spec_extra_width() == 0,
            r.spec_align_markers(),
            r.spec_header_pipes(),
            r.spec_pad_trailing_column(),
    {
        MarkdownPipeRenderer::new()
    }
}

/// Spaces add up.
pub proof fn lemma_spaces_add(a: nat, b: nat)
    ensures
        spec_spaces(a) + spec_spaces(b) == spec_spaces(a + b),
    decreases b,
{
    if b > 0 {
        lemma_spaces_add(a, (b - 1) as nat);
        assert(spec_spaces(a) + spec_spaces(b) =~= spec_spaces(a) + spec_spaces((b - 1) as nat) + seq![' ']);
    } else {
        assert(spec_spaces(a) + spec_spaces(b) =~= spec_spaces(a));
    }
}

/// Dashes add up.
pub proof fn lemma_dashes_add(a: nat, b: nat)
    ensures
        spec_repeat(seq!['-'], a) + spec_repeat(seq!['-'], b) == spec_repeat(seq!['-'], a + b),
    decreases b,
{
    if b > 0 {
        lemma_dashes_add(a, (b - 1) as nat);
        assert(spec_repeat(seq!['-'], a) + spec_repeat(seq!['-'], b) =~= spec_repeat(seq!['-'], a)
            + spec_repeat(seq!['-'], (b - 1) as nat) + seq!['-']);
    } else {
        assert(spec_repeat(seq!['-'], a) + spec_repeat(seq!['-'], b) =~= spec_repeat(seq!['-'], a));
    }
}

impl Renderer for MarkdownPipeRenderer {
    /// Text is measured by its unicode display width.
    open spec fn spec_width_fn(&self) -> Option<StrWidth> {
        Some(StrWidth::UnicodeDisplayWidth)
    }

    /// The extra width every column is padded with.
    open spec fn spec_extra_width(&self) -> usize {
        0
    }

    /// Whether each data cell's text is put on one line: a pipe table row is one line.
    open spec fn spec_single_line_cells(&self) -> bool {
        true
    }

    open spec fn spec_writes(
        &self,
        hook: Hook,
        part: Part,
        ctx: RenderContext,
        cell: Option<CellContext>,
        out: Seq<char>,
        after: Self,
    ) -> bool {
        match hook {
            Hook::Init => out == Seq::<char>::empty() && after == *self,
            Hook::TableStart => out == Seq::<char>::empty() && after == *self,
            Hook::TableEnd => out == Seq::<char>::empty() && after == *self,
            Hook::SectionStart => match part {
                Part::Header => out == Seq::<char>::empty() && after == *self,
                Part::Data => (out == self.spec_data_start(ctx)) && (after == *self),
                Part::Footer => out == Seq::<char>::empty() && after == *self,
            },
            Hook::SectionEnd => out == Seq::<char>::empty() && after == *self,
            Hook::RowStart => out == Seq::<char>::empty() && after == *self,
            Hook::RowEnd => out == Seq::<char>::empty() && after == *self,
            Hook::CellStart => out == Seq::<char>::empty() && after == *self,
            Hook::CellEnd => out == Seq::<char>::empty() && after == *self,
            Hook::LineStart => out == Seq::<char>::empty() && after == *self,
            Hook::LineEnd => out == seq!['\n'] && after == *self,
            Hook::CellLineStart => (out == if ctx.spec_is_first_column() {
                self.spec_sep(HorzAlign::Left, '|', ' ', ' ', ' ')
            } else {
                Seq::empty()
            }) && (after == *self),
            Hook::CellLineEnd => (out == if ctx.spec_is_last_column() {
                self.spec_sep(HorzAlign::Right, '|', ' ', ' ', ' ')
            } else {
                self.spec_sep(HorzAlign::Center, '|', ' ', ' ', ' ')
            }) && (after == *self),
            Hook::CellLine => match cell {
                Some(c) => (out == self.spec_cell_line(ctx, c)) && (after == *self),
                None => false,
            },
        }
    }

    /// No supported features beyond the defaults' measurement; a pipe table
    /// row is one line, so each data cell is put on a single line.
    fn features(&self) -> (f: Features)
        ensures
            f.flags.0 == 0,
            f.single_line_cells,
    {
        Features::new(SupportFlags::empty()).with_single_line_cells(true)
    }

    fn write_data_cell_line(&mut self, ctx: &RenderContext, cell: &CellContext) -> (s: String)
        ensures
            s@ == old(self).spec_cell_line(*ctx, *cell),
            *final(self) == *old(self),
    {
        let p = cell.padding();
        let pad: usize = if p <= usize::MAX - self.extra_width as usize {
            p + self.extra_width as usize
        } else {
            usize::MAX
        };
        let (l, r) = split_padding(cell.desc.horz_align, pad);
        let mut out = String::new();
        push_spaces(&mut out, l);
        out.append(cell.text);
        if self.pad_trailing_column || !ctx.is_last_column() {
            push_spaces(&mut out, r);
        }
        assert(out@ =~= old(self).spec_cell_line(*ctx, *cell));
        out
    }

    fn write_data_start(&mut self, ctx: &RenderContext) -> (s: String)
        ensures
            s@ == old(self).spec_data_start(*ctx),
            *final(self) == *old(self),
    {
        if ctx.is_empty() {
            return String::new();
        }
        let mut out = String::new();
        if ctx.is_headerless() {
            let e = self.write_empty_row(ctx);
            out.append(e.as_str());
            push_char(&mut out, '\n');
        }
        let am: char = if self.align_markers { ':' } else { '-' };
        let im: char = if self.header_pipes { '|' } else { '+' };
        let ghost head = out@;
        let ghost widths = ctx.col_widths@;
        let ghost descs = ctx.col_descs@;
        let n = ctx.col_widths.len();
        let mut i: usize = 0;
        assert(head =~= head + self.spec_divider_cols(widths, descs, 0));
        while i < n
            invariant
                i <= n,
                n == widths.len(),
                widths == ctx.col_widths@,
                descs == ctx.col_descs@,
                am == self.spec_am(),
                im == self.spec_im(),
                out@ == head + self.spec_divider_cols(widths, descs, i as nat),
            decreases n - i,
        {
            push_divider_part(
                &mut out,
                self.column_padding,
                self.extra_width,
                am,
                im,
                ctx.col_widths[i],
                align_at(ctx.col_descs, i),
                align_at(ctx.col_descs, i + 1),
                i == 0,
                i + 1 == n,
            );
            i = i + 1;
        }
        push_char(&mut out, '\n');
        assert(out@ =~= old(self).spec_data_start(*ctx));
        out
    }

    fn write_data_cell_line_start(&mut self, ctx: &RenderContext) -> (s: String)
        ensures
            s@ == if ctx.spec_is_first_column() {
                old(self).spec_sep(HorzAlign::Left, '|', ' ', ' ', ' ')
            } else {
                Seq::empty()
            },
            *final(self) == *old(self),
    {
        let mut out = String::new();
        if ctx.is_first_column() {
            push_column_sep(&mut out, self.column_padding, HorzAlign::Left, '|', ' ', ' ', ' ');
        }
        assert(out@ =~= if ctx.spec_is_first_column() {
            old(self).spec_sep(HorzAlign::Left, '|', ' ', ' ', ' ')
        } else {
            Seq::empty()
        });
        out
    }

    fn write_data_cell_line_end(&mut self, ctx: &RenderContext) -> (s: String)
        ensures
            s@ == if ctx.spec_is_last_column() {
                old(self).spec_sep(HorzAlign::Right, '|', ' ', ' ', ' ')
            } else {
                old(self).spec_sep(HorzAlign::Center, '|', ' ', ' ', ' ')
            },
            *final(self) == *old(self),
    {
        let mut out = String::new();
        if ctx.is_last_column() {
            push_column_sep(&mut out, self.column_padding, HorzAlign::Right, '|', ' ', ' ', ' ');
        } else {
            push_column_sep(&mut out, self.column_padding, HorzAlign::Center, '|', ' ', ' ', ' ');
        }
        assert(out@ =~= if ctx.spec_is_last_column() {
            old(self).spec_sep(HorzAlign::Right, '|', ' ', ' ', ' ')
        } else {
            old(self).spec_sep(HorzAlign::Center, '|', ' ', ' ', ' ')
        });
        out
    }

    /// A line break.
    fn write_data_line_end(&mut self, ctx: &RenderContext) -> (s: String) {
        newline()
    }

    fn init(&mut self, ctx: &RenderContext) {
    }

    fn write_table_start(&mut self, ctx: &RenderContext) -> (s: String) {
        String::new()
    }

    fn write_table_end(&mut self, ctx: &RenderContext) -> (s: String) {
        String::new()
    }

    fn write_header_cell_line(&mut self, ctx: &RenderContext, cell: &CellContext) -> (s: String) {
        self.write_data_cell_line(ctx, cell)
    }

    fn write_footer_cell_line(&mut self, ctx: &RenderContext, cell: &CellContext) -> (s: String) {
        self.write_data_cell_line(ctx, cell)
    }

    fn write_header_start(&mut self, ctx: &RenderContext) -> (s: String) {
        String::new()
    }

    fn write_header_end(&mut self, ctx: &RenderContext) -> (s: String) {
        String::new()
    }

    fn write_data_end(&mut self, ctx: &RenderContext) -> (s: String) {
        String::new()
    }

    fn write_footer_start(&mut self, ctx: &RenderContext) -> (s: String) {
        String::new()
    }

    fn write_footer_end(&mut self, ctx: &RenderContext) -> (s: String) {
        String::new()
    }

    fn write_header_row_start(&mut self, ctx: &RenderContext) -> (s: String) {
        String::new()
    }

    fn write_data_row_start(&mut self, ctx: &RenderContext) -> (s: String) {
        String::new()
    }

    fn write_footer_row_start(&mut self, ctx: &RenderContext) -> (s: String) {
        String::new()
    }

    fn write_header_row_end(&mut self, ctx: &RenderContext) -> (s: String) {
        String::new()
    }

    fn write_data_row_end(&mut self, ctx: &RenderContext) -> (s: String) {
        String::new()
    }

    fn write_footer_row_end(&mut self, ctx: &RenderContext) -> (s: String) {
        String::new()
    }

    fn write_header_cell_start(&mut self, ctx: &RenderContext) -> (s: String) {
        String::new()
    }

    fn write_data_cell_start(&mut self, ctx: &RenderContext) -> (s: String) {
        String::new()
    }

    fn write_footer_cell_start(&mut self, ctx: &RenderContext) -> (s: String) {
        String::new()
    }

    fn write_header_cell_end(&mut self, ctx: &RenderContext) -> (s: String) {
        String::new()
    }

    fn write_data_cell_end(&mut self, ctx: &RenderContext) -> (s: String) {
        String::new()
    }

    fn write_footer_cell_end(&mut self, ctx: &RenderContext) -> (s: String) {
        String::new()
    }

    fn write_header_line_start(&mut self, ctx: &RenderContext) -> (s: String) {
        String::new()
    }

    fn write_data_line_start(&mut self, ctx: &RenderContext) -> (s: String) {
        String::new()
    }

    fn write_footer_line_start(&mut self, ctx: &RenderContext) -> (s: String) {
        String::new()
    }

    fn write_header_line_end(&mut self, ctx: &RenderContext) -> (s: String) {
        self.write_data_line_end(ctx)
    }

    fn write_footer_line_end(&mut self, ctx: &RenderContext) -> (s: String) {
        self.write_data_line_end(ctx)
    }

    fn write_header_cell_line_start(&mut self, ctx: &RenderContext) -> (s: String) {
        self.write_data_cell_line_start(ctx)
    }

    fn write_footer_cell_line_start(&mut self, ctx: &RenderContext) -> (s: String) {
        self.write_data_cell_line_start(ctx)
    }

    fn write_header_cell_line_end(&mut self, ctx: &RenderContext) -> (s: String) {
        self.write_data_cell_line_end(ctx)
    }

    fn write_footer_cell_line_end(&mut self, ctx: &RenderContext) -> (s: String) {
        self.write_data_cell_line_end(ctx)
    }
}


/// Every cell line of this renderer, in the header, the data and the footer,
/// is written alike.
pub proof fn lemma_pipe_cell_lines_alike(r: MarkdownPipeRenderer, part: Part, ctx: RenderContext, cell: CellContext, out: Seq<char>, after: MarkdownPipeRenderer)
    requires
        r.spec_writes(Hook::CellLine, part, ctx, Some(cell), out, after),
    ensures
        r.spec_writes(Hook::CellLine, Part::Data, ctx, Some(cell), out, after),
        r.spec_writes(Hook::CellLine, Part::Header, ctx, Some(cell), out, after),
        r.spec_writes(Hook::CellLine, Part::Footer, ctx, Some(cell), out, after),
        after == r,
{
}

} // verus!
