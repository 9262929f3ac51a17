//! Laying out one line of a cell: truncation with ellipses, and padding to the
//! column width according to the horizontal alignment.

use vstd::prelude::*;

use crate::align::{HorzAlign, spec_split_padding, split_padding};
use crate::text::sat_sub;
use crate::unicode::{spec_truncate, TruncateState, unicode_grapheme_aware_truncation, spec_text_width,
    lemma_truncate_fits};

verus! {

/// `piece` repeated `n` times.
pub open spec fn spec_repeat(piece: Seq<char>, n: nat) -> Seq<char>
    decreases n,
{
    if n == 0 {
        Seq::empty()
    } else {
        spec_repeat(piece, (n - 1) as nat) + piece
    }
}

/// `n` spaces.
pub open spec fn spec_spaces(n: nat) -> Seq<char> {
    spec_repeat(seq![' '], n)
}

/// Appends `piece` to `out` `n` times.
pub fn push_repeat(out: &mut String, piece: &str, n: usize)
    ensures
        final(out)@ == old(out)@ + spec_repeat(piece@, n as nat),
{
    let ghost start = out@;
    let mut i: usize = 0;
    assert(start =~= start + spec_repeat(piece@, 0));
    while i < n
        invariant
            i <= n,
            out@ == start + spec_repeat(piece@, i as nat),
        decreases n - i,
    {
        out.append(piece);
        i = i + 1;
        assert(out@ =~= start + spec_repeat(piece@, i as nat));
    }
}

/// Appends `n` spaces to `out`.
pub fn push_spaces(out: &mut String, n: usize)
    ensures
        final(out)@ == old(out)@ + spec_spaces(n as nat),
{
    proof {
        reveal_strlit(" ");
    }
    assert(" "@ =~= seq![' ']);
    push_repeat(out, " ", n);
}

/// The parts of a laid-out cell line, in output order: left padding, whether
/// a leading ellipsis is shown, the kept text, its truncation state, whether a
/// trailing ellipsis is shown, and right padding.
pub struct CellLayout {
    /// Spaces before the text.
    pub left_pad: nat,
    /// Whether an ellipsis precedes the text.
    pub left_ellipsis: bool,
    /// The kept text.
    pub text: Seq<char>,
    /// How the text was truncated, with its width.
    pub state: TruncateState,
    /// Whether an ellipsis follows the text.
    pub right_ellipsis: bool,
    /// Spaces after the text.
    pub right_pad: nat,
}

/// How a cell line of text `text`, of width `text_width`, is laid out in a
/// cell of `cell_width` columns: text that does not fit is truncated to leave
/// room for one ellipsis per cut side (two for centered text), and the rest of
/// the cell is padded according to the alignment, with each shown ellipsis
/// taking one column of padding.
pub open spec fn spec_cell_layout(text: Seq<char>, text_width: usize, cell_width: usize, align: HorzAlign)
    -> CellLayout
{
    let ellipses_space: nat = if align == HorzAlign::Center { 2 } else { 1 };
    let (t, state) = if text_width > cell_width {
        spec_truncate(text, text_width, sat_sub(cell_width as nat, ellipses_space) as usize, align)
    } else {
        (text, TruncateState::Neither(text_width))
    };
    let pad = sat_sub(cell_width as nat, state.spec_width() as nat);
    let (l, r) = spec_split_padding(align, pad);
    CellLayout {
        left_pad: if state.spec_left_truncated() { sat_sub(l, 1) } else { l },
        left_ellipsis: state.spec_left_truncated(),
        text: t,
        state,
        right_ellipsis: state.spec_right_truncated(),
        right_pad: if state.spec_right_truncated() { sat_sub(r, 1) } else { r },
    }
}

/// The characters of a laid-out cell line, with `ellipsis` as the ellipsis.
pub open spec fn spec_cell_line(layout: CellLayout, ellipsis: Seq<char>) -> Seq<char> {
    spec_spaces(layout.left_pad) + (if layout.left_ellipsis { ellipsis } else { Seq::empty() })
        + layout.text + (if layout.right_ellipsis { ellipsis } else { Seq::empty() })
        + spec_spaces(layout.right_pad)
}

/// The number of columns a laid-out cell line covers, counting each ellipsis
/// as one column and the kept text by its truncation width.
pub open spec fn spec_layout_columns(layout: CellLayout) -> int {
    layout.left_pad + (if layout.left_ellipsis { 1int } else { 0 }) + layout.state.spec_width()
        + (if layout.right_ellipsis { 1int } else { 0 }) + layout.right_pad
}

/// Every cell line fills its cell exactly: padding, ellipses and kept text
/// together cover `cell_width` columns, whether or not the text was cut.
pub proof fn lemma_cell_layout_fills_cell(text: Seq<char>, text_width: usize, cell_width: usize, align: HorzAlign)
    ensures
        spec_layout_columns(spec_cell_layout(text, text_width, cell_width, align)) == cell_width,
{
    let ellipses_space: nat = if align == HorzAlign::Center { 2 } else { 1 };
    if text_width > cell_width {
        let cw = sat_sub(cell_width as nat, ellipses_space) as usize;
        if text_width > cw {
            lemma_truncate_fits(text, text_width, cw, align);
        }
    }
}

/// Lays out one line of a cell: truncates text wider than the cell (leaving
/// room for the ellipses), then pads it to the cell width according to the
/// alignment. Returns the text to write.
pub fn write_cell_formatted(
    text: &str,
    text_width: usize,
    cell_width: usize,
    align: HorzAlign,
    ellipsis: &str,
) -> (res: String)
    requires
        align == HorzAlign::Center && text_width > cell_width && cell_width > 2 ==> text_width
            == spec_text_width(text@),
    ensures
        res@ == spec_cell_line(spec_cell_layout(text@, text_width, cell_width, align), ellipsis@),
{
    let ellipses_space: usize = if align == HorzAlign::Center { 2 } else { 1 };
    let (t, state) = if text_width > cell_width {
        let cw: usize = if cell_width >= ellipses_space { cell_width - ellipses_space } else { 0 };
        unicode_grapheme_aware_truncation(text, text_width, cw, align)
    } else {
        (String::from_str(text), TruncateState::Neither(text_width))
    };
    let w = state.width();
    let pad: usize = if cell_width >= w { cell_width - w } else { 0 };
    let (l, r) = split_padding(align, pad);
    let lt = state.left_truncated();
    let rt = state.right_truncated();
    let l2: usize = if lt { if l >= 1 { l - 1 } else { 0 } } else { l };
    let r2: usize = if rt { if r >= 1 { r - 1 } else { 0 } } else { r };
    let mut out = String::new();
    push_spaces(&mut out, l2);
    if lt {
        out.append(ellipsis);
    }
    out.append(t.as_str());
    if rt {
        out.append(ellipsis);
    }
    push_spaces(&mut out, r2);
    let ghost layout = spec_cell_layout(text@, text_width, cell_width, align);
    assert(out@ =~= spec_cell_line(layout, ellipsis@));
    out
}

} // verus!
