//! Column aggregation: the header and footer rows of a table and the column
//! widths that hold its cells, measured by byte length.

use vstd::prelude::*;
use vstd::string::StringSliceAdditionalSpecFns;

use crate::collate::ColSpec;
use crate::features::StrWidth;
use crate::unicode::{checked_unicode_display_width, spec_display_width};
use crate::row::Row;
use crate::split::{FormatRow, TextRow};
use crate::text::{lines, spec_lines, str_views};

verus! {

/// The byte length of a text, as `str::len` gives it.
pub open spec fn spec_byte_width(s: Seq<char>) -> usize {
    vstd::utf8::encode_utf8(s).len() as usize
}

/// The width of a text under a measure: its byte length, or its display
/// width (capped at `usize::MAX`).
pub open spec fn spec_str_width(s: Seq<char>, m: StrWidth) -> usize {
    match m {
        StrWidth::ByteLen => spec_byte_width(s),
        StrWidth::UnicodeDisplayWidth => if spec_display_width(s) <= usize::MAX {
            spec_display_width(s) as usize
        } else {
            usize::MAX
        },
    }
}

/// Measures a text.
pub fn str_width(s: &str, m: StrWidth) -> (w: usize)
    ensures
        w == spec_str_width(s@, m),
{
    match m {
        StrWidth::ByteLen => s.len(),
        StrWidth::UnicodeDisplayWidth => match checked_unicode_display_width(s) {
            Some(w) => w,
            None => usize::MAX,
        },
    }
}

/// The byte length of the widest line, or `None` when there are no lines.
pub open spec fn spec_widest(ls: Seq<Seq<char>>, m: StrWidth) -> Option<usize>
    decreases ls.len(),
{
    if ls.len() == 0 {
        None
    } else {
        let w = spec_str_width(ls.last(), m);
        match spec_widest(ls.drop_last(), m) {
            None => Some(w),
            Some(b) => Some(if b >= w { b } else { w }),
        }
    }
}

/// The byte length of the widest line of `text`, or `None` when it has no
/// lines.
pub open spec fn spec_widest_line(text: Seq<char>, m: StrWidth) -> Option<usize> {
    spec_widest(spec_lines(text), m)
}

/// Returns the byte length of the widest line of `text`, if it has lines.
pub fn widest_line(text: &str, m: StrWidth) -> (w: Option<usize>)
    ensures
        w == spec_widest_line(text@, m),
{
    let ls = lines(text);
    let ghost v = str_views(ls@);
    let mut best: Option<usize> = None;
    let mut i: usize = 0;
    assert(v.take(0) =~= Seq::<Seq<char>>::empty());
    while i < ls.len()
        invariant
            i <= ls@.len(),
            v == str_views(ls@),
            v == spec_lines(text@),
            best == spec_widest(v.take(i as int), m),
        decreases ls@.len() - i,
    {
        assert(v.take(i + 1).drop_last() =~= v.take(i as int));
        assert(v.take(i + 1).last() == ls@[i as int]@);
        let w = str_width(ls[i], m);
        best = match best {
            None => Some(w),
            Some(b) => Some(if b >= w { b } else { w }),
        };
        i = i + 1;
    }
    assert(v.take(ls@.len() as int) =~= v);
    best
}

/// Whether some column specification has a footer.
pub open spec fn spec_any_footer(descs: Seq<ColSpec>) -> bool {
    exists|i: int| 0 <= i < descs.len() && (#[trigger] descs[i].footer)@.len() > 0
}

/// Whether some column specification has a header.
pub open spec fn spec_any_header(descs: Seq<ColSpec>) -> bool {
    exists|i: int| 0 <= i < descs.len() && (#[trigger] descs[i].header)@.len() > 0
}

/// The starting width of column `idx`: the widest header and footer line
/// among the rows shown, or the column's minimum width for a row whose cell
/// has no lines.
pub open spec fn spec_initial_width(descs: Seq<ColSpec>, idx: int, m: StrWidth) -> usize {
    let min_w = descs[idx].min_width;
    let hw = match spec_widest_line(descs[idx].header@, m) {
        Some(w) => w,
        None => min_w,
    };
    let fw = match spec_widest_line(descs[idx].footer@, m) {
        Some(w) => w,
        None => min_w,
    };
    match (spec_any_header(descs), spec_any_footer(descs)) {
        (true, true) => if hw >= fw { hw } else { fw },
        (true, false) => hw,
        (false, true) => fw,
        (false, false) => min_w,
    }
}

/// The column specification for column `idx`: its own, or the default past
/// the described columns.
pub open spec fn spec_desc_at<'a>(descs: Seq<ColSpec<'a>>, default: ColSpec<'a>, idx: int) -> ColSpec<'a> {
    if 0 <= idx < descs.len() {
        descs[idx]
    } else {
        default
    }
}

/// The new width of a column after one more cell: the maximum width for a
/// fixed-width column; otherwise the widest of the cell's lines (at least
/// the minimum width) and the old width, capped at the maximum width.
pub open spec fn spec_cell_width_update(old: usize, text: Seq<char>, desc: ColSpec, m: StrWidth) -> usize {
    if desc.min_width == desc.max_width {
        desc.max_width
    } else {
        let lw = match spec_widest_line(text, m) {
            Some(w) => w,
            None => 0,
        };
        let cw = if lw >= desc.min_width { lw } else { desc.min_width };
        let wider = if cw >= old { cw } else { old };
        if wider <= desc.max_width { wider } else { desc.max_width }
    }
}

/// The widths after the first `k` cells of a row: each column widened by
/// its cell, a column of width zero appended for cells past the last column.
pub open spec fn spec_row_widths<'a>(
    widths: Seq<usize>,
    texts: Seq<Seq<char>>,
    k: nat,
    descs: Seq<ColSpec<'a>>,
    default: ColSpec<'a>,
    m: StrWidth,
) -> Seq<usize>
    decreases k,
{
    if k == 0 {
        widths
    } else {
        let w = spec_row_widths(widths, texts, (k - 1) as nat, descs, default, m);
        let i = k - 1;
        let old = if i < w.len() { w[i] } else { 0 };
        let new = spec_cell_width_update(old, texts[i], spec_desc_at(descs, default, i), m);
        if i < w.len() {
            w.update(i, new)
        } else {
            w.push(new)
        }
    }
}

/// The widths after a sequence of rows, each given by its cell texts.
pub open spec fn spec_rows_widths<'a>(
    widths: Seq<usize>,
    rows: Seq<Seq<Seq<char>>>,
    descs: Seq<ColSpec<'a>>,
    default: ColSpec<'a>,
    m: StrWidth,
) -> Seq<usize>
    decreases rows.len(),
{
    if rows.len() == 0 {
        widths
    } else {
        let w = spec_rows_widths(widths, rows.drop_last(), descs, default, m);
        spec_row_widths(w, rows.last(), rows.last().len(), descs, default, m)
    }
}

/// The largest number of cells in a row.
pub open spec fn spec_max_row_len(rows: Seq<Seq<Seq<char>>>) -> nat
    decreases rows.len(),
{
    if rows.len() == 0 {
        0
    } else {
        let prev = spec_max_row_len(rows.drop_last());
        if rows.last().len() > prev { rows.last().len() } else { prev }
    }
}

/// The cell texts of split rows.
pub open spec fn spec_row_texts<'a, R: Row>(rows: Seq<FormatRow<'a, R>>) -> Seq<Seq<Seq<char>>> {
    rows.map_values(|r: FormatRow<'a, R>| r.spec_texts())
}

/// Processing a row keeps at least as many columns, and one per cell.
pub proof fn lemma_row_widths_len<'a>(
    widths: Seq<usize>,
    texts: Seq<Seq<char>>,
    k: nat,
    descs: Seq<ColSpec<'a>>,
    default: ColSpec<'a>,
    m: StrWidth,
)
    ensures
        spec_row_widths(widths, texts, k, descs, default, m).len() == if widths.len() >= k {
            widths.len()
        } else {
            k
        },
    decreases k,
{
    if k > 0 {
        lemma_row_widths_len(widths, texts, (k - 1) as nat, descs, default, m);
    }
}

/// Processing rows keeps the widths already there and gives every row, and
/// so the longest row, a width for each of its cells.
pub proof fn lemma_rows_widths_cover<'a>(
    init: Seq<usize>,
    rows: Seq<Seq<Seq<char>>>,
    descs: Seq<ColSpec<'a>>,
    default: ColSpec<'a>,
    m: StrWidth,
)
    ensures
        spec_rows_widths(init, rows, descs, default, m).len() >= init.len(),
        spec_rows_widths(init, rows, descs, default, m).len() >= spec_max_row_len(rows),
        forall|r: int|
            0 <= r < rows.len() ==> (#[trigger] rows[r]).len() <= spec_rows_widths(init, rows, descs, default, m).len(),
    decreases rows.len(),
{
    if rows.len() > 0 {
        let w = spec_rows_widths(init, rows.drop_last(), descs, default, m);
        lemma_rows_widths_cover(init, rows.drop_last(), descs, default, m);
        lemma_row_widths_len(w, rows.last(), rows.last().len(), descs, default, m);
        assert forall|r: int| 0 <= r < rows.len() implies (#[trigger] rows[r]).len() <= spec_rows_widths(
            init,
            rows,
            descs,
            default,
            m,
        ).len() by {
            if r < rows.len() - 1 {
                assert(rows.drop_last()[r] == rows[r]);
            }
        }
    }
}

/// Whether a column width suits its specification: the maximum width for a
/// fixed-width column; otherwise at least `lower` and at most the maximum.
pub open spec fn spec_covers(x: usize, lower: int, d: ColSpec) -> bool {
    if d.min_width == d.max_width {
        x == d.max_width
    } else {
        lower <= x && x <= d.max_width
    }
}

/// The width a cell asks of its column: its widest line, at least the
/// minimum width, capped at the maximum width.
pub open spec fn spec_cell_demand(text: Seq<char>, d: ColSpec, m: StrWidth) -> int {
    let lw = match spec_widest_line(text, m) {
        Some(w) => w,
        None => 0,
    };
    let cw = if lw >= d.min_width { lw } else { d.min_width };
    if cw <= d.max_width { cw as int } else { d.max_width as int }
}

/// A row keeps a column width that suits its specification suitable.
proof fn lemma_row_keeps<'a>(
    widths: Seq<usize>,
    texts: Seq<Seq<char>>,
    k: nat,
    descs: Seq<ColSpec<'a>>,
    default: ColSpec<'a>,
    m: StrWidth,
    j: int,
    lower: int,
)
    requires
        0 <= j < widths.len(),
        lower <= spec_desc_at(descs, default, j).max_width,
        spec_covers(widths[j], lower, spec_desc_at(descs, default, j)),
    ensures
        j < spec_row_widths(widths, texts, k, descs, default, m).len(),
        spec_covers(spec_row_widths(widths, texts, k, descs, default, m)[j], lower, spec_desc_at(descs, default, j)),
    decreases k,
{
    if k > 0 {
        lemma_row_keeps(widths, texts, (k - 1) as nat, descs, default, m, j, lower);
    }
}

/// After a row's cell in column `j`, the column's width suits its
/// specification with at least the cell's demand.
proof fn lemma_row_sets<'a>(
    widths: Seq<usize>,
    texts: Seq<Seq<char>>,
    k: nat,
    descs: Seq<ColSpec<'a>>,
    default: ColSpec<'a>,
    m: StrWidth,
    j: int,
)
    requires
        0 <= j < k <= texts.len(),
    ensures
        j < spec_row_widths(widths, texts, k, descs, default, m).len(),
        spec_covers(
            spec_row_widths(widths, texts, k, descs, default, m)[j],
            spec_cell_demand(texts[j], spec_desc_at(descs, default, j), m),
            spec_desc_at(descs, default, j),
        ),
    decreases k,
{
    lemma_row_widths_len(widths, texts, (k - 1) as nat, descs, default, m);
    if k - 1 > j {
        lemma_row_sets(widths, texts, (k - 1) as nat, descs, default, m, j);
    }
}

/// Every column that a row reaches ends up with a width that suits its
/// specification: the maximum width for a fixed-width column; otherwise at
/// most the maximum width and at least what any of its cells asks (the
/// widest line, at least the minimum width, capped at the maximum width).
pub proof fn lemma_widths_hold_cells<'a>(
    init: Seq<usize>,
    rows: Seq<Seq<Seq<char>>>,
    descs: Seq<ColSpec<'a>>,
    default: ColSpec<'a>,
    m: StrWidth,
    r: int,
    j: int,
)
    requires
        0 <= r < rows.len(),
        0 <= j < rows[r].len(),
    ensures
        j < spec_rows_widths(init, rows, descs, default, m).len(),
        spec_covers(
            spec_rows_widths(init, rows, descs, default, m)[j],
            spec_cell_demand(rows[r][j], spec_desc_at(descs, default, j), m),
            spec_desc_at(descs, default, j),
        ),
    decreases rows.len(),
{
    let w = spec_rows_widths(init, rows.drop_last(), descs, default, m);
    let last = rows.last();
    if r == rows.len() - 1 {
        lemma_row_sets(w, last, last.len(), descs, default, m, j);
    } else {
        assert(rows.drop_last()[r] == rows[r]);
        lemma_widths_hold_cells(init, rows.drop_last(), descs, default, m, r, j);
        lemma_row_keeps(
            w,
            last,
            last.len(),
            descs,
            default,
            m,
            j,
            spec_cell_demand(rows[r][j], spec_desc_at(descs, default, j), m),
        );
    }
}

/// Each width with the extra width added, saturating at `usize::MAX`.
pub open spec fn spec_add_extra(widths: Seq<usize>, extra: usize) -> Seq<usize> {
    widths.map_values(|w: usize| if w + extra <= usize::MAX { (w + extra) as usize } else { usize::MAX })
}

/// Adds the extra width to every width.
fn add_extra(widths: Vec<usize>, extra: usize) -> (r: Vec<usize>)
    ensures
        r@ == spec_add_extra(widths@, extra),
{
    let mut r: Vec<usize> = Vec::new();
    let mut i: usize = 0;
    while i < widths.len()
        invariant
            i <= widths@.len(),
            r@ == spec_add_extra(widths@.take(i as int), extra),
        decreases widths@.len() - i,
    {
        let w = widths[i];
        let v: usize = if w <= usize::MAX - extra { w + extra } else { usize::MAX };
        r.push(v);
        i = i + 1;
        assert(r@ =~= spec_add_extra(widths@.take(i as int), extra));
    }
    assert(widths@.take(widths@.len() as int) =~= widths@);
    r
}

/// The largest number of cells in one of the rows.
fn max_row_len<'a, R: Row>(rows: &Vec<FormatRow<'a, R>>) -> (n: usize)
    ensures
        n == spec_max_row_len(spec_row_texts(rows@)),
{
    let ghost all = spec_row_texts(rows@);
    let mut best: usize = 0;
    let mut r: usize = 0;
    assert(all.take(0) =~= Seq::<Seq<Seq<char>>>::empty());
    while r < rows.len()
        invariant
            r <= rows@.len(),
            all == spec_row_texts(rows@),
            best == spec_max_row_len(all.take(r as int)),
        decreases rows@.len() - r,
    {
        assert(all.take(r + 1).drop_last() =~= all.take(r as int));
        assert(all.take(r + 1).last() == rows@[r as int].spec_texts());
        let len = rows[r].len();
        if len > best {
            best = len;
        }
        r = r + 1;
    }
    assert(all.take(rows@.len() as int) =~= all);
    best
}

/// Whether some column specification among the first `i` has a header.
spec fn spec_header_within(descs: Seq<ColSpec>, i: int) -> bool {
    exists|j: int| 0 <= j < i && (#[trigger] descs[j].header)@.len() > 0
}

/// Whether some column specification among the first `i` has a footer.
spec fn spec_footer_within(descs: Seq<ColSpec>, i: int) -> bool {
    exists|j: int| 0 <= j < i && (#[trigger] descs[j].footer)@.len() > 0
}

/// The starting width of every described column under a measure: the
/// widest header and footer line, or the minimum width where a used header
/// or footer row has no line in the column.
pub fn initial_widths(col_descs: &[ColSpec], m: StrWidth) -> (w: Vec<usize>)
    ensures
        w@ == Seq::new(col_descs@.len(), |i: int| spec_initial_width(col_descs@, i, m)),
{
    let mut header_used = false;
    let mut footer_used = false;
    let mut k: usize = 0;
    while k < col_descs.len()
        invariant
            k <= col_descs@.len(),
            header_used == spec_header_within(col_descs@, k as int),
            footer_used == spec_footer_within(col_descs@, k as int),
        decreases col_descs@.len() - k,
    {
        if col_descs[k].header.unicode_len() != 0 {
            header_used = true;
        }
        if col_descs[k].footer.unicode_len() != 0 {
            footer_used = true;
        }
        k = k + 1;
    }
    let n = col_descs.len();
    let mut col_widths: Vec<usize> = Vec::new();
    let mut i: usize = 0;
    while i < n
        invariant
            i <= n,
            n == col_descs@.len(),
            header_used == spec_any_header(col_descs@),
            footer_used == spec_any_footer(col_descs@),
            col_widths@.len() == i,
            forall|j: int| 0 <= j < i ==> #[trigger] col_widths@[j] == spec_initial_width(col_descs@, j, m),
        decreases n - i,
    {
        let d = &col_descs[i];
        let min_w = d.min_width;
        let hw = match widest_line(d.header, m) {
            Some(w) => w,
            None => min_w,
        };
        let fw = match widest_line(d.footer, m) {
            Some(w) => w,
            None => min_w,
        };
        let w = if header_used && footer_used {
            if hw >= fw { hw } else { fw }
        } else if header_used {
            hw
        } else if footer_used {
            fw
        } else {
            min_w
        };
        col_widths.push(w);
        i = i + 1;
    }
    assert(col_widths@ =~= Seq::new(col_descs@.len(), |i: int| spec_initial_width(col_descs@, i, m)));
    col_widths
}

/// The column widths of the rows under a measure, starting from the header
/// and footer widths.
fn column_widths<'a, R: Row>(
    rows: &Vec<FormatRow<'a, R>>,
    col_descs: &'a [ColSpec<'a>],
    default_col_desc: &ColSpec<'a>,
    m: StrWidth,
) -> (w: Vec<usize>)
    ensures
        w@ == spec_rows_widths(
            Seq::new(col_descs@.len(), |i: int| spec_initial_width(col_descs@, i, m)),
            spec_row_texts(rows@),
            col_descs@,
            *default_col_desc,
            m,
        ),
{
    let mut col_widths = initial_widths(col_descs, m);
    let ghost init = col_widths@;
    let ghost all = spec_row_texts(rows@);
    let mut r: usize = 0;
    assert(all.take(0) =~= Seq::<Seq<Seq<char>>>::empty());
    while r < rows.len()
        invariant
            r <= rows@.len(),
            all == spec_row_texts(rows@),
            col_widths@ == spec_rows_widths(init, all.take(r as int), col_descs@, *default_col_desc, m),
        decreases rows@.len() - r,
    {
        assert(all.take(r + 1).drop_last() =~= all.take(r as int));
        assert(all.take(r + 1).last() == rows@[r as int].spec_texts());
        let row = &rows[r];
        let len = row.len();
        let ghost start = col_widths@;
        let ghost texts = row.spec_texts();
        let mut idx: usize = 0;
        while idx < len
            invariant
                idx <= len,
                len == texts.len(),
                texts == row.spec_texts(),
                col_widths@ == spec_row_widths(start, texts, idx as nat, col_descs@, *default_col_desc, m),
            decreases len - idx,
        {
            proof {
                lemma_row_widths_len(start, texts, idx as nat, col_descs@, *default_col_desc, m);
            }
            if idx >= col_widths.len() {
                col_widths.push(0);
            }
            let desc = if idx < col_descs.len() { &col_descs[idx] } else { default_col_desc };
            let new = if desc.min_width == desc.max_width {
                desc.max_width
            } else {
                let lw = match widest_line(row.text(idx), m) {
                    Some(w) => w,
                    None => 0,
                };
                let cw = if lw >= desc.min_width { lw } else { desc.min_width };
                let old = col_widths[idx];
                let wider = if cw >= old { cw } else { old };
                if wider <= desc.max_width { wider } else { desc.max_width }
            };
            col_widths.set(idx, new);
            idx = idx + 1;
            assert(col_widths@ =~= spec_row_widths(start, texts, idx as nat, col_descs@, *default_col_desc, m));
        }
        r = r + 1;
    }
    assert(all.take(rows@.len() as int) =~= all);
    col_widths
}

/// Table cell column aggregator: the rows of a table, its header and footer
/// rows, and the widths of its columns.
pub struct Aggregate<'a, R: Row> {
    /// The materialized rows of the table.
    rows: Vec<FormatRow<'a, R>>,
    /// The column output specifications.
    col_descs: &'a [ColSpec<'a>],
    /// The column widths.
    col_widths: Vec<usize>,
    /// The table header row.
    header_row: Option<TextRow<'a>>,
    /// The table footer row.
    footer_row: Option<TextRow<'a>>,
    /// The largest number of cells in a row.
    max_row_len: usize,
}

impl<'a, R: Row> Aggregate<'a, R> {
    /// The rows.
    pub closed spec fn spec_rows(&self) -> Seq<FormatRow<'a, R>> {
        self.rows@
    }

    /// The column specifications.
    pub closed spec fn spec_col_descs(&self) -> Seq<ColSpec<'a>> {
        self.col_descs@
    }

    /// The column widths.
    pub closed spec fn spec_col_widths(&self) -> Seq<usize> {
        self.col_widths@
    }

    /// The header row, if any column has a header.
    pub closed spec fn spec_header_row(&self) -> Option<TextRow<'a>> {
        self.header_row
    }

    /// The footer row, if any column has a footer.
    pub closed spec fn spec_footer_row(&self) -> Option<TextRow<'a>> {
        self.footer_row
    }

    /// The largest number of cells in a row.
    pub closed spec fn spec_widest_row(&self) -> usize {
        self.max_row_len
    }

    /// Aggregates the given rows: builds the header and footer rows when some
    /// column has one, sized to the longest row, and, under a measure,
    /// computes the column widths, starting from the header and footer widths
    /// and widening by every cell, then adds the extra column width. Without
    /// a measure there are no column widths.
    pub fn new(
        rows: Vec<FormatRow<'a, R>>,
        col_descs: &'a [ColSpec<'a>],
        default_col_desc: &ColSpec<'a>,
        measure: Option<StrWidth>,
        extra_column_width: usize,
    ) -> (a: Self)
        ensures
            a.spec_rows() == rows@,
            a.spec_col_descs() == col_descs@,
            a.spec_col_widths() == match measure {
                Some(m) => spec_add_extra(
                    spec_rows_widths(
                        Seq::new(col_descs@.len(), |i: int| spec_initial_width(col_descs@, i, m)),
                        spec_row_texts(rows@),
                        col_descs@,
                        *default_col_desc,
                        m,
                    ),
                    extra_column_width,
                ),
                None => Seq::<usize>::empty(),
            },
            a.spec_header_row() is Some <==> spec_any_header(col_descs@),
            a.spec_footer_row() is Some <==> spec_any_footer(col_descs@),
            a.spec_widest_row() == spec_max_row_len(spec_row_texts(rows@)),
            measure is Some ==> a.spec_widest_row() <= a.spec_col_widths().len() && forall|r: int|
                0 <= r < rows@.len() ==> (#[trigger] rows@[r]).spec_texts().len() <= a.spec_col_widths().len(),
            a.spec_header_row() matches Some(h) ==> h.spec_len() == spec_max_row_len(spec_row_texts(rows@))
                && h.spec_texts() == col_descs@.map_values(|d: ColSpec<'a>| d.header@),
            a.spec_footer_row() matches Some(f) ==> f.spec_len() == spec_max_row_len(spec_row_texts(rows@))
                && f.spec_texts() == col_descs@.map_values(|d: ColSpec<'a>| d.footer@),
    {
        let n = col_descs.len();
        // The header and footer cells.
        let mut header_cells: Vec<&'a str> = Vec::new();
        let mut footer_cells: Vec<&'a str> = Vec::new();
        let mut header_used = false;
        let mut footer_used = false;
        let mut i: usize = 0;
        while i < n
            invariant
                i <= n,
                n == col_descs@.len(),
                header_cells@.len() == i,
                footer_cells@.len() == i,
                forall|j: int| 0 <= j < i ==> (#[trigger] header_cells@[j])@ == col_descs@[j].header@,
                forall|j: int| 0 <= j < i ==> (#[trigger] footer_cells@[j])@ == col_descs@[j].footer@,
                header_used == exists|j: int| 0 <= j < i && (#[trigger] col_descs@[j].header)@.len() > 0,
                footer_used == exists|j: int| 0 <= j < i && (#[trigger] col_descs@[j].footer)@.len() > 0,
            decreases n - i,
        {
            let h = col_descs[i].header;
            let f = col_descs[i].footer;
            if h.unicode_len() != 0 {
                header_used = true;
            }
            if f.unicode_len() != 0 {
                footer_used = true;
            }
            header_cells.push(h);
            footer_cells.push(f);
            i = i + 1;
        }
        assert(str_views(header_cells@) =~= col_descs@.map_values(|d: ColSpec<'a>| d.header@));
        assert(str_views(footer_cells@) =~= col_descs@.map_values(|d: ColSpec<'a>| d.footer@));
        let max_row_len = max_row_len(&rows);
        let col_widths = match measure {
            Some(m) => {
                let w = column_widths(&rows, col_descs, default_col_desc, m);
                proof {
                    lemma_rows_widths_cover(
                        Seq::new(col_descs@.len(), |i: int| spec_initial_width(col_descs@, i, m)),
                        spec_row_texts(rows@),
                        col_descs@,
                        *default_col_desc,
                        m,
                    );
                    assert forall|r: int| 0 <= r < rows@.len() implies (#[trigger] rows@[r]).spec_texts().len()
                        <= w@.len() by {
                        assert(spec_row_texts(rows@)[r] == rows@[r].spec_texts());
                    }
                }
                add_extra(w, extra_column_width)
            },
            None => Vec::new(),
        };
        let header_row = if header_used {
            Some(TextRow::new(header_cells).with_len(max_row_len))
        } else {
            None
        };
        let footer_row = if footer_used {
            Some(TextRow::new(footer_cells).with_len(max_row_len))
        } else {
            None
        };
        Aggregate { rows, col_descs, col_widths, header_row, footer_row, max_row_len }
    }

    /// The rows.
    pub fn rows(&self) -> (r: &[FormatRow<'a, R>])
        ensures
            r@ == self.spec_rows(),
    {
        self.rows.as_slice()
    }

    /// The column output specifications.
    pub fn column_descs(&self) -> (d: &'a [ColSpec<'a>])
        ensures
            d@ == self.spec_col_descs(),
    {
        self.col_descs
    }

    /// The column widths.
    pub fn col_widths(&self) -> (w: &[usize])
        ensures
            w@ == self.spec_col_widths(),
    {
        self.col_widths.as_slice()
    }

    /// The largest number of cells in a row.
    pub fn max_row_len(&self) -> (n: usize)
        ensures
            n == self.spec_widest_row(),
    {
        self.max_row_len
    }

    /// Replaces the column widths by as many others.
    pub fn set_col_widths(&mut self, widths: Vec<usize>)
        requires
            widths@.len() == old(self).spec_col_widths().len(),
        ensures
            final(self).spec_col_widths() == widths@,
            final(self).spec_rows() == old(self).spec_rows(),
            final(self).spec_col_descs() == old(self).spec_col_descs(),
            final(self).spec_header_row() == old(self).spec_header_row(),
            final(self).spec_footer_row() == old(self).spec_footer_row(),
            final(self).spec_widest_row() == old(self).spec_widest_row(),
    {
        self.col_widths = widths;
    }

    /// The header row.
    pub fn header_row(&self) -> (h: Option<&TextRow<'a>>)
        ensures
            h == match self.spec_header_row() {
                Some(r) => Some(&r),
                None => None::<&TextRow<'a>>,
            },
    {
        self.header_row.as_ref()
    }

    /// The footer row.
    pub fn footer_row(&self) -> (f: Option<&TextRow<'a>>)
        ensures
            f == match self.spec_footer_row() {
                Some(r) => Some(&r),
                None => None::<&TextRow<'a>>,
            },
    {
        self.footer_row.as_ref()
    }
}

/// The widest line is at least as wide as every line.
pub proof fn lemma_widest_holds_lines(ls: Seq<Seq<char>>, m: StrWidth)
    ensures
        ls.len() > 0 ==> spec_widest(ls, m) is Some,
        forall|k: int| 0 <= k < ls.len() ==> (spec_widest(ls, m) matches Some(w) && spec_str_width(#[trigger] ls[k], m) <= w),
    decreases ls.len(),
{
    if ls.len() > 0 {
        lemma_widest_holds_lines(ls.drop_last(), m);
        assert forall|k: int| 0 <= k < ls.len() implies (spec_widest(ls, m) matches Some(w) && spec_str_width(#[trigger] ls[k], m) <= w) by {
            if k < ls.len() - 1 {
                assert(ls.drop_last()[k] == ls[k]);
            }
        }
    }
}

/// A column's starting width holds every line of its header and of its
/// footer: neither is cut when no maximum width forces it.
pub proof fn lemma_initial_width_holds_header_and_footer(descs: Seq<ColSpec>, idx: int, m: StrWidth)
    requires
        0 <= idx < descs.len(),
    ensures
        forall|k: int|
            0 <= k < spec_lines(descs[idx].header@).len() ==> spec_str_width(
                #[trigger] spec_lines(descs[idx].header@)[k],
                m,
            ) <= spec_initial_width(descs, idx, m),
        forall|k: int|
            0 <= k < spec_lines(descs[idx].footer@).len() ==> spec_str_width(
                #[trigger] spec_lines(descs[idx].footer@)[k],
                m,
            ) <= spec_initial_width(descs, idx, m),
{
    let h = descs[idx].header@;
    let f = descs[idx].footer@;
    lemma_widest_holds_lines(spec_lines(h), m);
    lemma_widest_holds_lines(spec_lines(f), m);
    if spec_lines(h).len() > 0 {
        assert(h.len() > 0);
        assert(spec_any_header(descs));
    }
    if spec_lines(f).len() > 0 {
        assert(f.len() > 0);
        assert(spec_any_footer(descs));
    }
}

} // verus!
