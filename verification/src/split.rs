//! Rows of formatted cell text, split into lines.

use vstd::prelude::*;

use crate::align::VertAlign;
use crate::collate::{ColSpec, Collate, CollateRow};
use crate::sort::ColumnOrd;
use crate::format::{CellValue, DisplayFmt};
use crate::row::Row;
use crate::text::{lines, line_count, spec_lines, spec_single_line, spec_vert_aligned_line, str_views, vert_align_lines};
use crate::unicode::string_views;
use crate::wrap::{fill, WrapOptions};

verus! {

/// The largest number of lines among the texts.
pub open spec fn spec_max_line_count(texts: Seq<Seq<char>>) -> nat
    decreases texts.len(),
{
    if texts.len() == 0 {
        0
    } else {
        let prev = spec_max_line_count(texts.drop_last());
        let n = spec_lines(texts.last()).len();
        if n > prev { n } else { prev }
    }
}

/// Every text has at most the maximum number of lines.
pub proof fn lemma_max_line_count(texts: Seq<Seq<char>>, i: int)
    requires
        0 <= i < texts.len(),
    ensures
        spec_lines(texts[i]).len() <= spec_max_line_count(texts),
    decreases texts.len(),
{
    if i < texts.len() - 1 {
        lemma_max_line_count(texts.drop_last(), i);
    }
}

/// Computes the largest number of lines among the texts.
fn max_line_count(texts: &Vec<&str>) -> (h: usize)
    ensures
        h == spec_max_line_count(str_views(texts@)),
{
    let ghost tv = str_views(texts@);
    let mut h: usize = 0;
    let mut i: usize = 0;
    assert(tv.take(0) =~= Seq::<Seq<char>>::empty());
    while i < texts.len()
        invariant
            i <= texts@.len(),
            tv == str_views(texts@),
            h == spec_max_line_count(tv.take(i as int)),
        decreases texts@.len() - i,
    {
        assert(tv.take(i + 1).drop_last() =~= tv.take(i as int));
        assert(tv.take(i + 1).last() == texts@[i as int]@);
        let n = line_count(texts[i]);
        if n > h {
            h = n;
        }
        i = i + 1;
    }
    assert(tv.take(texts@.len() as int) =~= tv);
    h
}

/// The string slices of a vector of strings.
pub fn as_strs(v: &Vec<String>) -> (res: Vec<&str>)
    ensures
        str_views(res@) == string_views(v@),
{
    let mut res: Vec<&str> = Vec::new();
    let mut i: usize = 0;
    while i < v.len()
        invariant
            i <= v@.len(),
            res@.len() == i,
            str_views(res@) == string_views(v@).take(i as int),
        decreases v@.len() - i,
    {
        let s = v[i].as_str();
        let ghost old_res = res@;
        res.push(s);
        assert(res@ == old_res.push(s));
        assert forall|k: int| 0 <= k < i + 1 implies #[trigger] str_views(res@)[k] == string_views(v@).take(i + 1)[k] by {
            if k < i {
                assert(res@[k] == old_res[k]);
                assert(str_views(old_res)[k] == string_views(v@).take(i as int)[k]);
            }
        }
        i = i + 1;
        assert(str_views(res@) =~= string_views(v@).take(i as int));
    }
    assert(string_views(v@).take(v@.len() as int) =~= string_views(v@));
    res
}

/// The display format of column `idx`: the column's own, or the default
/// format for columns without a specification.
pub open spec fn spec_column_fmt(descs: Seq<ColSpec>, idx: int) -> DisplayFmt {
    if 0 <= idx < descs.len() {
        descs[idx].col_fmt
    } else {
        DisplayFmt { precision: None, sign: None }
    }
}

/// The text of a cell: its value displayed with the column's format, or
/// empty text for an absent cell.
pub open spec fn spec_cell_text(cell: Option<CellValue>, fmt: DisplayFmt) -> Seq<char> {
    match cell {
        Some(v) => v.spec_display(fmt),
        None => Seq::empty(),
    }
}

/// The text of a cell as a row holds it: the cell's text, put on a single
/// line when `single_line` is set.
pub open spec fn spec_row_text(cell: Option<CellValue>, fmt: DisplayFmt, single_line: bool) -> Seq<char> {
    if single_line {
        spec_single_line(spec_cell_text(cell, fmt))
    } else {
        spec_cell_text(cell, fmt)
    }
}

/// A single table row with collated column selection and the formatted text
/// of each cell.
pub struct FormatRow<'a, R: Row> {
    /// The row to format.
    inner: CollateRow<'a, R>,
    /// The column output specifications.
    col_descs: &'a [ColSpec<'a>],
    /// The formatted cell texts.
    texts: Vec<String>,
    /// Whether each cell's text was put on a single line.
    single_line: bool,
}

/// The name under which the table driver refers to formatted rows.
pub type FormattedRow<'a, R> = FormatRow<'a, R>;

impl<'a, R: Row> FormatRow<'a, R> {
    /// The formatted texts of the row's cells.
    pub closed spec fn spec_texts(&self) -> Seq<Seq<char>> {
        string_views(self.texts@)
    }

    /// The row's collated cells.
    pub closed spec fn spec_row_cells(&self) -> Seq<Option<CellValue>> {
        self.inner.spec_cells()
    }

    /// The column specifications the row was formatted with.
    pub closed spec fn spec_col_descs(&self) -> Seq<ColSpec<'a>> {
        self.col_descs@
    }

    /// Whether each cell's text was put on a single line.
    pub closed spec fn spec_is_single_line(&self) -> bool {
        self.single_line
    }

    #[verifier::type_invariant]
    spec fn inv(&self) -> bool {
        &&& self.texts@.len() == self.inner.spec_cells().len()
        &&& forall|i: int|
            0 <= i < self.texts@.len() ==> (#[trigger] self.texts@[i])@ == spec_row_text(
                self.inner.spec_cells()[i],
                spec_column_fmt(self.col_descs@, i),
                self.single_line,
            )
    }

    /// Constructs a new `FormatRow` over the given `CollateRow` and column
    /// specifications, formatting every cell.
    pub fn new(inner: CollateRow<'a, R>, col_descs: &'a [ColSpec<'a>]) -> (r: Self)
        ensures
            r.spec_row_cells() == inner.spec_cells(),
            r.spec_col_descs() == col_descs@,
            !r.spec_is_single_line(),
            r.spec_texts().len() == inner.spec_cells().len(),
            forall|i: int|
                0 <= i < r.spec_texts().len() ==> #[trigger] r.spec_texts()[i] == spec_cell_text(
                    inner.spec_cells()[i],
                    spec_column_fmt(col_descs@, i),
                ),
    {
        let r = Self::new_with_lines(inner, col_descs, false);
        assert forall|i: int| 0 <= i < r.spec_texts().len() implies #[trigger] r.spec_texts()[i] == spec_cell_text(
            inner.spec_cells()[i],
            spec_column_fmt(col_descs@, i),
        ) by {
            assert(r.spec_texts()[i] == spec_row_text(inner.spec_cells()[i], spec_column_fmt(col_descs@, i), false));
        }
        r
    }

    /// Constructs a new `FormatRow` over the given `CollateRow` and column
    /// specifications, formatting every cell, and putting each cell's text on
    /// a single line when `single_line` is set.
    pub fn new_with_lines(inner: CollateRow<'a, R>, col_descs: &'a [ColSpec<'a>], single_line: bool) -> (r: Self)
        ensures
            r.spec_row_cells() == inner.spec_cells(),
            r.spec_col_descs() == col_descs@,
            r.spec_is_single_line() == single_line,
            r.spec_texts().len() == inner.spec_cells().len(),
            forall|i: int|
                0 <= i < r.spec_texts().len() ==> #[trigger] r.spec_texts()[i] == spec_row_text(
                    inner.spec_cells()[i],
                    spec_column_fmt(col_descs@, i),
                    single_line,
                ),
    {
        let n = inner.len();
        let mut texts: Vec<String> = Vec::new();
        let mut i: usize = 0;
        while i < n
            invariant
                i <= n,
                n == inner.spec_cells().len(),
                texts@.len() == i,
                forall|k: int|
                    0 <= k < i ==> (#[trigger] texts@[k])@ == spec_row_text(
                        inner.spec_cells()[k],
                        spec_column_fmt(col_descs@, k),
                        single_line,
                    ),
            decreases n - i,
        {
            let fmt = if i < col_descs.len() {
                col_descs[i].col_fmt
            } else {
                DisplayFmt::new()
            };
            let t = match inner.cell(i) {
                Some(v) => fmt.apply(v),
                None => String::new(),
            };
            let t = if single_line {
                crate::text::single_line(t.as_str())
            } else {
                t
            };
            texts.push(t);
            i = i + 1;
        }
        FormatRow { inner, col_descs, texts, single_line }
    }

    /// Returns the number of columns in the row.
    pub fn len(&self) -> (n: usize)
        ensures
            n == self.spec_texts().len(),
            n == self.spec_row_cells().len(),
    {
        proof {
            use_type_invariant(self);
        }
        self.texts.len()
    }

    /// Returns the text of the cell at the given column index.
    pub fn text(&self, col_idx: usize) -> (t: &str)
        requires
            col_idx < self.spec_texts().len(),
        ensures
            t@ == self.spec_texts()[col_idx as int],
    {
        self.texts[col_idx].as_str()
    }

    /// Returns the cell at the given column index, or `None` if there is none.
    pub fn cell(&self, col_idx: usize) -> (c: Option<&CellValue>)
        ensures
            match c {
                Some(v) => col_idx < self.spec_row_cells().len() && self.spec_row_cells()[col_idx as int]
                    == Some(*v),
                None => col_idx >= self.spec_row_cells().len() || self.spec_row_cells()[col_idx as int]
                    is None,
            },
    {
        self.inner.cell(col_idx)
    }
}

/// A single table row containing text cells with line splitting.
#[derive(Debug)]
pub struct TextRow<'a> {
    /// The text of the row's columns.
    inner: Vec<&'a str>,
    /// The maximum number of lines in the row.
    height: usize,
    /// The number of columns in the row.
    len: usize,
}

impl<'a> TextRow<'a> {
    /// The texts the row was built from.
    pub closed spec fn spec_texts(&self) -> Seq<Seq<char>> {
        str_views(self.inner@)
    }

    /// The number of lines in the row.
    pub closed spec fn spec_height(&self) -> nat {
        self.height as nat
    }

    /// The number of columns in the row.
    pub closed spec fn spec_len(&self) -> nat {
        self.len as nat
    }

    /// The text of column `col_idx`: empty beyond the texts provided.
    pub open spec fn spec_text(&self, col_idx: int) -> Seq<char> {
        if 0 <= col_idx < self.spec_texts().len() {
            self.spec_texts()[col_idx]
        } else {
            Seq::empty()
        }
    }

    #[verifier::type_invariant]
    spec fn inv(&self) -> bool {
        self.height == spec_max_line_count(str_views(self.inner@))
    }

    /// Returns a new `TextRow` over the given strings.
    pub fn new(inner: Vec<&'a str>) -> (r: TextRow<'a>)
        ensures
            r.spec_texts() == str_views(inner@),
            r.spec_len() == inner@.len(),
            r.spec_height() == spec_max_line_count(str_views(inner@)),
    {
        let len = inner.len();
        let height = max_line_count(&inner);
        TextRow { inner, height, len }
    }

    /// Sets the overall length of the row, ensuring empty strings are returned
    /// for column indices beyond those already provided.
    pub fn with_len(self, len: usize) -> (r: TextRow<'a>)
        ensures
            r.spec_texts() == self.spec_texts(),
            r.spec_height() == self.spec_height(),
            r.spec_len() == len,
    {
        proof {
            use_type_invariant(&self);
        }
        TextRow { len, ..self }
    }

    /// Returns the maximum number of lines to render in this row.
    pub fn height(&self) -> (h: usize)
        ensures
            h == self.spec_height(),
            h == spec_max_line_count(self.spec_texts()),
    {
        proof {
            use_type_invariant(self);
        }
        self.height
    }

    /// Returns the number of columns in the row.
    pub fn len(&self) -> (n: usize)
        ensures
            n == self.spec_len(),
    {
        self.len
    }

    /// Returns the text of the cell with the given column index.
    pub fn text(&self, col_idx: usize) -> (t: &'a str)
        ensures
            t@ == self.spec_text(col_idx as int),
    {
        proof {
            reveal_strlit("");
        }
        if col_idx < self.inner.len() {
            self.inner[col_idx]
        } else {
            ""
        }
    }

    /// Returns the lines of the cell with the given column index.
    pub fn lines(&self, col_idx: usize) -> (ls: Vec<&'a str>)
        ensures
            str_views(ls@) == spec_lines(self.spec_text(col_idx as int)),
    {
        lines(self.text(col_idx))
    }

    /// Returns the text of the line at the given column & line index, after
    /// vertically aligning it as specified.
    pub fn line_vert_aligned(&self, col_idx: usize, line_idx: usize, vert_align: VertAlign) -> (t: &'a str)
        ensures
            t@ == spec_vert_aligned_line(
                spec_lines(self.spec_text(col_idx as int)),
                line_idx as nat,
                self.spec_height(),
                vert_align,
            ),
    {
        proof {
            use_type_invariant(self);
        }
        let ls = self.lines(col_idx);
        vert_align_lines(&ls, line_idx, self.height, vert_align)
    }
}

/// Whether wrapping applies to column `idx`: wrapping is configured, and the
/// column is among the wrap columns, or no wrap columns are given.
pub open spec fn spec_wraps_column(wrap: Option<WrapOptions>, wrap_columns: Option<Vec<usize>>, idx: int) -> bool {
    wrap is Some && match wrap_columns {
        Some(cols) => cols@.contains(idx as usize),
        None => true,
    }
}

/// The text of a cell after post-width formatting: wrapped at the column width
/// where wrapping applies, unchanged otherwise.
pub open spec fn spec_split_text(
    text: Seq<char>,
    width: usize,
    wrap: Option<WrapOptions>,
    wraps: bool,
) -> Seq<char> {
    if wraps {
        wrap.unwrap().spec_fill_with(text, width)
    } else {
        text
    }
}

/// Whether two column selections select the same columns.
pub open spec fn spec_same_columns(a: Option<Vec<usize>>, b: Option<Vec<usize>>) -> bool {
    match (a, b) {
        (Some(x), Some(y)) => x@ == y@,
        (None, None) => true,
        _ => false,
    }
}

/// Copies a column selection.
pub fn copy_columns(cols: &Option<Vec<usize>>) -> (r: Option<Vec<usize>>)
    ensures
        spec_same_columns(r, *cols),
{
    match cols {
        Some(v) => {
            let c = v.clone();
            assert(c@ =~= v@);
            Some(c)
        },
        None => None,
    }
}

/// Formats the text of column `idx` for a column of width `width`: wraps it
/// with `wrap` if `wrap_columns` selects the column (or selects none),
/// otherwise copies it.
pub fn late_format(
    text: &str,
    idx: usize,
    width: usize,
    wrap: &WrapOptions,
    wrap_columns: &Option<Vec<usize>>,
) -> (s: String)
    ensures
        s@ == spec_split_text(text@, width, Some(*wrap), spec_wraps_column(Some(*wrap), *wrap_columns, idx as int)),
{
    let applies = match wrap_columns {
        Some(cols) => contains_usize(cols, idx),
        None => true,
    };
    if applies {
        fill(text, width, wrap)
    } else {
        String::from_str(text)
    }
}

/// Returns `true` if `v` contains `x`.
fn contains_usize(v: &Vec<usize>, x: usize) -> (b: bool)
    ensures
        b == v@.contains(x),
{
    let mut i: usize = 0;
    while i < v.len()
        invariant
            i <= v@.len(),
            forall|k: int| 0 <= k < i ==> v@[k] != x,
        decreases v@.len() - i,
    {
        if v[i] == x {
            return true;
        }
        i = i + 1;
    }
    false
}

/// A single table row with line splitting: the formatted texts after
/// post-width formatting, and the number of lines of its tallest cell.
pub struct SplitRow<'a, R: Row> {
    /// The formatted row.
    inner: FormatRow<'a, R>,
    /// The cell texts after post-width formatting.
    texts: Vec<String>,
    /// The maximum number of lines in the row.
    height: usize,
}

impl<'a, R: Row> SplitRow<'a, R> {
    /// The cell texts after post-width formatting.
    pub closed spec fn spec_texts(&self) -> Seq<Seq<char>> {
        string_views(self.texts@)
    }

    /// The formatted cell texts before post-width formatting.
    pub closed spec fn spec_inner_texts(&self) -> Seq<Seq<char>> {
        self.inner.spec_texts()
    }

    /// The number of lines in the row.
    pub closed spec fn spec_height(&self) -> nat {
        self.height as nat
    }

    #[verifier::type_invariant]
    spec fn inv(&self) -> bool {
        &&& self.texts@.len() == self.inner.spec_texts().len()
        &&& self.height == spec_max_line_count(string_views(self.texts@))
    }

    /// Returns a new `SplitRow` over the given `FormatRow`, wrapping the text
    /// of each column where wrapping applies, at that column's width.
    pub fn new(
        inner: FormatRow<'a, R>,
        col_widths: &[usize],
        wrap: &Option<WrapOptions>,
        wrap_columns: &Option<Vec<usize>>,
    ) -> (r: Self)
        requires
            col_widths@.len() >= inner.spec_texts().len(),
        ensures
            r.spec_inner_texts() == inner.spec_texts(),
            r.spec_texts().len() == inner.spec_texts().len(),
            forall|i: int|
                0 <= i < r.spec_texts().len() ==> #[trigger] r.spec_texts()[i] == spec_split_text(
                    inner.spec_texts()[i],
                    col_widths@[i],
                    *wrap,
                    spec_wraps_column(*wrap, *wrap_columns, i),
                ),
            r.spec_height() == spec_max_line_count(r.spec_texts()),
    {
        let n = inner.len();
        let mut texts: Vec<String> = Vec::new();
        let mut i: usize = 0;
        while i < n
            invariant
                i <= n,
                n == inner.spec_texts().len(),
                col_widths@.len() >= n,
                texts@.len() == i,
                forall|k: int|
                    0 <= k < i ==> (#[trigger] texts@[k])@ == spec_split_text(
                        inner.spec_texts()[k],
                        col_widths@[k],
                        *wrap,
                        spec_wraps_column(*wrap, *wrap_columns, k),
                    ),
            decreases n - i,
        {
            let text = inner.text(i);
            let t = match wrap {
                Some(opts) => late_format(text, i, col_widths[i], opts, wrap_columns),
                None => String::from_str(text),
            };
            texts.push(t);
            i = i + 1;
        }
        let strs = as_strs(&texts);
        let height = max_line_count(&strs);
        SplitRow { inner, texts, height }
    }

    /// Returns the number of columns in the row.
    pub fn len(&self) -> (n: usize)
        ensures
            n == self.spec_texts().len(),
    {
        proof {
            use_type_invariant(self);
        }
        self.texts.len()
    }

    /// Returns the maximum number of lines to render in this row.
    pub fn height(&self) -> (h: usize)
        ensures
            h == self.spec_height(),
            h == spec_max_line_count(self.spec_texts()),
    {
        proof {
            use_type_invariant(self);
        }
        self.height
    }

    /// Returns the formatted text of the cell with the given column index,
    /// before post-width formatting.
    pub fn text_inner(&self, col_idx: usize) -> (t: &str)
        requires
            col_idx < self.spec_inner_texts().len(),
        ensures
            t@ == self.spec_inner_texts()[col_idx as int],
    {
        self.inner.text(col_idx)
    }

    /// Returns the post-width-formatted text of the cell with the given column
    /// index.
    pub fn text(&self, col_idx: usize) -> (t: &str)
        requires
            col_idx < self.spec_texts().len(),
        ensures
            t@ == self.spec_texts()[col_idx as int],
    {
        self.texts[col_idx].as_str()
    }

    /// Returns the lines of the cell with the given column index.
    pub fn lines(&self, col_idx: usize) -> (ls: Vec<&str>)
        requires
            col_idx < self.spec_texts().len(),
        ensures
            str_views(ls@) == spec_lines(self.spec_texts()[col_idx as int]),
    {
        lines(self.text(col_idx))
    }

    /// Returns the text of the line at the given column & line index, after
    /// vertically aligning it as specified.
    pub fn line_vert_aligned(&self, col_idx: usize, line_idx: usize, vert_align: VertAlign) -> (t: &str)
        requires
            col_idx < self.spec_texts().len(),
        ensures
            t@ == spec_vert_aligned_line(
                spec_lines(self.spec_texts()[col_idx as int]),
                line_idx as nat,
                self.spec_height(),
                vert_align,
            ),
    {
        proof {
            use_type_invariant(self);
        }
        let ls = self.lines(col_idx);
        vert_align_lines(&ls, line_idx, self.height, vert_align)
    }
}


/// Table cell formatter: a collater whose rows get the text of their cells.
pub struct Format<'a, R> {
    /// The table data source.
    inner: Collate<'a, R>,
}

impl<'a, R: Row> Format<'a, R> {
    /// The collater the formatter reads from.
    pub closed spec fn spec_inner(&self) -> Collate<'a, R> {
        self.inner
    }

    /// Constructs a new `Format` for the given collater.
    pub fn new(inner: Collate<'a, R>) -> (f: Self)
        ensures
            f.spec_inner() == inner,
    {
        Format { inner }
    }

    /// The table output columns, in output order.
    pub fn column_selection(&self) -> (c: &'a [usize])
        ensures
            c == self.spec_inner().spec_cols(),
    {
        self.inner.cols()
    }

    /// The column output specifications.
    pub fn column_descs(&self) -> (c: &'a [ColSpec<'a>])
        ensures
            c == self.spec_inner().spec_col_specs(),
    {
        self.inner.col_specs()
    }

    /// The sort parameters for columns, in order of sort priority.
    pub fn column_order(&self) -> (c: &'a [ColumnOrd])
        ensures
            c == self.spec_inner().spec_col_ords(),
    {
        self.inner.col_ords()
    }

    /// The source rows in order, each collated by the column selection and
    /// formatted by the column specifications, with each cell's text put on a
    /// single line when `single_line` is set.
    pub fn into_rows(self, single_line: bool) -> (rows: Vec<FormatRow<'a, R>>)
        ensures
            rows@.len() == self.spec_inner().spec_rows().len(),
            forall|k: int|
                0 <= k < rows@.len() ==> (#[trigger] rows@[k]).spec_row_cells()
                    == crate::collate::spec_collated_cells(
                    self.spec_inner().spec_rows()[k].spec_cells(),
                    self.spec_inner().spec_cols()@,
                ) && rows@[k].spec_col_descs() == self.spec_inner().spec_col_specs()@
                    && rows@[k].spec_texts() == crate::driver::spec_format_texts(
                    rows@[k].spec_row_cells(),
                    self.spec_inner().spec_col_specs()@,
                    single_line,
                ),
    {
        let descs = self.inner.col_specs();
        let cols = self.inner.cols();
        let ghost src = self.inner.spec_rows();
        let collated = self.inner.into_rows();
        let n = collated.len();
        let mut source = collated;
        let mut rows: Vec<FormatRow<'a, R>> = Vec::new();
        let mut i: usize = 0;
        while i < n
            invariant
                i <= n,
                n == src.len(),
                source@.len() == n - i,
                forall|k: int|
                    0 <= k < source@.len() ==> (#[trigger] source@[k]).inner == src[k + i]
                        && source@[k].col_select == cols,
                rows@.len() == i,
                forall|k: int|
                    0 <= k < i ==> (#[trigger] rows@[k]).spec_row_cells()
                        == crate::collate::spec_collated_cells(src[k].spec_cells(), cols@)
                        && rows@[k].spec_col_descs() == descs@ && rows@[k].spec_texts()
                        == crate::driver::spec_format_texts(rows@[k].spec_row_cells(), descs@, single_line),
            decreases n - i,
        {
            let ghost before = source@;
            let c = source.remove(0);
            assert(c == before[0]);
            assert forall|k: int| 0 <= k < source@.len() implies (#[trigger] source@[k]).inner == src[k + i + 1]
                && source@[k].col_select == cols by {
                assert(source@[k] == before[k + 1]);
            }
            let f = FormatRow::new_with_lines(c, descs, single_line);
            assert(f.spec_texts() =~= crate::driver::spec_format_texts(f.spec_row_cells(), descs@, single_line));
            rows.push(f);
            i = i + 1;
        }
        rows
    }
}

} // verus!
