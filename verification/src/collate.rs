//! Column collation: column selection and per-column output specifications.

use vstd::prelude::*;

use crate::align::{HorzAlign, VertAlign};
use crate::format::{CellValue, DisplayFmt};
use crate::row::Row;
use crate::sort::ColumnOrd;

verus! {

/// The output specification of a table column.
#[derive(Debug, Clone, Copy)]
pub struct ColSpec<'a> {
    /// The column header text.
    pub header: &'a str,
    /// The column footer text.
    pub footer: &'a str,
    /// The `DisplayFmt` to use for cells in this column.
    pub col_fmt: DisplayFmt,
    /// The minimum width of the column.
    pub min_width: usize,
    /// The maximum width of the column.
    pub max_width: usize,
    /// The horizontal alignment of text in the column.
    pub horz_align: HorzAlign,
    /// The vertical alignment of text in the column.
    pub vert_align: VertAlign,
}

/// The name under which the table driver refers to column specifications.
pub type ColumnDesc<'a> = ColSpec<'a>;

impl<'a> ColSpec<'a> {
    /// Whether the specification has the default values: no header or footer,
    /// default formatting, unconstrained width, top-left alignment.
    pub open spec fn spec_is_default(&self) -> bool {
        &&& self.header@ == Seq::<char>::empty()
        &&& self.footer@ == Seq::<char>::empty()
        &&& self.col_fmt.precision is None
        &&& self.col_fmt.sign is None
        &&& self.min_width == 0
        &&& self.max_width == usize::MAX
        &&& self.horz_align == HorzAlign::Left
        &&& self.vert_align == VertAlign::Top
    }

    /// Constructs a new `ColSpec` with the default values: no header or footer,
    /// default formatting, unconstrained width, top-left alignment.
    pub fn new() -> (c: ColSpec<'a>)
        ensures
            c.spec_is_default(),
            c.header@ == Seq::<char>::empty(),
            c.footer@ == Seq::<char>::empty(),
            c.col_fmt.precision is None,
            c.col_fmt.sign is None,
            c.min_width == 0,
            c.max_width == usize::MAX,
            c.horz_align == HorzAlign::Left,
            c.vert_align == VertAlign::Top,
    {
        proof {
            reveal_strlit("");
        }
        let c = ColSpec {
            header: "",
            footer: "",
            col_fmt: DisplayFmt::new(),
            min_width: 0,
            max_width: usize::MAX,
            horz_align: HorzAlign::Left,
            vert_align: VertAlign::Top,
        };
        assert(c.header@ =~= Seq::<char>::empty());
        assert(c.footer@ =~= Seq::<char>::empty());
        c
    }

    /// Sets the header text and returns the `ColSpec`.
    pub fn with_header(self, header: &'a str) -> (c: ColSpec<'a>)
        ensures
            c == (ColSpec { header, ..self }),
    {
        ColSpec { header, ..self }
    }

    /// Sets the footer text and returns the `ColSpec`.
    pub fn with_footer(self, footer: &'a str) -> (c: ColSpec<'a>)
        ensures
            c == (ColSpec { footer, ..self }),
    {
        ColSpec { footer, ..self }
    }

    /// Sets the `DisplayFmt` and returns the `ColSpec`.
    pub fn with_col_fmt(self, col_fmt: DisplayFmt) -> (c: ColSpec<'a>)
        ensures
            c == (ColSpec { col_fmt, ..self }),
    {
        ColSpec { col_fmt, ..self }
    }

    /// Sets the minimum and maximum column widths and returns the `ColSpec`.
    pub fn with_width(self, width: usize) -> (c: ColSpec<'a>)
        ensures
            c == (ColSpec { min_width: width, max_width: width, ..self }),
    {
        ColSpec { min_width: width, max_width: width, ..self }
    }

    /// Sets the minimum column width and returns the `ColSpec`.
    pub fn with_min_width(self, min_width: usize) -> (c: ColSpec<'a>)
        ensures
            c == (ColSpec { min_width, ..self }),
    {
        ColSpec { min_width, ..self }
    }

    /// Sets the maximum column width and returns the `ColSpec`.
    pub fn with_max_width(self, max_width: usize) -> (c: ColSpec<'a>)
        ensures
            c == (ColSpec { max_width, ..self }),
    {
        ColSpec { max_width, ..self }
    }

    /// Sets the horizontal text alignment and returns the `ColSpec`.
    pub fn with_horz_align(self, horz_align: HorzAlign) -> (c: ColSpec<'a>)
        ensures
            c == (ColSpec { horz_align, ..self }),
    {
        ColSpec { horz_align, ..self }
    }

    /// Sets the vertical text alignment and returns the `ColSpec`.
    pub fn with_vert_align(self, vert_align: VertAlign) -> (c: ColSpec<'a>)
        ensures
            c == (ColSpec { vert_align, ..self }),
    {
        ColSpec { vert_align, ..self }
    }

    /// Returns `true` if the column width is fully constrained.
    pub fn is_fixed_width(&self) -> (b: bool)
        ensures
            b == (self.min_width >= self.max_width),
    {
        self.min_width >= self.max_width
    }

    /// Clamps the given value between the min and max width allowed for the
    /// column.
    pub fn clamp_to_valid_width(&self, value: usize) -> (w: usize)
        requires
            self.min_width <= self.max_width,
        ensures
            w == (if value < self.min_width { self.min_width } else if value > self.max_width {
                self.max_width
            } else {
                value
            }),
    {
        if value < self.min_width {
            self.min_width
        } else if value > self.max_width {
            self.max_width
        } else {
            value
        }
    }
}

impl<'a> Default for ColSpec<'a> {
    /// The same as `new`.
    fn default() -> (c: ColSpec<'a>)
        ensures
            c.spec_is_default(),
            c.header@ == Seq::<char>::empty(),
            c.footer@ == Seq::<char>::empty(),
            c.col_fmt.precision is None,
            c.col_fmt.sign is None,
            c.min_width == 0,
            c.max_width == usize::MAX,
            c.horz_align == HorzAlign::Left,
            c.vert_align == VertAlign::Top,
    {
        ColSpec::new()
    }
}

/// The cells of a row after column selection: with no selection the row is
/// unchanged; otherwise output column `i` shows source column `select[i]`.
pub open spec fn spec_collated_cells(cells: Seq<Option<CellValue>>, select: Seq<usize>) -> Seq<
    Option<CellValue>,
> {
    if select.len() == 0 {
        cells
    } else {
        Seq::new(
            select.len(),
            |i: int| if select[i] < cells.len() { cells[select[i] as int] } else { None },
        )
    }
}

/// A single table row with collated column selection and ordering.
pub struct CollateRow<'a, R> {
    /// The row to collate.
    pub inner: R,
    /// The column selection and order.
    pub col_select: &'a [usize],
}

/// The name under which the table driver refers to collated rows.
pub type CollatedRow<'a, R> = CollateRow<'a, R>;

impl<'a, R: Row> CollateRow<'a, R> {
    /// Constructs a collated view of `inner` showing the selected columns.
    pub fn new(inner: R, col_select: &'a [usize]) -> (r: Self)
        ensures
            r.inner == inner,
            r.col_select == col_select,
    {
        CollateRow { inner, col_select }
    }
}

impl<'a, R: Row> Row for CollateRow<'a, R> {
    open spec fn spec_cells(&self) -> Seq<Option<CellValue>> {
        spec_collated_cells(self.inner.spec_cells(), self.col_select@)
    }

    fn len(&self) -> (n: usize) {
        if self.col_select.len() == 0 {
            self.inner.len()
        } else {
            self.col_select.len()
        }
    }

    fn cell(&self, col_idx: usize) -> (c: Option<&CellValue>) {
        if self.col_select.len() == 0 {
            self.inner.cell(col_idx)
        } else if col_idx < self.col_select.len() {
            self.inner.cell(self.col_select[col_idx])
        } else {
            None
        }
    }
}

/// Table collater: the source rows, with the output columns in output order,
/// the column output specifications and the column orderings.
pub struct Collate<'a, R> {
    /// The table data source.
    inner: Vec<R>,
    /// The table output columns, in output order.
    cols: &'a [usize],
    /// The column output specifications.
    col_specs: &'a [ColSpec<'a>],
    /// The sort parameters for columns, in order of sort priority.
    col_ords: &'a [ColumnOrd],
}

impl<'a, R: Row> Collate<'a, R> {
    /// The source rows.
    pub closed spec fn spec_rows(&self) -> Seq<R> {
        self.inner@
    }

    /// The output columns, in output order.
    pub closed spec fn spec_cols(&self) -> &'a [usize] {
        self.cols
    }

    /// The column output specifications.
    pub closed spec fn spec_col_specs(&self) -> &'a [ColSpec<'a>] {
        self.col_specs
    }

    /// The column orderings.
    pub closed spec fn spec_col_ords(&self) -> &'a [ColumnOrd] {
        self.col_ords
    }

    /// Constructs a new `Collate` for the given rows, with no column
    /// selection, specifications or orderings.
    pub fn new(inner: Vec<R>) -> (c: Self)
        ensures
            c.spec_rows() == inner@,
            c.spec_cols()@.len() == 0,
            c.spec_col_specs()@.len() == 0,
            c.spec_col_ords()@.len() == 0,
    {
        Collate { inner, cols: &[], col_specs: &[], col_ords: &[] }
    }

    /// Returns the `Collate` with the given columns selected for output in the
    /// given order.
    pub fn with_columns(self, cols: &'a [usize]) -> (c: Self)
        ensures
            c.spec_rows() == self.spec_rows(),
            c.spec_cols() == cols,
            c.spec_col_specs() == self.spec_col_specs(),
            c.spec_col_ords() == self.spec_col_ords(),
    {
        Collate { cols, ..self }
    }

    /// Returns the `Collate` with the given column output specifications.
    pub fn with_col_specs(self, col_specs: &'a [ColSpec<'a>]) -> (c: Self)
        ensures
            c.spec_rows() == self.spec_rows(),
            c.spec_cols() == self.spec_cols(),
            c.spec_col_specs() == col_specs,
            c.spec_col_ords() == self.spec_col_ords(),
    {
        Collate { col_specs, ..self }
    }

    /// Returns the `Collate` with the given column orderings.
    pub fn with_col_ords(self, col_ords: &'a [ColumnOrd]) -> (c: Self)
        ensures
            c.spec_rows() == self.spec_rows(),
            c.spec_cols() == self.spec_cols(),
            c.spec_col_specs() == self.spec_col_specs(),
            c.spec_col_ords() == col_ords,
    {
        Collate { col_ords, ..self }
    }

    /// The table output columns, in output order.
    pub fn cols(&self) -> (c: &'a [usize])
        ensures
            c == self.spec_cols(),
    {
        self.cols
    }

    /// The column output specifications.
    pub fn col_specs(&self) -> (c: &'a [ColSpec<'a>])
        ensures
            c == self.spec_col_specs(),
    {
        self.col_specs
    }

    /// The sort parameters for columns, in order of sort priority.
    pub fn col_ords(&self) -> (c: &'a [ColumnOrd])
        ensures
            c == self.spec_col_ords(),
    {
        self.col_ords
    }

    /// The source rows, each collated by the column selection, in order.
    pub fn into_rows(self) -> (rows: Vec<CollateRow<'a, R>>)
        ensures
            rows@.len() == self.spec_rows().len(),
            forall|k: int|
                0 <= k < rows@.len() ==> (#[trigger] rows@[k]).inner == self.spec_rows()[k]
                    && rows@[k].col_select == self.spec_cols(),
    {
        let ghost src = self.inner@;
        let cols = self.cols;
        let mut inner = self.inner;
        let n = inner.len();
        let mut rows: Vec<CollateRow<'a, R>> = Vec::new();
        let mut i: usize = 0;
        while i < n
            invariant
                i <= n,
                n == src.len(),
                inner@ == src.skip(i as int),
                rows@.len() == i,
                forall|k: int|
                    0 <= k < i ==> (#[trigger] rows@[k]).inner == src[k] && rows@[k].col_select == cols,
            decreases n - i,
        {
            assert(inner@[0] == src[i as int]);
            let r = inner.remove(0);
            assert(inner@ =~= src.skip(i + 1));
            rows.push(CollateRow::new(r, cols));
            i = i + 1;
        }
        rows
    }
}

} // verus!
