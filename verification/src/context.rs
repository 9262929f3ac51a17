//! Contextual information handed to renderer hooks.

use vstd::prelude::*;

use crate::collate::ColSpec;

verus! {

/// Whether every one of the first `count` column specifications has an empty
/// header.
pub open spec fn spec_headers_empty(descs: Seq<ColSpec>, count: nat) -> bool {
    forall|i: int| 0 <= i < count && i < descs.len() ==> (#[trigger] descs[i].header)@.len() == 0
}

/// Whether every one of the first `count` column specifications has an empty
/// footer.
pub open spec fn spec_footers_empty(descs: Seq<ColSpec>, count: nat) -> bool {
    forall|i: int| 0 <= i < count && i < descs.len() ==> (#[trigger] descs[i].footer)@.len() == 0
}

/// Contextual information provided to `Renderer` method calls.
#[derive(Debug, Clone, Copy)]
pub struct RenderContext<'a> {
    /// The default column specification for the table.
    pub default_col_desc: &'a ColSpec<'a>,
    /// The column specifications, in column order.
    pub col_descs: &'a [ColSpec<'a>],
    /// The column widths, in column order.
    pub col_widths: &'a [usize],
    /// The number of rows in the table.
    pub row_count: usize,
    /// The current row, if applicable.
    pub row: Option<usize>,
    /// The current column, if applicable.
    pub col: Option<usize>,
    /// The current line of the row, if applicable.
    pub line: Option<usize>,
}

impl<'a> RenderContext<'a> {
    /// The number of columns in the table.
    pub open spec fn spec_column_count(&self) -> nat {
        self.col_widths@.len()
    }

    /// Whether there is no data to render.
    pub open spec fn spec_is_empty(&self) -> bool {
        self.spec_column_count() == 0 || self.row_count == 0
    }

    /// Whether a cell in the last column is being processed.
    pub open spec fn spec_is_last_column(&self) -> bool {
        self.col == Some((if self.spec_column_count() > 0 { self.spec_column_count() - 1 } else { 0 }) as usize)
    }

    /// Whether a cell in the first column is being processed.
    pub open spec fn spec_is_first_column(&self) -> bool {
        self.col == Some(0usize)
    }

    /// Whether a cell in the first row is being processed.
    pub open spec fn spec_is_first_row(&self) -> bool {
        self.row == Some(0usize)
    }

    /// Whether there are no headers to render: every rendered column's
    /// header, from its own specification or the default one past the end of
    /// the specifications, is empty.
    pub open spec fn spec_is_headerless(&self) -> bool {
        &&& spec_headers_empty(self.col_descs@, self.spec_column_count())
        &&& self.spec_column_count() > self.col_descs@.len() ==> self.default_col_desc.header@.len() == 0
    }

    /// Whether there are no footers to render: every rendered column's
    /// footer, from its own specification or the default one past the end of
    /// the specifications, is empty.
    pub open spec fn spec_is_footerless(&self) -> bool {
        &&& spec_footers_empty(self.col_descs@, self.spec_column_count())
        &&& self.spec_column_count() > self.col_descs@.len() ==> self.default_col_desc.footer@.len() == 0
    }

    /// Returns the number of columns in the table.
    pub fn column_count(&self) -> (n: usize)
        ensures
            n == self.spec_column_count(),
    {
        self.col_widths.len()
    }

    /// Returns `true` if there is no data to render.
    pub fn is_empty(&self) -> (b: bool)
        ensures
            b == self.spec_is_empty(),
    {
        self.column_count() == 0 || self.row_count == 0
    }

    /// Returns `true` if a cell in the first column is being processed.
    pub fn is_first_column(&self) -> (b: bool)
        ensures
            b == self.spec_is_first_column(),
    {
        match self.col {
            Some(c) => c == 0,
            None => false,
        }
    }

    /// Returns `true` if a cell in the last column is being processed.
    pub fn is_last_column(&self) -> (b: bool)
        ensures
            b == self.spec_is_last_column(),
    {
        let last: usize = if self.column_count() > 0 { self.column_count() - 1 } else { 0 };
        match self.col {
            Some(c) => c == last,
            None => false,
        }
    }

    /// Returns `true` if a cell in the first row is being processed.
    pub fn is_first_row(&self) -> (b: bool)
        ensures
            b == self.spec_is_first_row(),
    {
        match self.row {
            Some(r) => r == 0,
            None => false,
        }
    }

    /// Returns `true` if a cell in the last row is being processed.
    pub fn is_last_row(&self) -> (b: bool)
        ensures
            b == (self.row == Some((if self.row_count > 0 { self.row_count - 1 } else { 0 }) as usize)),
    {
        let last: usize = if self.row_count > 0 { self.row_count - 1 } else { 0 };
        match self.row {
            Some(r) => r == last,
            None => false,
        }
    }

    /// Returns `true` if there are no headers to render.
    pub fn is_headerless(&self) -> (b: bool)
        ensures
            b == self.spec_is_headerless(),
    {
        let count = self.column_count();
        let mut all_empty = true;
        let mut i: usize = 0;
        while i < count && i < self.col_descs.len()
            invariant
                i <= count,
                count == self.spec_column_count(),
                all_empty == spec_headers_empty(self.col_descs@, i as nat),
            decreases count - i,
        {
            if self.col_descs[i].header.unicode_len() != 0 {
                all_empty = false;
            }
            i = i + 1;
        }
        assert(all_empty == spec_headers_empty(self.col_descs@, count as nat));
        all_empty && (count <= self.col_descs.len() || self.default_col_desc.header.unicode_len() == 0)
    }

    /// Returns `true` if there are no footers to render.
    pub fn is_footerless(&self) -> (b: bool)
        ensures
            b == self.spec_is_footerless(),
    {
        let count = self.column_count();
        let mut all_empty = true;
        let mut i: usize = 0;
        while i < count && i < self.col_descs.len()
            invariant
                i <= count,
                count == self.spec_column_count(),
                all_empty == spec_footers_empty(self.col_descs@, i as nat),
            decreases count - i,
        {
            if self.col_descs[i].footer.unicode_len() != 0 {
                all_empty = false;
            }
            i = i + 1;
        }
        assert(all_empty == spec_footers_empty(self.col_descs@, count as nat));
        all_empty && (count <= self.col_descs.len() || self.default_col_desc.footer.unicode_len() == 0)
    }
}

/// Contextual information provided to `Renderer` method calls when processing
/// individual cell lines.
#[derive(Debug, Clone, Copy)]
pub struct CellContext<'a> {
    /// The cell line's text.
    pub text: &'a str,
    /// The width of the text.
    pub text_width: Option<usize>,
    /// The width of the cell.
    pub cell_width: usize,
    /// The column specification associated with the cell's column.
    pub desc: &'a ColSpec<'a>,
}

impl<'a> CellContext<'a> {
    /// Whether a known text width is the text's display width wherever
    /// centered truncation relies on it: centered text wider than a cell of
    /// more than two columns.
    pub open spec fn spec_measured(&self) -> bool {
        match self.text_width {
            Some(w) => self.desc.horz_align == crate::align::HorzAlign::Center && w > self.cell_width
                && self.cell_width > 2 ==> w == crate::unicode::spec_text_width(self.text@),
            None => true,
        }
    }

    /// Returns the difference between the cell width and text width, or zero
    /// when the text width is unknown.
    pub fn padding(&self) -> (p: usize)
        ensures
            p == match self.text_width {
                Some(w) => if self.cell_width >= w { (self.cell_width - w) as usize } else { 0 },
                None => 0,
            },
    {
        match self.text_width {
            Some(w) => if self.cell_width >= w { self.cell_width - w } else { 0 },
            None => 0,
        }
    }
}

} // verus!
