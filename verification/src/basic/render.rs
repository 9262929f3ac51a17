//! The plain renderer interface: hooks that receive row, column and line
//! indices and return the text they contribute.

use vstd::prelude::*;
use vstd::string::StringSliceAdditionalSpecFns;

use crate::align::{spec_split_padding, split_padding, HorzAlign};
use crate::cell::{push_spaces, spec_spaces};
use crate::collate::ColSpec;
use crate::driver::{Hook, Part};
use crate::text::sat_sub;

verus! {

/// Renderer feature flags.
#[derive(Debug, Clone, Copy, PartialEq, Eq, Hash, Structural)]
pub struct Features(pub u8);

impl Features {
    /// Indicates that the renderer supports multiline cells.
    pub const MULTILINE: u8 = 1;

    /// No feature.
    pub fn empty() -> (f: Features)
        ensures
            f == Features(0),
    {
        Features(0)
    }

    /// Multiline cells.
    pub fn multiline() -> (f: Features)
        ensures
            f == Features(1),
    {
        Features(1)
    }

    /// Returns `true` if every flag of `other` is set in `self`.
    pub fn contains(&self, other: Features) -> (b: bool)
        ensures
            b == (self.0 & other.0 == other.0),
    {
        self.0 & other.0 == other.0
    }
}

/// `text`, of `text_len` bytes, padded to `width` plus `extra` columns
/// according to the alignment; the right padding is left out unless
/// `right_pad`.
pub open spec fn spec_padded(
    text: Seq<char>,
    text_len: nat,
    width: usize,
    extra: nat,
    align: HorzAlign,
    right_pad: bool,
) -> Seq<char> {
    let p = sat_sub(width as nat, text_len) + extra;
    let pad = if p > usize::MAX { usize::MAX as nat } else { p };
    let (l, r) = spec_split_padding(align, pad);
    spec_spaces(l) + text + (if right_pad { spec_spaces(r) } else { Seq::empty() })
}

/// Pads `text` to `width` plus `extra` columns, measuring it by its byte
/// length; the right padding is left out unless `right_pad`.
pub fn padded(text: &str, width: usize, extra: usize, align: HorzAlign, right_pad: bool) -> (s: String)
    ensures
        s@ == spec_padded(text@, (text.spec_bytes().len() as usize) as nat, width, extra as nat, align, right_pad),
{
    let len = text.len();
    let base: usize = if width >= len { width - len } else { 0 };
    let pad: usize = if base <= usize::MAX - extra { base + extra } else { usize::MAX };
    let (l, r) = split_padding(align, pad);
    let mut out = String::new();
    push_spaces(&mut out, l);
    out.append(text);
    if right_pad {
        push_spaces(&mut out, r);
    }
    assert(out@ =~= spec_padded(text@, (text.spec_bytes().len() as usize) as nat, width, extra as nat, align, right_pad));
    out
}

/// Provides the hooks needed to implement a table renderer. Each hook
/// returns the text it contributes.
pub trait Renderer: Sized {
    /// Whether `init` with the column specifications, row count and column
    /// widths may leave the renderer as `after`.
    spec fn spec_inits(
        &self,
        column_descs: Seq<ColSpec>,
        row_count: usize,
        column_widths: Seq<usize>,
        after: Self,
    ) -> bool;

    /// Whether the hook for `hook` in `part` of the table, called with the
    /// row, column and line numbers (and, for a cell line, with the line's
    /// text, the column width and the alignment), may write `out` and leave
    /// the renderer as `after`. Every hook's contract is stated through it,
    /// and so is what the driver renders.
    spec fn spec_writes(
        &self,
        hook: Hook,
        part: Part,
        row: usize,
        col: usize,
        line: usize,
        cell: Option<(Seq<char>, usize, HorzAlign)>,
        out: Seq<char>,
        after: Self,
    ) -> bool;

    /// Whether the renderer supports multiline cells.
    spec fn spec_multiline(&self) -> bool;

    /// Returns the supported features for the renderer: multiline cells or
    /// none.
    fn features(&self) -> (f: Features)
        ensures
            self.spec_multiline() ==> f == Features(1),
            !self.spec_multiline() ==> f == Features(0),
    ;

    /// Initializes the renderer with the column specifications, the row
    /// count and the column widths. Called before any rendering begins.
    fn init(&mut self, column_descs: &[ColSpec], row_count: usize, column_widths: &[usize])
        ensures
            old(self).spec_inits(column_descs@, row_count, column_widths@, *final(self)),
    ;

    /// Hook for the start of the table.
    fn write_table_start(&mut self) -> (s: String)
        ensures
            old(self).spec_writes(Hook::TableStart, Part::Data, 0, 0, 0, None, s@, *final(self)),
    ;

    /// Hook for the end of the table.
    fn write_table_end(&mut self) -> (s: String)
        ensures
            old(self).spec_writes(Hook::TableEnd, Part::Data, 0, 0, 0, None, s@, *final(self)),
    ;

    /// Hook for a single cell's line in a header row.
    fn write_header_cell_line(&mut self,
        row: usize,
        col: usize,
        line: usize,
        text: &str,
        width: usize,
        horz_align: HorzAlign,
    ) -> (s: String)
        ensures
            old(self).spec_writes(Hook::CellLine, Part::Header, row, col, line, Some((text@, width, horz_align)), s@, *final(self)),
    ;

    /// Hook for a single cell's line in a data row.
    fn write_data_cell_line(&mut self,
        row: usize,
        col: usize,
        line: usize,
        text: &str,
        width: usize,
        horz_align: HorzAlign,
    ) -> (s: String)
        ensures
            old(self).spec_writes(Hook::CellLine, Part::Data, row, col, line, Some((text@, width, horz_align)), s@, *final(self)),
    ;

    /// Hook for a single cell's line in a footer row.
    fn write_footer_cell_line(&mut self,
        row: usize,
        col: usize,
        line: usize,
        text: &str,
        width: usize,
        horz_align: HorzAlign,
    ) -> (s: String)
        ensures
            old(self).spec_writes(Hook::CellLine, Part::Footer, row, col, line, Some((text@, width, horz_align)), s@, *final(self)),
    ;

    /// Hook for the start of the header.
    fn write_header_start(&mut self) -> (s: String)
        ensures
            old(self).spec_writes(Hook::SectionStart, Part::Header, 0, 0, 0, None, s@, *final(self)),
    ;

    /// Hook for the end of the header.
    fn write_header_end(&mut self) -> (s: String)
        ensures
            old(self).spec_writes(Hook::SectionEnd, Part::Header, 0, 0, 0, None, s@, *final(self)),
    ;

    /// Hook for the start of the data.
    fn write_data_start(&mut self) -> (s: String)
        ensures
            old(self).spec_writes(Hook::SectionStart, Part::Data, 0, 0, 0, None, s@, *final(self)),
    ;

    /// Hook for the end of the data.
    fn write_data_end(&mut self) -> (s: String)
        ensures
            old(self).spec_writes(Hook::SectionEnd, Part::Data, 0, 0, 0, None, s@, *final(self)),
    ;

    /// Hook for the start of the footer.
    fn write_footer_start(&mut self) -> (s: String)
        ensures
            old(self).spec_writes(Hook::SectionStart, Part::Footer, 0, 0, 0, None, s@, *final(self)),
    ;

    /// Hook for the end of the footer.
    fn write_footer_end(&mut self) -> (s: String)
        ensures
            old(self).spec_writes(Hook::SectionEnd, Part::Footer, 0, 0, 0, None, s@, *final(self)),
    ;

    /// Hook for the start of a header row.
    fn write_header_row_start(&mut self, row: usize) -> (s: String)
        ensures
            old(self).spec_writes(Hook::RowStart, Part::Header, row, 0, 0, None, s@, *final(self)),
    ;

    /// Hook for the start of a data row.
    fn write_data_row_start(&mut self, row: usize) -> (s: String)
        ensures
            old(self).spec_writes(Hook::RowStart, Part::Data, row, 0, 0, None, s@, *final(self)),
    ;

    /// Hook for the start of a footer row.
    fn write_footer_row_start(&mut self, row: usize) -> (s: String)
        ensures
            old(self).spec_writes(Hook::RowStart, Part::Footer, row, 0, 0, None, s@, *final(self)),
    ;

    /// Hook for the end of a header row.
    fn write_header_row_end(&mut self, row: usize) -> (s: String)
        ensures
            old(self).spec_writes(Hook::RowEnd, Part::Header, row, 0, 0, None, s@, *final(self)),
    ;

    /// Hook for the end of a data row.
    fn write_data_row_end(&mut self, row: usize) -> (s: String)
        ensures
            old(self).spec_writes(Hook::RowEnd, Part::Data, row, 0, 0, None, s@, *final(self)),
    ;

    /// Hook for the end of a footer row.
    fn write_footer_row_end(&mut self, row: usize) -> (s: String)
        ensures
            old(self).spec_writes(Hook::RowEnd, Part::Footer, row, 0, 0, None, s@, *final(self)),
    ;

    /// Hook for the start of a header cell.
    fn write_header_cell_start(&mut self, row: usize, col: usize) -> (s: String)
        ensures
            old(self).spec_writes(Hook::CellStart, Part::Header, row, col, 0, None, s@, *final(self)),
    ;

    /// Hook for the start of a data cell.
    fn write_data_cell_start(&mut self, row: usize, col: usize) -> (s: String)
        ensures
            old(self).spec_writes(Hook::CellStart, Part::Data, row, col, 0, None, s@, *final(self)),
    ;

    /// Hook for the start of a footer cell.
    fn write_footer_cell_start(&mut self, row: usize, col: usize) -> (s: String)
        ensures
            old(self).spec_writes(Hook::CellStart, Part::Footer, row, col, 0, None, s@, *final(self)),
    ;

    /// Hook for the end of a header cell.
    fn write_header_cell_end(&mut self, row: usize, col: usize) -> (s: String)
        ensures
            old(self).spec_writes(Hook::CellEnd, Part::Header, row, col, 0, None, s@, *final(self)),
    ;

    /// Hook for the end of a data cell.
    fn write_data_cell_end(&mut self, row: usize, col: usize) -> (s: String)
        ensures
            old(self).spec_writes(Hook::CellEnd, Part::Data, row, col, 0, None, s@, *final(self)),
    ;

    /// Hook for the end of a footer cell.
    fn write_footer_cell_end(&mut self, row: usize, col: usize) -> (s: String)
        ensures
            old(self).spec_writes(Hook::CellEnd, Part::Footer, row, col, 0, None, s@, *final(self)),
    ;

    /// Hook for the start of a header line.
    fn write_header_line_start(&mut self, row: usize, line: usize) -> (s: String)
        ensures
            old(self).spec_writes(Hook::LineStart, Part::Header, row, 0, line, None, s@, *final(self)),
    ;

    /// Hook for the start of a data line.
    fn write_data_line_start(&mut self, row: usize, line: usize) -> (s: String)
        ensures
            old(self).spec_writes(Hook::LineStart, Part::Data, row, 0, line, None, s@, *final(self)),
    ;

    /// Hook for the start of a footer line.
    fn write_footer_line_start(&mut self, row: usize, line: usize) -> (s: String)
        ensures
            old(self).spec_writes(Hook::LineStart, Part::Footer, row, 0, line, None, s@, *final(self)),
    ;

    /// Hook for the end of a header line.
    fn write_header_line_end(&mut self, row: usize, line: usize) -> (s: String)
        ensures
            old(self).spec_writes(Hook::LineEnd, Part::Header, row, 0, line, None, s@, *final(self)),
    ;

    /// Hook for the end of a data line.
    fn write_data_line_end(&mut self, row: usize, line: usize) -> (s: String)
        ensures
            old(self).spec_writes(Hook::LineEnd, Part::Data, row, 0, line, None, s@, *final(self)),
    ;

    /// Hook for the end of a footer line.
    fn write_footer_line_end(&mut self, row: usize, line: usize) -> (s: String)
        ensures
            old(self).spec_writes(Hook::LineEnd, Part::Footer, row, 0, line, None, s@, *final(self)),
    ;

    /// Hook for the start of a header cell line.
    fn write_header_cell_line_start(&mut self, row: usize, col: usize, line: usize) -> (s: String)
        ensures
            old(self).spec_writes(Hook::CellLineStart, Part::Header, row, col, line, None, s@, *final(self)),
    ;

    /// Hook for the start of a data cell line.
    fn write_data_cell_line_start(&mut self, row: usize, col: usize, line: usize) -> (s: String)
        ensures
            old(self).spec_writes(Hook::CellLineStart, Part::Data, row, col, line, None, s@, *final(self)),
    ;

    /// Hook for the start of a footer cell line.
    fn write_footer_cell_line_start(&mut self, row: usize, col: usize, line: usize) -> (s: String)
        ensures
            old(self).spec_writes(Hook::CellLineStart, Part::Footer, row, col, line, None, s@, *final(self)),
    ;

    /// Hook for the end of a header cell line.
    fn write_header_cell_line_end(&mut self, row: usize, col: usize, line: usize) -> (s: String)
        ensures
            old(self).spec_writes(Hook::CellLineEnd, Part::Header, row, col, line, None, s@, *final(self)),
    ;

    /// Hook for the end of a data cell line.
    fn write_data_cell_line_end(&mut self, row: usize, col: usize, line: usize) -> (s: String)
        ensures
            old(self).spec_writes(Hook::CellLineEnd, Part::Data, row, col, line, None, s@, *final(self)),
    ;

    /// Hook for the end of a footer cell line.
    fn write_footer_cell_line_end(&mut self, row: usize, col: usize, line: usize) -> (s: String)
        ensures
            old(self).spec_writes(Hook::CellLineEnd, Part::Footer, row, col, line, None, s@, *final(self)),
    ;
}

} // verus!
