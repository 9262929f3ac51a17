//! The table driver for the plain renderers: builds a table as the context
//! driver does, measuring text by its byte length, and calls the plain hooks
//! with row, column and line numbers.

use vstd::prelude::*;

use crate::aggregate::{spec_add_extra, spec_desc_at, spec_initial_width, spec_row_texts, spec_rows_widths, Aggregate};
use crate::align::HorzAlign;
use crate::basic::render::{Features, Renderer};
use crate::collate::ColSpec;
use crate::driver::{
    aggregate_events,
    lemma_table_events_within,
    spec_all_ok,
    spec_concat,
    spec_event_ok,
    spec_hook_part,
    spec_index,
    spec_row_selected,
    spec_row_shape,
    spec_rows_shapes,
    spec_select_rows,
    spec_split_texts,
    spec_table_events,
    spec_width_at,
    spec_within_bounds,
    split_texts,
    Event,
    Hook,
    Part,
    RowBound,
    TableSource,
};
use crate::features::LateFormat;
use crate::features::StrWidth;
use crate::row::Row;
use crate::sort::{spec_stable_arrangement, ColumnOrd};
use crate::split::{as_strs, spec_max_line_count, FormatRow, TextRow};
use crate::text::{spec_lines, spec_vert_aligned_line};
use crate::unicode::string_views;

verus! {

/// The row number a plain hook receives at an event: none for the hooks of
/// the whole table and of a section, which take no row.
pub open spec fn spec_plain_row(e: Event) -> usize {
    match e.hook {
        Hook::Init | Hook::TableStart | Hook::TableEnd | Hook::SectionStart | Hook::SectionEnd => 0,
        _ => spec_index(e.row),
    }
}

/// The column number a plain hook receives at an event: only the cell hooks
/// take one.
pub open spec fn spec_plain_col(e: Event) -> usize {
    match e.hook {
        Hook::CellStart | Hook::CellEnd | Hook::CellLineStart | Hook::CellLineEnd | Hook::CellLine => spec_index(e.col),
        _ => 0,
    }
}

/// The line number a plain hook receives at an event: only the line and
/// cell-line hooks take one.
pub open spec fn spec_plain_line(e: Event) -> usize {
    match e.hook {
        Hook::LineStart | Hook::LineEnd | Hook::CellLineStart | Hook::CellLineEnd | Hook::CellLine => spec_index(e.line),
        _ => 0,
    }
}

/// A builder for a table over rows of type `R` rendered by the plain
/// renderer `T`.
pub struct TableBuilder<'a, R: Row, T: Renderer> {
    source: TableSource<'a, R>,
    renderer: T,
}

impl<'a, R: Row, T: Renderer> TableBuilder<'a, R, T> {
    /// The source rows and how the table selects, describes and orders them.
    pub closed spec fn spec_source(&self) -> TableSource<'a, R> {
        self.source
    }

    /// The source rows.
    pub open spec fn spec_rows(&self) -> Seq<R> {
        self.spec_source().spec_rows()
    }

    /// Whether each cell's text is put on a single line when it is formatted,
    /// as it is for renderers without multiline support.
    pub open spec fn spec_single_line_cells(&self) -> bool {
        self.spec_source().spec_single_line_cells()
    }

    /// The selected columns, in output order; empty selects all.
    pub open spec fn spec_col_select(&self) -> Seq<usize> {
        self.spec_source().spec_col_select()
    }

    /// The selected rows, by position after sorting: from `.0`, before `.1`
    /// if bounded.
    pub open spec fn spec_row_select(&self) -> (usize, Option<usize>) {
        self.spec_source().spec_row_select()
    }

    /// The column specifications.
    pub open spec fn spec_col_descs(&self) -> Seq<ColSpec<'a>> {
        self.spec_source().spec_col_descs()
    }

    /// The default column specification.
    pub open spec fn spec_default_col_desc(&self) -> ColSpec<'a> {
        self.spec_source().spec_default_col_desc()
    }

    /// The column orderings for sorting, in order of priority.
    pub open spec fn spec_col_order(&self) -> Seq<ColumnOrd> {
        self.spec_source().spec_col_order()
    }

    /// Whether `fs` holds the source rows, collated and formatted.
    pub open spec fn spec_formatted(&self, fs: Seq<FormatRow<'a, R>>) -> bool {
        self.spec_source().spec_formatted(fs)
    }

    /// Whether sorting can compare every two distinct rows.
    pub open spec fn spec_sortable(&self) -> bool {
        self.spec_source().spec_sortable()
    }

    /// Constructs a builder over the source rows and renderer: all columns
    /// and rows, no column specifications, the default column specification
    /// and no sorting; cells are put on a single line unless the renderer
    /// supports multiline cells.
    pub fn new(source: Vec<R>, renderer: T) -> (b: Self)
        ensures
            b.spec_rows() == source@,
            b.spec_col_select().len() == 0,
            b.spec_row_select() == (0usize, None::<usize>),
            b.spec_col_descs().len() == 0,
            b.spec_default_col_desc().spec_is_default(),
            b.spec_col_order().len() == 0,
            b.spec_single_line_cells() == !renderer.spec_multiline(),
    {
        assert(1u8 & 1u8 == 1u8 && 0u8 & 1u8 == 0u8) by (bit_vector);
        let single_line = !renderer.features().contains(Features::multiline());
        TableBuilder { source: TableSource::new(source).with_single_line_cells(single_line), renderer }
    }

    /// Returns `true` if every row, after column selection, has every column
    /// that an ordering on formatted text names; sorting can then compare
    /// every two rows.
    pub fn is_sortable(&self) -> (b: bool)
        ensures
            b == self.spec_source().spec_columns_exist(),
            b ==> self.spec_sortable(),
    {
        self.source.is_sortable()
    }

    /// Selects the columns to show, in order, and returns the builder.
    pub fn with_column_selection(self, col_select: &'a [usize]) -> (b: Self)
        ensures
            b.spec_col_select() == col_select@,
            b.spec_rows() == self.spec_rows(),
            b.spec_row_select() == self.spec_row_select(),
            b.spec_col_descs() == self.spec_col_descs(),
            b.spec_default_col_desc() == self.spec_default_col_desc(),
            b.spec_col_order() == self.spec_col_order(),
    {
        TableBuilder { source: self.source.with_column_selection(col_select), renderer: self.renderer }
    }

    /// Selects the rows to show, by position after sorting, and returns the
    /// builder.
    pub fn with_row_selection(self, row_select: core::ops::Range<usize>) -> (b: Self)
        ensures
            b.spec_row_select() == (row_select.start, Some(row_select.end)),
            b.spec_rows() == self.spec_rows(),
            b.spec_col_select() == self.spec_col_select(),
            b.spec_col_descs() == self.spec_col_descs(),
            b.spec_default_col_desc() == self.spec_default_col_desc(),
            b.spec_col_order() == self.spec_col_order(),
    {
        TableBuilder { source: self.source.with_row_selection(row_select), renderer: self.renderer }
    }

    /// Selects the rows to show, by position after sorting, between a start
    /// bound and an end bound, and returns the builder.
    pub fn with_row_bounds(self, start: RowBound, end: RowBound) -> (b: Self)
        ensures
            forall|k: int|
                0 <= k <= usize::MAX ==> (spec_row_selected(k, b.spec_row_select().0, b.spec_row_select().1)
                    <==> spec_within_bounds(k, start, end)),
            b.spec_rows() == self.spec_rows(),
            b.spec_col_select() == self.spec_col_select(),
            b.spec_col_descs() == self.spec_col_descs(),
            b.spec_default_col_desc() == self.spec_default_col_desc(),
            b.spec_col_order() == self.spec_col_order(),
    {
        TableBuilder { source: self.source.with_row_bounds(start, end), renderer: self.renderer }
    }

    /// Sets the column specifications and returns the builder.
    pub fn with_column_descs(self, col_descs: &'a [ColSpec<'a>]) -> (b: Self)
        ensures
            b.spec_col_descs() == col_descs@,
            b.spec_rows() == self.spec_rows(),
            b.spec_col_select() == self.spec_col_select(),
            b.spec_row_select() == self.spec_row_select(),
            b.spec_default_col_desc() == self.spec_default_col_desc(),
            b.spec_col_order() == self.spec_col_order(),
    {
        TableBuilder { source: self.source.with_column_descs(col_descs), renderer: self.renderer }
    }

    /// Sets the column specification for columns without one and returns the
    /// builder.
    pub fn with_default_col_desc(self, default_col_desc: ColSpec<'a>) -> (b: Self)
        ensures
            b.spec_default_col_desc() == default_col_desc,
            b.spec_rows() == self.spec_rows(),
            b.spec_col_select() == self.spec_col_select(),
            b.spec_row_select() == self.spec_row_select(),
            b.spec_col_descs() == self.spec_col_descs(),
            b.spec_col_order() == self.spec_col_order(),
    {
        TableBuilder { source: self.source.with_default_col_desc(default_col_desc), renderer: self.renderer }
    }

    /// Sets the column orderings to sort by, in order of priority, and
    /// returns the builder.
    pub fn with_sort_columns(self, col_order: &'a [ColumnOrd]) -> (b: Self)
        ensures
            b.spec_col_order() == col_order@,
            b.spec_rows() == self.spec_rows(),
            b.spec_col_select() == self.spec_col_select(),
            b.spec_row_select() == self.spec_row_select(),
            b.spec_col_descs() == self.spec_col_descs(),
            b.spec_default_col_desc() == self.spec_default_col_desc(),
    {
        TableBuilder { source: self.source.with_sort_columns(col_order), renderer: self.renderer }
    }

    /// Builds the table: collates and formats every row, sorts the rows
    /// stably by the column orderings, keeps the selected rows, and sizes
    /// every column by the byte length of its header, footer and cell lines.
    pub fn finish(self) -> (t: Table<'a, R, T>)
        requires
            self.spec_sortable(),
        ensures
            t.spec_col_descs() == self.spec_col_descs(),
            t.spec_default_col_desc() == self.spec_default_col_desc(),
            exists|fs: Seq<FormatRow<'a, R>>, sorted: Seq<FormatRow<'a, R>>|
                #![trigger self.spec_formatted(fs), spec_select_rows(sorted, self.spec_row_select().0, self.spec_row_select().1)]
                {
                    &&& self.spec_formatted(fs)
                    &&& self.spec_col_order().len() == 0 ==> sorted == fs
                    &&& self.spec_col_order().len() > 0 ==> exists|p: Seq<int>|
                        spec_stable_arrangement(fs, sorted, p, self.spec_col_order())
                    &&& t.spec_rows() == spec_select_rows(sorted, self.spec_row_select().0, self.spec_row_select().1)
                },
            t.spec_col_widths() == spec_rows_widths(
                Seq::new(
                    self.spec_col_descs().len(),
                    |i: int| spec_initial_width(self.spec_col_descs(), i, StrWidth::ByteLen),
                ),
                spec_row_texts(t.spec_rows()),
                self.spec_col_descs(),
                self.spec_default_col_desc(),
                StrWidth::ByteLen,
            ),
            t.spec_renderable(),
    {
        let col_descs = self.source.col_descs();
        let default_col_desc = self.source.default_col_desc();
        let ghost source = self.source;
        let selected = self.source.into_rows();
        proof {
            let (fs, sorted) = choose|fs: Seq<FormatRow<'a, R>>, sorted: Seq<FormatRow<'a, R>>|
                {
                    &&& source.spec_formatted(fs)
                    &&& source.spec_col_order().len() == 0 ==> sorted == fs
                    &&& source.spec_col_order().len() > 0 ==> exists|p: Seq<int>|
                        spec_stable_arrangement(fs, sorted, p, source.spec_col_order())
                    &&& selected@ == spec_select_rows(sorted, source.spec_row_select().0, source.spec_row_select().1)
                };
            assert(self.spec_formatted(fs));
            assert(selected@ == spec_select_rows(sorted, self.spec_row_select().0, self.spec_row_select().1));
        }
        let ghost rows = selected@;
        let inner = Aggregate::new(selected, col_descs, &default_col_desc, Some(StrWidth::ByteLen), 0);
        proof {
            let w = spec_rows_widths(
                Seq::new(col_descs@.len(), |i: int| spec_initial_width(col_descs@, i, StrWidth::ByteLen)),
                spec_row_texts(rows),
                col_descs@,
                default_col_desc,
                StrWidth::ByteLen,
            );
            assert(spec_add_extra(w, 0) =~= w);
        }
        Table { inner, renderer: self.renderer, default_col_desc }
    }
}

/// A table ready to render with a plain renderer: its aggregated rows, the
/// renderer and the default column specification.
pub struct Table<'a, R: Row, T: Renderer> {
    inner: Aggregate<'a, R>,
    renderer: T,
    default_col_desc: ColSpec<'a>,
}

impl<'a, R: Row, T: Renderer> Table<'a, R, T> {
    /// The column specifications.
    pub closed spec fn spec_col_descs(&self) -> Seq<ColSpec<'a>> {
        self.inner.spec_col_descs()
    }

    /// The default column specification.
    pub closed spec fn spec_default_col_desc(&self) -> ColSpec<'a> {
        self.default_col_desc
    }

    /// The data rows.
    pub closed spec fn spec_rows(&self) -> Seq<FormatRow<'a, R>> {
        self.inner.spec_rows()
    }

    /// The column widths.
    pub closed spec fn spec_col_widths(&self) -> Seq<usize> {
        self.inner.spec_col_widths()
    }

    /// The header row, if any.
    pub closed spec fn spec_header_row(&self) -> Option<TextRow<'a>> {
        self.inner.spec_header_row()
    }

    /// The footer row, if any.
    pub closed spec fn spec_footer_row(&self) -> Option<TextRow<'a>> {
        self.inner.spec_footer_row()
    }

    /// Whether every row fits the column widths: no data, header or footer
    /// row has more cells than there are widths.
    pub open spec fn spec_renderable(&self) -> bool {
        &&& forall|r: int|
            0 <= r < self.spec_rows().len() ==> (#[trigger] self.spec_rows()[r]).spec_texts().len()
                <= self.spec_col_widths().len()
        &&& self.spec_header_row() matches Some(h) ==> h.spec_len() <= self.spec_col_widths().len()
        &&& self.spec_footer_row() matches Some(f) ==> f.spec_len() <= self.spec_col_widths().len()
    }

    /// Returns a builder over the source rows and renderer.
    pub fn new_builder(source: Vec<R>, renderer: T) -> (b: TableBuilder<'a, R, T>)
        ensures
            b.spec_rows() == source@,
            b.spec_col_select().len() == 0,
            b.spec_row_select() == (0usize, None::<usize>),
            b.spec_col_descs().len() == 0,
            b.spec_default_col_desc().spec_is_default(),
            b.spec_col_order().len() == 0,
            b.spec_single_line_cells() == !renderer.spec_multiline(),
    {
        TableBuilder::new(source, renderer)
    }

    /// The column widths.
    pub fn col_widths(&self) -> (w: &[usize])
        ensures
            w@ == self.spec_col_widths(),
    {
        self.inner.col_widths()
    }

    /// The renderer.
    pub closed spec fn spec_renderer(&self) -> T {
        self.renderer
    }

    /// The hook calls that render the table, in order.
    pub open spec fn spec_events(&self) -> Seq<Event> {
        spec_table_events(
            spec_row_shape(self.spec_header_row()),
            spec_rows_shapes(self.spec_rows(), self.spec_col_widths(), None),
            spec_row_shape(self.spec_footer_row()),
        )
    }

    /// Returns the hook calls that render the table, in order.
    pub fn events(&self) -> (v: Vec<Event>)
        ensures
            v@ == self.spec_events(),
    {
        aggregate_events(&self.inner, &None)
    }

    /// The cell texts of the row a cell-line event belongs to, and the row's
    /// height.
    pub open spec fn spec_event_texts(&self, e: Event) -> (Seq<Seq<char>>, nat) {
        match e.part {
            Part::Header => match self.spec_header_row() {
                Some(h) => (h.spec_texts(), h.spec_height()),
                None => (Seq::empty(), 0),
            },
            Part::Footer => match self.spec_footer_row() {
                Some(f) => (f.spec_texts(), f.spec_height()),
                None => (Seq::empty(), 0),
            },
            Part::Data => {
                let t = spec_split_texts(self.spec_rows()[spec_index(e.row) as int].spec_texts(), self.spec_col_widths(), None);
                (t, spec_max_line_count(t))
            },
        }
    }

    /// Whether `cell` is what the cell-line hook of event `e` receives: the
    /// line of the cell's text shown on the event's line after vertical
    /// alignment in the row, the column width and the column's horizontal
    /// alignment.
    pub open spec fn spec_event_cell(&self, e: Event, cell: (Seq<char>, usize, HorzAlign)) -> bool {
        let col = spec_index(e.col);
        let desc = spec_desc_at(self.spec_col_descs(), self.spec_default_col_desc(), col as int);
        let texts = self.spec_event_texts(e).0;
        let text = if col < texts.len() { texts[col as int] } else { Seq::<char>::empty() };
        &&& cell.0 == spec_vert_aligned_line(spec_lines(text), spec_index(e.line) as nat, self.spec_event_texts(e).1, desc.vert_align)
        &&& cell.1 == spec_width_at(self.spec_col_widths(), col as int)
        &&& cell.2 == desc.horz_align
    }

    /// Whether step `i` of a render trace holds: at an `init` event the
    /// renderer is initialized with the column specifications, row count and
    /// widths and writes nothing; at any other the hook of event `i`, called
    /// with the numbers it takes of the event's row, column and line and,
    /// for a cell line, the event's cell, on `states[i]` writes `outs[i]` and
    /// leaves `states[i + 1]`.
    pub open spec fn spec_step_at(
        &self,
        outs: Seq<Seq<char>>,
        states: Seq<T>,
        cells: Seq<Option<(Seq<char>, usize, HorzAlign)>>,
        i: int,
    ) -> bool {
        let e = self.spec_events()[i];
        if e.hook == Hook::Init {
            &&& outs[i] == Seq::<char>::empty()
            &&& cells[i] is None
            &&& states[i].spec_inits(self.spec_col_descs(), self.spec_rows().len() as usize, self.spec_col_widths(), states[i + 1])
        } else {
            &&& if e.hook == Hook::CellLine {
                cells[i] matches Some(c) && self.spec_event_cell(e, c)
            } else {
                cells[i] is None
            }
            &&& states[i].spec_writes(
                e.hook,
                spec_hook_part(e),
                spec_plain_row(e),
                spec_plain_col(e),
                spec_plain_line(e),
                cells[i],
                outs[i],
                states[i + 1],
            )
        }
    }

    /// Whether a render trace covers the table's events, every step holding.
    pub open spec fn spec_trace(
        &self,
        outs: Seq<Seq<char>>,
        states: Seq<T>,
        cells: Seq<Option<(Seq<char>, usize, HorzAlign)>>,
    ) -> bool {
        &&& outs.len() == self.spec_events().len()
        &&& cells.len() == self.spec_events().len()
        &&& states.len() == self.spec_events().len() + 1
        &&& forall|i: int| 0 <= i < self.spec_events().len() ==> #[trigger] self.spec_step_at(outs, states, cells, i)
    }

    /// Whether rendering the table with renderer `r0` may write `out` and
    /// leave the renderer as `r1`: the hooks are called in the order of the
    /// table's events, and `out` is what they write, concatenated in that
    /// order.
    pub open spec fn spec_renders(&self, r0: T, out: Seq<char>, r1: T) -> bool {
        exists|outs: Seq<Seq<char>>, states: Seq<T>, cells: Seq<Option<(Seq<char>, usize, HorzAlign)>>|
            #[trigger] self.spec_trace(outs, states, cells) && states[0] == r0 && states.last() == r1 && out
                == spec_concat(outs)
    }

    /// Renders the table: calls the renderer's hooks in the order of
    /// `events`, `init` with the column specifications, row count and column
    /// widths, every other hook with the event's row, column and line numbers
    /// (the header row numbered 0, the footer row by the last data row) and,
    /// for a cell line, the line's text vertically aligned in its cell, the
    /// column width and the column's alignment, and returns what they wrote.
    pub fn render(&mut self) -> (out: String)
        requires
            old(self).spec_renderable(),
        ensures
            old(self).spec_renders(old(self).spec_renderer(), out@, final(self).spec_renderer()),
            final(self).spec_rows() == old(self).spec_rows(),
            final(self).spec_col_widths() == old(self).spec_col_widths(),
            final(self).spec_col_descs() == old(self).spec_col_descs(),
            final(self).spec_default_col_desc() == old(self).spec_default_col_desc(),
            final(self).spec_header_row() == old(self).spec_header_row(),
            final(self).spec_footer_row() == old(self).spec_footer_row(),
    {
        let ghost t0 = *self;
        let events = self.events();
        let ghost header = spec_row_shape(self.spec_header_row());
        let ghost shapes = spec_rows_shapes(self.spec_rows(), self.spec_col_widths(), None);
        let ghost footer = spec_row_shape(self.spec_footer_row());
        let inner = &self.inner;
        let rows = inner.rows();
        let n = rows.len();
        proof {
            assert(shapes.len() == n);
            lemma_table_events_within(header, shapes, footer);
        }
        let widths = inner.col_widths();
        let descs = inner.column_descs();
        let default = &self.default_col_desc;
        let late: Option<LateFormat> = None;
        let renderer = &mut self.renderer;
        let mut out = String::new();
        let ghost mut outs: Seq<Seq<char>> = Seq::empty();
        let ghost mut states: Seq<T> = seq![*renderer];
        let ghost mut cells: Seq<Option<(Seq<char>, usize, HorzAlign)>> = Seq::empty();
        assert(out@ =~= spec_concat(outs));
        let mut cur_row: Option<usize> = None;
        let mut cur_texts: Vec<String> = Vec::new();
        let mut i: usize = 0;
        while i < events.len()
            invariant
                i <= events@.len(),
                events@ == spec_table_events(header, shapes, footer),
                spec_all_ok(events@, header, shapes, footer),
                rows@ == inner.spec_rows(),
                widths@ == inner.spec_col_widths(),
                n == rows@.len(),
                shapes.len() == rows@.len(),
                shapes == spec_rows_shapes(inner.spec_rows(), inner.spec_col_widths(), None),
                forall|r: int|
                    0 <= r < rows@.len() ==> (#[trigger] rows@[r]).spec_texts().len() <= widths@.len(),
                header == spec_row_shape(inner.spec_header_row()),
                footer == spec_row_shape(inner.spec_footer_row()),
                inner.spec_header_row() matches Some(h) ==> h.spec_len() <= widths@.len(),
                inner.spec_footer_row() matches Some(f) ==> f.spec_len() <= widths@.len(),
                late is None,
                cur_row matches Some(r) ==> r < rows@.len() && string_views(cur_texts@) == spec_split_texts(
                    rows@[r as int].spec_texts(),
                    widths@,
                    late,
                ),
                events@ == t0.spec_events(),
                rows@ == t0.spec_rows(),
                widths@ == t0.spec_col_widths(),
                descs@ == t0.spec_col_descs(),
                *default == t0.spec_default_col_desc(),
                inner.spec_header_row() == t0.spec_header_row(),
                inner.spec_footer_row() == t0.spec_footer_row(),
                outs.len() == i,
                cells.len() == i,
                states.len() == i + 1,
                states[0] == t0.spec_renderer(),
                states[i as int] == *renderer,
                out@ == spec_concat(outs),
                forall|k: int| 0 <= k < i ==> #[trigger] t0.spec_step_at(outs, states, cells, k),
            decreases events@.len() - i,
        {
            let e = events[i];
            let ghost r_before = *renderer;
            let ghost mut cur_cell: Option<(Seq<char>, usize, HorzAlign)> = None;
            let row: usize = match e.row {
                Some(r) => r,
                None => 0,
            };
            let col: usize = match e.col {
                Some(c) => c,
                None => 0,
            };
            let line: usize = match e.line {
                Some(l) => l,
                None => 0,
            };
            let s = match e.hook {
                Hook::Init => {
                    renderer.init(descs, n, widths);
                    String::new()
                },
                Hook::TableStart => renderer.write_table_start(),
                Hook::TableEnd => renderer.write_table_end(),
                Hook::SectionStart => match e.part {
                    Part::Header => renderer.write_header_start(),
                    Part::Data => renderer.write_data_start(),
                    Part::Footer => renderer.write_footer_start(),
                },
                Hook::SectionEnd => match e.part {
                    Part::Header => renderer.write_header_end(),
                    Part::Data => renderer.write_data_end(),
                    Part::Footer => renderer.write_footer_end(),
                },
                Hook::RowStart => match e.part {
                    Part::Header => renderer.write_header_row_start(row),
                    Part::Data => renderer.write_data_row_start(row),
                    Part::Footer => renderer.write_footer_row_start(row),
                },
                Hook::RowEnd => match e.part {
                    Part::Header => renderer.write_header_row_end(row),
                    Part::Data => renderer.write_data_row_end(row),
                    Part::Footer => renderer.write_footer_row_end(row),
                },
                Hook::CellStart => match e.part {
                    Part::Header => renderer.write_header_cell_start(row, col),
                    Part::Data => renderer.write_data_cell_start(row, col),
                    Part::Footer => renderer.write_footer_cell_start(row, col),
                },
                Hook::CellEnd => match e.part {
                    Part::Header => renderer.write_header_cell_end(row, col),
                    Part::Data => renderer.write_data_cell_end(row, col),
                    Part::Footer => renderer.write_footer_cell_end(row, col),
                },
                Hook::LineStart => match e.part {
                    Part::Header => renderer.write_header_line_start(row, line),
                    Part::Data => renderer.write_data_line_start(row, line),
                    Part::Footer => renderer.write_footer_line_start(row, line),
                },
                Hook::LineEnd => match e.part {
                    Part::Header => renderer.write_header_line_end(row, line),
                    Part::Data => renderer.write_data_line_end(row, line),
                    Part::Footer => renderer.write_footer_line_end(row, line),
                },
                Hook::CellLineStart => match e.part {
                    Part::Header => renderer.write_header_cell_line_start(row, col, line),
                    Part::Data => renderer.write_data_cell_line_start(row, col, line),
                    Part::Footer => renderer.write_footer_cell_line_start(row, col, line),
                },
                Hook::CellLineEnd => match e.part {
                    Part::Header => renderer.write_header_cell_line_end(row, col, line),
                    Part::Data => renderer.write_data_cell_line_end(row, col, line),
                    Part::Footer => renderer.write_footer_cell_line_end(row, col, line),
                },
                Hook::CellLine => {
                    assert(spec_event_ok(events@[i as int], header, shapes, footer));
                    let desc = if col < descs.len() { &descs[col] } else { default };
                    let width = widths[col];
                    let align = desc.horz_align;
                    match e.part {
                        Part::Header => {
                            let h = inner.header_row().unwrap();
                            let text = h.line_vert_aligned(col, line, desc.vert_align);
                            proof {
                                cur_cell = Some((text@, width, align));
                            }
                            renderer.write_header_cell_line(row, col, line, text, width, align)
                        },
                        Part::Footer => {
                            let f = inner.footer_row().unwrap();
                            let text = f.line_vert_aligned(col, line, desc.vert_align);
                            proof {
                                cur_cell = Some((text@, width, align));
                            }
                            renderer.write_footer_cell_line(row, col, line, text, width, align)
                        },
                        Part::Data => {
                            let fresh = match cur_row {
                                Some(c) => c != row,
                                None => true,
                            };
                            if fresh {
                                cur_texts = split_texts(&rows[row], widths, &late);
                                cur_row = Some(row);
                            }
                            let strs = as_strs(&cur_texts);
                            let trow = TextRow::new(strs);
                            let text = trow.line_vert_aligned(col, line, desc.vert_align);
                            proof {
                                cur_cell = Some((text@, width, align));
                            }
                            renderer.write_data_cell_line(row, col, line, text, width, align)
                        },
                    }
                },
            };
            proof {
                let ghost outs0 = outs;
                let ghost states0 = states;
                let ghost cells0 = cells;
                outs = outs.push(s@);
                states = states.push(*renderer);
                cells = cells.push(cur_cell);
                assert(t0.spec_events()[i as int] == e);
                assert(e.hook == Hook::Init ==> s@ == Seq::<char>::empty() && r_before.spec_inits(t0.spec_col_descs(), t0.spec_rows().len() as usize, t0.spec_col_widths(), *renderer));
                assert(e.hook == Hook::CellLine ==> (cur_cell matches Some(c) && t0.spec_event_cell(e, c)));
                assert(e.hook != Hook::CellLine ==> cur_cell is None);
                assert(e.hook != Hook::Init ==> r_before.spec_writes(e.hook, spec_hook_part(e), spec_plain_row(e), spec_plain_col(e), spec_plain_line(e), cur_cell, s@, *renderer));
                assert(t0.spec_step_at(outs, states, cells, i as int));
                assert forall|k: int| 0 <= k < i + 1 implies #[trigger] t0.spec_step_at(outs, states, cells, k) by {
                    if k < i {
                        assert(t0.spec_step_at(outs0, states0, cells0, k));
                        assert(outs[k] == outs0[k]);
                        assert(states[k] == states0[k]);
                        assert(states[k + 1] == states0[k + 1]);
                        assert(cells[k] == cells0[k]);
                    }
                }
                assert(outs.drop_last() =~= outs0);
            }
            out.append(s.as_str());
            i = i + 1;
        }
        proof {
            assert(t0.spec_trace(outs, states, cells));
        }
        out
    }
}

} // verus!
