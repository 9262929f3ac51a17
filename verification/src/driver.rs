//! The table driver: builds a table from rows of cells through collation,
//! formatting, sorting, row selection and aggregation, then renders it by
//! calling the renderer's hooks in order.

use vstd::prelude::*;

use crate::aggregate::{
    initial_widths,
    str_width,
    widest_line,
    spec_add_extra,
    spec_desc_at,
    spec_max_row_len,
    spec_widest_line,
    spec_initial_width,
    spec_row_texts,
    spec_rows_widths,
    spec_str_width,
    Aggregate,
};
use crate::align::HorzAlign;
use crate::collate::{ColSpec, CollateRow};
use crate::context::{CellContext, RenderContext};
use crate::features::{LateFormat, StrWidth, WidthContribution};
use crate::render::Renderer;
use crate::row::Row;
use crate::sort::{compare_rows, sort_rows, spec_comparable, spec_stable_arrangement, ColumnOrd};
use crate::split::{as_strs, spec_max_line_count, FormatRow, TextRow};
use crate::text::{spec_lines, spec_vert_aligned_line};
use crate::unicode::{cluster_width_sum, spec_text_width};
use crate::unicode::string_views;

verus! {

/// The part of a table that a hook belongs to.
#[derive(Debug, Clone, Copy, PartialEq, Eq, Hash, Structural)]
pub enum Part {
    /// The header.
    Header,
    /// The data.
    Data,
    /// The footer.
    Footer,
}

/// A renderer hook.
#[derive(Debug, Clone, Copy, PartialEq, Eq, Hash, Structural)]
pub enum Hook {
    /// `init`.
    Init,
    /// `write_table_start`.
    TableStart,
    /// `write_table_end`.
    TableEnd,
    /// `write_{part}_start`.
    SectionStart,
    /// `write_{part}_end`.
    SectionEnd,
    /// `write_{part}_row_start`.
    RowStart,
    /// `write_{part}_row_end`.
    RowEnd,
    /// `write_{part}_line_start`.
    LineStart,
    /// `write_{part}_line_end`.
    LineEnd,
    /// `write_{part}_cell_start`.
    CellStart,
    /// `write_{part}_cell_end`.
    CellEnd,
    /// `write_{part}_cell_line_start`.
    CellLineStart,
    /// `write_{part}_cell_line`.
    CellLine,
    /// `write_{part}_cell_line_end`.
    CellLineEnd,
}

/// A call of a renderer hook: the hook, the part of the table (the data for
/// table-wide hooks), and the row, column and line of the render context.
#[derive(Debug, Clone, Copy, PartialEq, Eq, Hash, Structural)]
pub struct Event {
    /// The hook.
    pub hook: Hook,
    /// The part of the table.
    pub part: Part,
    /// The current row, if any.
    pub row: Option<usize>,
    /// The current column, if any.
    pub col: Option<usize>,
    /// The current line, if any.
    pub line: Option<usize>,
}

/// The event of `hook` in `part` at the given position.
pub open spec fn spec_ev(hook: Hook, part: Part, row: Option<usize>, col: Option<usize>, line: Option<usize>) -> Event {
    Event { hook, part, row, col, line }
}

/// The events of one cell line: the cell starts with its first line, and
/// ends with its last.
pub open spec fn spec_cell_events(part: Part, row: Option<usize>, height: nat, l: nat, c: nat) -> Seq<Event> {
    let col = Some(c as usize);
    let line = Some(l as usize);
    (if l == 0 {
        seq![spec_ev(Hook::CellStart, part, row, col, line)]
    } else {
        Seq::empty()
    }) + seq![
        spec_ev(Hook::CellLineStart, part, row, col, line),
        spec_ev(Hook::CellLine, part, row, col, line),
        spec_ev(Hook::CellLineEnd, part, row, col, line),
    ] + (if l + 1 == height {
        seq![spec_ev(Hook::CellEnd, part, row, col, line)]
    } else {
        Seq::empty()
    })
}

/// The cell events of the first `k` cells of line `l`.
pub open spec fn spec_line_cells(part: Part, row: Option<usize>, height: nat, l: nat, k: nat) -> Seq<Event>
    decreases k,
{
    if k == 0 {
        Seq::empty()
    } else {
        spec_line_cells(part, row, height, l, (k - 1) as nat) + spec_cell_events(part, row, height, l, (k - 1) as nat)
    }
}

/// The events of line `l` of a row of `len` cells.
pub open spec fn spec_line_events(part: Part, row: Option<usize>, height: nat, len: nat, l: nat) -> Seq<Event> {
    seq![spec_ev(Hook::LineStart, part, row, None, Some(l as usize))] + spec_line_cells(part, row, height, l, len)
        + seq![spec_ev(Hook::LineEnd, part, row, None, Some(l as usize))]
}

/// The events of the first `k` lines of a row.
pub open spec fn spec_row_lines(part: Part, row: Option<usize>, height: nat, len: nat, k: nat) -> Seq<Event>
    decreases k,
{
    if k == 0 {
        Seq::empty()
    } else {
        spec_row_lines(part, row, height, len, (k - 1) as nat) + spec_line_events(part, row, height, len, (k - 1) as nat)
    }
}

/// The events of a row of `height` lines and `len` cells: the row starts, its
/// lines follow in order, each with its cells in order, and the row ends.
pub open spec fn spec_row_events(part: Part, row: Option<usize>, height: nat, len: nat) -> Seq<Event> {
    seq![spec_ev(Hook::RowStart, part, row, None, None)] + spec_row_lines(part, row, height, len, height) + seq![
        spec_ev(Hook::RowEnd, part, row, None, None),
    ]
}

/// The events of the first `k` data rows, given by their heights and lengths.
pub open spec fn spec_data_rows(shapes: Seq<(nat, nat)>, k: nat) -> Seq<Event>
    decreases k,
{
    if k == 0 {
        Seq::empty()
    } else {
        spec_data_rows(shapes, (k - 1) as nat) + spec_row_events(
            Part::Data,
            Some((k - 1) as usize),
            shapes[k - 1].0,
            shapes[k - 1].1,
        )
    }
}

/// The row of the context after the data rows: the last one, if any.
pub open spec fn spec_last_row(n: nat) -> Option<usize> {
    if n > 0 {
        Some((n - 1) as usize)
    } else {
        None
    }
}

/// The events of a whole table: initialization and the table start; the
/// header section around the header row, if there is one; the data section
/// around the data rows; the footer section around the footer row, if there
/// is one; and the table end. The context's row is that of the current data
/// row, and stays that of the last one after the data.
pub open spec fn spec_table_events(
    header: Option<(nat, nat)>,
    shapes: Seq<(nat, nat)>,
    footer: Option<(nat, nat)>,
) -> Seq<Event> {
    let last = spec_last_row(shapes.len());
    seq![
        spec_ev(Hook::Init, Part::Data, None, None, None),
        spec_ev(Hook::TableStart, Part::Data, None, None, None),
    ] + (match header {
        Some((h, l)) => seq![spec_ev(Hook::SectionStart, Part::Header, None, None, None)] + spec_row_events(
            Part::Header,
            None,
            h,
            l,
        ) + seq![spec_ev(Hook::SectionEnd, Part::Header, None, None, None)],
        None => Seq::empty(),
    }) + seq![spec_ev(Hook::SectionStart, Part::Data, None, None, None)] + spec_data_rows(shapes, shapes.len())
        + seq![spec_ev(Hook::SectionEnd, Part::Data, last, None, None)] + (match footer {
        Some((h, l)) => seq![spec_ev(Hook::SectionStart, Part::Footer, last, None, None)] + spec_row_events(
            Part::Footer,
            last,
            h,
            l,
        ) + seq![spec_ev(Hook::SectionEnd, Part::Footer, last, None, None)],
        None => Seq::empty(),
    }) + seq![spec_ev(Hook::TableEnd, Part::Data, last, None, None)]
}

/// Whether a cell-line event lies within a row of `height` lines and `len`
/// cells, in `part` at `row`.
pub open spec fn spec_cell_line_within(e: Event, part: Part, row: Option<usize>, height: nat, len: nat) -> bool {
    e.hook == Hook::CellLine ==> e.part == part && e.row == row && e.col is Some && e.line is Some
        && (e.col.unwrap() as nat) < len && (e.line.unwrap() as nat) < height
}

/// Every cell line of a row's line events lies within the row.
proof fn lemma_line_cells_within(part: Part, row: Option<usize>, height: nat, l: nat, k: nat, len: nat)
    requires
        l < height,
        k <= len,
    ensures
        forall|i: int|
            0 <= i < spec_line_cells(part, row, height, l, k).len() ==> spec_cell_line_within(
                #[trigger] spec_line_cells(part, row, height, l, k)[i],
                part,
                row,
                height,
                len,
            ),
    decreases k,
{
    if k > 0 {
        lemma_line_cells_within(part, row, height, l, (k - 1) as nat, len);
        let a = spec_line_cells(part, row, height, l, (k - 1) as nat);
        let b = spec_cell_events(part, row, height, l, (k - 1) as nat);
        assert forall|i: int| 0 <= i < (a + b).len() implies spec_cell_line_within(
            #[trigger] (a + b)[i],
            part,
            row,
            height,
            len,
        ) by {
            if i < a.len() {
                assert((a + b)[i] == a[i]);
            } else {
                assert((a + b)[i] == b[i - a.len()]);
            }
        }
    }
}

/// Every cell line of the first `k` lines of a row lies within the row.
proof fn lemma_row_lines_within(part: Part, row: Option<usize>, height: nat, len: nat, k: nat)
    requires
        k <= height,
    ensures
        forall|i: int|
            0 <= i < spec_row_lines(part, row, height, len, k).len() ==> spec_cell_line_within(
                #[trigger] spec_row_lines(part, row, height, len, k)[i],
                part,
                row,
                height,
                len,
            ),
    decreases k,
{
    if k > 0 {
        lemma_row_lines_within(part, row, height, len, (k - 1) as nat);
        lemma_line_cells_within(part, row, height, (k - 1) as nat, len, len);
        let a = spec_row_lines(part, row, height, len, (k - 1) as nat);
        let b = spec_line_events(part, row, height, len, (k - 1) as nat);
        let c = spec_line_cells(part, row, height, (k - 1) as nat, len);
        assert forall|i: int| 0 <= i < (a + b).len() implies spec_cell_line_within(
            #[trigger] (a + b)[i],
            part,
            row,
            height,
            len,
        ) by {
            if i < a.len() {
                assert((a + b)[i] == a[i]);
            } else {
                let j = i - a.len();
                assert((a + b)[i] == b[j]);
                if 1 <= j < 1 + c.len() {
                    assert(b[j] == c[j - 1]);
                }
            }
        }
    }
}

/// Every cell line of a row's events lies within the row.
pub proof fn lemma_row_events_within(part: Part, row: Option<usize>, height: nat, len: nat)
    ensures
        forall|i: int|
            0 <= i < spec_row_events(part, row, height, len).len() ==> spec_cell_line_within(
                #[trigger] spec_row_events(part, row, height, len)[i],
                part,
                row,
                height,
                len,
            ),
{
    lemma_row_lines_within(part, row, height, len, height);
    let c = spec_row_lines(part, row, height, len, height);
    let s = spec_row_events(part, row, height, len);
    assert forall|i: int| 0 <= i < s.len() implies spec_cell_line_within(#[trigger] s[i], part, row, height, len) by {
        if 1 <= i < 1 + c.len() {
            assert(s[i] == c[i - 1]);
        }
    }
}

/// Whether a cell-line event of the data lies within its data row.
pub open spec fn spec_data_cell_within(e: Event, shapes: Seq<(nat, nat)>) -> bool {
    e.hook == Hook::CellLine && e.part == Part::Data ==> e.row is Some && (e.row.unwrap() as nat) < shapes.len()
        && spec_cell_line_within(
        e,
        Part::Data,
        e.row,
        shapes[e.row.unwrap() as int].0,
        shapes[e.row.unwrap() as int].1,
    )
}

/// Every cell line of the first `k` data rows lies within its row.
proof fn lemma_data_rows_within(shapes: Seq<(nat, nat)>, k: nat)
    requires
        k <= shapes.len(),
        shapes.len() <= usize::MAX,
    ensures
        forall|i: int|
            0 <= i < spec_data_rows(shapes, k).len() ==> {
                let e = #[trigger] spec_data_rows(shapes, k)[i];
                &&& spec_data_cell_within(e, shapes)
                &&& e.part == Part::Data
            },
    decreases k,
{
    if k > 0 {
        lemma_data_rows_within(shapes, (k - 1) as nat);
        let r = (k - 1) as usize;
        lemma_row_events_within(Part::Data, Some(r), shapes[k - 1].0, shapes[k - 1].1);
        lemma_row_events_part(Part::Data, Some(r), shapes[k - 1].0, shapes[k - 1].1);
        let a = spec_data_rows(shapes, (k - 1) as nat);
        let b = spec_row_events(Part::Data, Some(r), shapes[k - 1].0, shapes[k - 1].1);
        assert forall|i: int| 0 <= i < (a + b).len() implies {
            let e = #[trigger] (a + b)[i];
            &&& spec_data_cell_within(e, shapes)
            &&& e.part == Part::Data
        } by {
            if i < a.len() {
                assert((a + b)[i] == a[i]);
            } else {
                assert((a + b)[i] == b[i - a.len()]);
            }
        }
    }
}

/// Every event of a row's events belongs to the row's part.
pub proof fn lemma_row_events_part(part: Part, row: Option<usize>, height: nat, len: nat)
    ensures
        forall|i: int|
            0 <= i < spec_row_events(part, row, height, len).len() ==> (#[trigger] spec_row_events(
                part,
                row,
                height,
                len,
            )[i]).part == part,
{
    assert forall|i: int| 0 <= i < spec_row_events(part, row, height, len).len() implies (
    #[trigger] spec_row_events(part, row, height, len)[i]).part == part by {
        lemma_row_events_part_at(part, row, height, len, i);
    }
}

proof fn lemma_row_events_part_at(part: Part, row: Option<usize>, height: nat, len: nat, i: int)
    requires
        0 <= i < spec_row_events(part, row, height, len).len(),
    ensures
        spec_row_events(part, row, height, len)[i].part == part,
{
    lemma_row_lines_part(part, row, height, len, height);
    let c = spec_row_lines(part, row, height, len, height);
    let s = spec_row_events(part, row, height, len);
    if 1 <= i < 1 + c.len() {
        assert(s[i] == c[i - 1]);
    }
}

proof fn lemma_row_lines_part(part: Part, row: Option<usize>, height: nat, len: nat, k: nat)
    ensures
        forall|i: int|
            0 <= i < spec_row_lines(part, row, height, len, k).len() ==> (#[trigger] spec_row_lines(
                part,
                row,
                height,
                len,
                k,
            )[i]).part == part,
    decreases k,
{
    if k > 0 {
        lemma_row_lines_part(part, row, height, len, (k - 1) as nat);
        lemma_line_cells_part(part, row, height, (k - 1) as nat, len);
        let a = spec_row_lines(part, row, height, len, (k - 1) as nat);
        let b = spec_line_events(part, row, height, len, (k - 1) as nat);
        let c = spec_line_cells(part, row, height, (k - 1) as nat, len);
        assert forall|i: int| 0 <= i < (a + b).len() implies (#[trigger] (a + b)[i]).part == part by {
            if i < a.len() {
                assert((a + b)[i] == a[i]);
            } else {
                let j = i - a.len();
                assert((a + b)[i] == b[j]);
                if 1 <= j < 1 + c.len() {
                    assert(b[j] == c[j - 1]);
                }
            }
        }
    }
}

proof fn lemma_line_cells_part(part: Part, row: Option<usize>, height: nat, l: nat, k: nat)
    ensures
        forall|i: int|
            0 <= i < spec_line_cells(part, row, height, l, k).len() ==> (#[trigger] spec_line_cells(
                part,
                row,
                height,
                l,
                k,
            )[i]).part == part,
    decreases k,
{
    if k > 0 {
        lemma_line_cells_part(part, row, height, l, (k - 1) as nat);
        let a = spec_line_cells(part, row, height, l, (k - 1) as nat);
        let b = spec_cell_events(part, row, height, l, (k - 1) as nat);
        assert forall|i: int| 0 <= i < (a + b).len() implies (#[trigger] (a + b)[i]).part == part by {
            if i < a.len() {
                assert((a + b)[i] == a[i]);
            } else {
                assert((a + b)[i] == b[i - a.len()]);
            }
        }
    }
}

/// Whether a cell-line event lies within the row it belongs to: the header
/// row, the data row of its row index, or the footer row.
pub open spec fn spec_event_ok(
    e: Event,
    header: Option<(nat, nat)>,
    shapes: Seq<(nat, nat)>,
    footer: Option<(nat, nat)>,
) -> bool {
    e.hook == Hook::CellLine ==> match e.part {
        Part::Header => header matches Some((h, l)) && spec_cell_line_within(e, Part::Header, None, h, l),
        Part::Data => spec_data_cell_within(e, shapes),
        Part::Footer => footer matches Some((h, l)) && spec_cell_line_within(
            e,
            Part::Footer,
            spec_last_row(shapes.len()),
            h,
            l,
        ),
    }
}

/// Whether every event of `s` is within its row.
pub open spec fn spec_all_ok(
    s: Seq<Event>,
    header: Option<(nat, nat)>,
    shapes: Seq<(nat, nat)>,
    footer: Option<(nat, nat)>,
) -> bool {
    forall|i: int| 0 <= i < s.len() ==> spec_event_ok(#[trigger] s[i], header, shapes, footer)
}

proof fn lemma_all_ok_concat(
    a: Seq<Event>,
    b: Seq<Event>,
    header: Option<(nat, nat)>,
    shapes: Seq<(nat, nat)>,
    footer: Option<(nat, nat)>,
)
    requires
        spec_all_ok(a, header, shapes, footer),
        spec_all_ok(b, header, shapes, footer),
    ensures
        spec_all_ok(a + b, header, shapes, footer),
{
    assert forall|i: int| 0 <= i < (a + b).len() implies spec_event_ok(#[trigger] (a + b)[i], header, shapes, footer) by {
        if i < a.len() {
            assert((a + b)[i] == a[i]);
        } else {
            assert((a + b)[i] == b[i - a.len()]);
        }
    }
}

/// Every cell line the table's events write lies within its row: the
/// header row, the data row of its row index, or the footer row, at a
/// column and line of that row.
pub proof fn lemma_table_events_within(header: Option<(nat, nat)>, shapes: Seq<(nat, nat)>, footer: Option<(nat, nat)>)
    requires
        shapes.len() <= usize::MAX,
    ensures
        spec_all_ok(spec_table_events(header, shapes, footer), header, shapes, footer),
{
    let last = spec_last_row(shapes.len());
    let p0 = seq![
        spec_ev(Hook::Init, Part::Data, None, None, None),
        spec_ev(Hook::TableStart, Part::Data, None, None, None),
    ];
    let p1: Seq<Event> = match header {
        Some((h, l)) => seq![spec_ev(Hook::SectionStart, Part::Header, None, None, None)] + spec_row_events(
            Part::Header,
            None,
            h,
            l,
        ) + seq![spec_ev(Hook::SectionEnd, Part::Header, None, None, None)],
        None => Seq::empty(),
    };
    let p2 = seq![spec_ev(Hook::SectionStart, Part::Data, None, None, None)];
    let p3 = spec_data_rows(shapes, shapes.len());
    let p4 = seq![spec_ev(Hook::SectionEnd, Part::Data, last, None, None)];
    let p5: Seq<Event> = match footer {
        Some((h, l)) => seq![spec_ev(Hook::SectionStart, Part::Footer, last, None, None)] + spec_row_events(
            Part::Footer,
            last,
            h,
            l,
        ) + seq![spec_ev(Hook::SectionEnd, Part::Footer, last, None, None)],
        None => Seq::empty(),
    };
    let p6 = seq![spec_ev(Hook::TableEnd, Part::Data, last, None, None)];
    assert(spec_all_ok(p0, header, shapes, footer));
    assert(spec_all_ok(p2, header, shapes, footer));
    assert(spec_all_ok(p4, header, shapes, footer));
    assert(spec_all_ok(p6, header, shapes, footer));
    match header {
        Some((h, l)) => {
            let r = spec_row_events(Part::Header, None, h, l);
            lemma_row_events_within(Part::Header, None, h, l);
            lemma_row_events_part(Part::Header, None, h, l);
            assert(spec_all_ok(r, header, shapes, footer));
            let q0 = seq![spec_ev(Hook::SectionStart, Part::Header, None, None, None)];
            let q1 = seq![spec_ev(Hook::SectionEnd, Part::Header, None, None, None)];
            assert(spec_all_ok(q0, header, shapes, footer));
            assert(spec_all_ok(q1, header, shapes, footer));
            lemma_all_ok_concat(q0, r, header, shapes, footer);
            lemma_all_ok_concat(q0 + r, q1, header, shapes, footer);
        },
        None => {},
    }
    assert(spec_all_ok(p1, header, shapes, footer));
    lemma_data_rows_within(shapes, shapes.len());
    assert(spec_all_ok(p3, header, shapes, footer));
    match footer {
        Some((h, l)) => {
            let r = spec_row_events(Part::Footer, last, h, l);
            lemma_row_events_within(Part::Footer, last, h, l);
            lemma_row_events_part(Part::Footer, last, h, l);
            assert(spec_all_ok(r, header, shapes, footer));
            let q0 = seq![spec_ev(Hook::SectionStart, Part::Footer, last, None, None)];
            let q1 = seq![spec_ev(Hook::SectionEnd, Part::Footer, last, None, None)];
            assert(spec_all_ok(q0, header, shapes, footer));
            assert(spec_all_ok(q1, header, shapes, footer));
            lemma_all_ok_concat(q0, r, header, shapes, footer);
            lemma_all_ok_concat(q0 + r, q1, header, shapes, footer);
        },
        None => {},
    }
    assert(spec_all_ok(p5, header, shapes, footer));
    lemma_all_ok_concat(p0, p1, header, shapes, footer);
    lemma_all_ok_concat(p0 + p1, p2, header, shapes, footer);
    lemma_all_ok_concat(p0 + p1 + p2, p3, header, shapes, footer);
    lemma_all_ok_concat(p0 + p1 + p2 + p3, p4, header, shapes, footer);
    lemma_all_ok_concat(p0 + p1 + p2 + p3 + p4, p5, header, shapes, footer);
    lemma_all_ok_concat(p0 + p1 + p2 + p3 + p4 + p5, p6, header, shapes, footer);
    assert(spec_table_events(header, shapes, footer) =~= p0 + p1 + p2 + p3 + p4 + p5 + p6);
}

/// Appends the events of one row to `v`.
pub fn push_row_events(v: &mut Vec<Event>, part: Part, row: Option<usize>, height: usize, len: usize)
    ensures
        final(v)@ == old(v)@ + spec_row_events(part, row, height as nat, len as nat),
{
    let ghost start = v@;
    v.push(Event { hook: Hook::RowStart, part, row, col: None, line: None });
    let ghost head = v@;
    let mut l: usize = 0;
    assert(head =~= head + spec_row_lines(part, row, height as nat, len as nat, 0));
    while l < height
        invariant
            l <= height,
            v@ == head + spec_row_lines(part, row, height as nat, len as nat, l as nat),
        decreases height - l,
    {
        let ghost before = v@;
        v.push(Event { hook: Hook::LineStart, part, row, col: None, line: Some(l) });
        let ghost cells_head = v@;
        let mut c: usize = 0;
        assert(cells_head =~= cells_head + spec_line_cells(part, row, height as nat, l as nat, 0));
        while c < len
            invariant
                c <= len,
                l < height,
                v@ == cells_head + spec_line_cells(part, row, height as nat, l as nat, c as nat),
            decreases len - c,
        {
            let ghost cb = v@;
            let col = Some(c);
            let line = Some(l);
            if l == 0 {
                v.push(Event { hook: Hook::CellStart, part, row, col, line });
            }
            v.push(Event { hook: Hook::CellLineStart, part, row, col, line });
            v.push(Event { hook: Hook::CellLine, part, row, col, line });
            v.push(Event { hook: Hook::CellLineEnd, part, row, col, line });
            if l + 1 == height {
                v.push(Event { hook: Hook::CellEnd, part, row, col, line });
            }
            assert(v@ =~= cb + spec_cell_events(part, row, height as nat, l as nat, c as nat));
            c = c + 1;
            assert(v@ =~= cells_head + spec_line_cells(part, row, height as nat, l as nat, c as nat));
        }
        v.push(Event { hook: Hook::LineEnd, part, row, col: None, line: Some(l) });
        assert(v@ =~= before + spec_line_events(part, row, height as nat, len as nat, l as nat));
        l = l + 1;
        assert(v@ =~= head + spec_row_lines(part, row, height as nat, len as nat, l as nat));
    }
    v.push(Event { hook: Hook::RowEnd, part, row, col: None, line: None });
    assert(v@ =~= start + spec_row_events(part, row, height as nat, len as nat));
}

/// The width handed to a renderer for a cell line under a measure: the
/// measured width, except that centered text wider than a cell of more than
/// two columns is handed its display width (the sum of its grapheme
/// clusters' widths), which centered truncation relies on.
pub open spec fn spec_measure(text: Seq<char>, m: Option<StrWidth>, cell_width: usize, align: HorzAlign) -> Option<
    usize,
> {
    match m {
        None => None,
        Some(m) => {
            let w = spec_str_width(text, m);
            if align == HorzAlign::Center && w > cell_width && cell_width > 2 && w != spec_text_width(text) {
                if spec_text_width(text) <= usize::MAX {
                    Some(spec_text_width(text) as usize)
                } else {
                    None
                }
            } else {
                Some(w)
            }
        },
    }
}

/// Measures a cell line for a renderer.
pub fn measure(text: &str, m: Option<StrWidth>, cell_width: usize, align: HorzAlign) -> (w: Option<usize>)
    ensures
        w == spec_measure(text@, m, cell_width, align),
        w matches Some(v) ==> (align == HorzAlign::Center && v > cell_width && cell_width > 2 ==> v
            == spec_text_width(text@)),
{
    match m {
        None => None,
        Some(m) => {
            let w = str_width(text, m);
            if align == HorzAlign::Center && w > cell_width && cell_width > 2 {
                match cluster_width_sum(text) {
                    Some(exact) => Some(exact),
                    None => None,
                }
            } else {
                Some(w)
            }
        },
    }
}

/// The height and length of a header or footer row.
pub open spec fn spec_row_shape<'a>(row: Option<TextRow<'a>>) -> Option<(nat, nat)> {
    match row {
        Some(r) => Some((r.spec_height(), r.spec_len())),
        None => None,
    }
}

/// The height and length of each data row, after late formatting.
pub open spec fn spec_rows_shapes<'a, R: Row>(
    rows: Seq<FormatRow<'a, R>>,
    widths: Seq<usize>,
    late: Option<LateFormat>,
) -> Seq<(nat, nat)> {
    Seq::new(
        rows.len(),
        |r: int| (spec_max_line_count(spec_split_texts(rows[r].spec_texts(), widths, late)), rows[r].spec_texts().len()),
    )
}

/// The hook calls that render aggregated rows, in order, with late
/// formatting applied to the data rows.
#[verifier::rlimit(50)]
pub fn aggregate_events<'a, R: Row>(inner: &Aggregate<'a, R>, late: &Option<LateFormat>) -> (v: Vec<Event>)
    ensures
        v@ == spec_table_events(
            spec_row_shape(inner.spec_header_row()),
            spec_rows_shapes(inner.spec_rows(), inner.spec_col_widths(), *late),
            spec_row_shape(inner.spec_footer_row()),
        ),
{
    let mut v: Vec<Event> = Vec::new();
    v.push(Event { hook: Hook::Init, part: Part::Data, row: None, col: None, line: None });
    v.push(Event { hook: Hook::TableStart, part: Part::Data, row: None, col: None, line: None });
    match inner.header_row() {
        Some(h) => {
            v.push(Event { hook: Hook::SectionStart, part: Part::Header, row: None, col: None, line: None });
            push_row_events(&mut v, Part::Header, None, h.height(), h.len());
            v.push(Event { hook: Hook::SectionEnd, part: Part::Header, row: None, col: None, line: None });
        },
        None => {},
    }
    v.push(Event { hook: Hook::SectionStart, part: Part::Data, row: None, col: None, line: None });
    let ghost head = v@;
    let rows = inner.rows();
    let widths = inner.col_widths();
    let ghost shapes = spec_rows_shapes(inner.spec_rows(), inner.spec_col_widths(), *late);
    let n = rows.len();
    let mut r: usize = 0;
    assert(head =~= head + spec_data_rows(shapes, 0));
    while r < n
        invariant
            r <= n,
            n == rows@.len(),
            rows@ == inner.spec_rows(),
            widths@ == inner.spec_col_widths(),
            shapes == spec_rows_shapes(inner.spec_rows(), inner.spec_col_widths(), *late),
            v@ == head + spec_data_rows(shapes, r as nat),
        decreases n - r,
    {
        let texts = split_texts(&rows[r], widths, late);
        let strs = as_strs(&texts);
        let trow = TextRow::new(strs);
        push_row_events(&mut v, Part::Data, Some(r), trow.height(), rows[r].len());
        r = r + 1;
        assert(v@ =~= head + spec_data_rows(shapes, r as nat));
    }
    let last: Option<usize> = if n > 0 { Some(n - 1) } else { None };
    v.push(Event { hook: Hook::SectionEnd, part: Part::Data, row: last, col: None, line: None });
    match inner.footer_row() {
        Some(f) => {
            v.push(Event { hook: Hook::SectionStart, part: Part::Footer, row: last, col: None, line: None });
            push_row_events(&mut v, Part::Footer, last, f.height(), f.len());
            v.push(Event { hook: Hook::SectionEnd, part: Part::Footer, row: last, col: None, line: None });
        },
        None => {},
    }
    v.push(Event { hook: Hook::TableEnd, part: Part::Data, row: last, col: None, line: None });
    assert(v@ =~= spec_table_events(
        spec_row_shape(inner.spec_header_row()),
        spec_rows_shapes(inner.spec_rows(), inner.spec_col_widths(), *late),
        spec_row_shape(inner.spec_footer_row()),
    ));
    v
}

/// An event's row, column or line number, with none counting as 0.
pub open spec fn spec_index(n: Option<usize>) -> usize {
    match n {
        Some(v) => v,
        None => 0,
    }
}

/// The concatenation of a sequence of texts, in order.
pub open spec fn spec_concat(outs: Seq<Seq<char>>) -> Seq<char>
    decreases outs.len(),
{
    if outs.len() == 0 {
        Seq::empty()
    } else {
        spec_concat(outs.drop_last()) + outs.last()
    }
}

/// The part a hook is called for at an event: the data part for the hooks of
/// the whole table (`init` and the table's start and end).
pub open spec fn spec_hook_part(e: Event) -> Part {
    match e.hook {
        Hook::Init | Hook::TableStart | Hook::TableEnd => Part::Data,
        _ => e.part,
    }
}

/// The width of column `k`, or zero past the known widths.
pub open spec fn spec_width_at(widths: Seq<usize>, k: int) -> usize {
    if 0 <= k < widths.len() {
        widths[k]
    } else {
        0
    }
}

/// The texts of a row after the formatting applied once column widths are
/// known.
pub open spec fn spec_split_texts(texts: Seq<Seq<char>>, widths: Seq<usize>, late: Option<LateFormat>) -> Seq<
    Seq<char>,
> {
    Seq::new(
        texts.len(),
        |k: int| match late {
            Some(lf) => lf.spec_apply(texts[k], k as usize, spec_width_at(widths, k)),
            None => texts[k],
        },
    )
}

/// The texts of a formatted row after the formatting applied once column
/// widths are known.
pub fn split_texts<'a, R: Row>(row: &FormatRow<'a, R>, widths: &[usize], late: &Option<LateFormat>) -> (t: Vec<
    String,
>)
    ensures
        string_views(t@) == spec_split_texts(row.spec_texts(), widths@, *late),
{
    let n = row.len();
    let mut t: Vec<String> = Vec::new();
    let mut k: usize = 0;
    while k < n
        invariant
            k <= n,
            n == row.spec_texts().len(),
            t@.len() == k,
            forall|j: int|
                0 <= j < k ==> (#[trigger] t@[j])@ == spec_split_texts(row.spec_texts(), widths@, *late)[j],
        decreases n - k,
    {
        let w: usize = if k < widths.len() { widths[k] } else { 0 };
        let s = match late {
            Some(lf) => lf.apply(row.text(k), k, w),
            None => String::from_str(row.text(k)),
        };
        t.push(s);
        k = k + 1;
    }
    assert(string_views(t@) =~= spec_split_texts(row.spec_texts(), widths@, *late));
    t
}

/// The formatted texts of a row of cells: each collated cell displayed with
/// its column's format, and put on a single line when `single_line` is set.
pub open spec fn spec_format_texts(
    cells: Seq<Option<crate::format::CellValue>>,
    descs: Seq<ColSpec>,
    single_line: bool,
) -> Seq<Seq<char>> {
    Seq::new(
        cells.len(),
        |k: int| crate::split::spec_row_text(cells[k], crate::split::spec_column_fmt(descs, k), single_line),
    )
}

/// Whether position `k` is selected: from `start`, and before `end` if
/// bounded.
pub open spec fn spec_row_selected(k: int, start: usize, end: Option<usize>) -> bool {
    k >= start && match end {
        Some(e) => k < e,
        None => true,
    }
}

/// A bound of a row selection, as `std::ops::Bound` gives it.
#[derive(Debug, Clone, Copy, PartialEq, Eq, Hash, Structural)]
pub enum RowBound {
    /// The bound includes the position.
    Included(usize),
    /// The bound excludes the position.
    Excluded(usize),
    /// There is no bound.
    Unbounded,
}

/// Whether position `k` lies within the start bound `start` and the end
/// bound `end`.
pub open spec fn spec_within_bounds(k: int, start: RowBound, end: RowBound) -> bool {
    &&& match start {
        RowBound::Included(s) => k >= s,
        RowBound::Excluded(s) => k > s,
        RowBound::Unbounded => true,
    }
    &&& match end {
        RowBound::Included(e) => k <= e,
        RowBound::Excluded(e) => k < e,
        RowBound::Unbounded => true,
    }
}

/// The first selected position and the bound before which selection ends,
/// for positions between a start bound and an end bound.
pub fn bounds_to_selection(start: RowBound, end: RowBound) -> (r: (usize, Option<usize>))
    ensures
        forall|k: int| 0 <= k <= usize::MAX ==> (spec_row_selected(k, r.0, r.1) <==> spec_within_bounds(k, start, end)),
{
    let first: Option<usize> = match start {
        RowBound::Included(s) => Some(s),
        RowBound::Excluded(s) => if s < usize::MAX { Some(s + 1) } else { None },
        RowBound::Unbounded => Some(0),
    };
    match first {
        None => (usize::MAX, Some(0)),
        Some(f) => {
            let last: Option<usize> = match end {
                RowBound::Included(e) => if e < usize::MAX { Some(e + 1) } else { None },
                RowBound::Excluded(e) => Some(e),
                RowBound::Unbounded => None,
            };
            (f, last)
        },
    }
}

/// The rows at selected positions, in order.
pub open spec fn spec_select_rows<X>(rows: Seq<X>, start: usize, end: Option<usize>) -> Seq<X>
    decreases rows.len(),
{
    if rows.len() == 0 {
        Seq::empty()
    } else {
        let prev = spec_select_rows(rows.drop_last(), start, end);
        if spec_row_selected(rows.len() - 1, start, end) {
            prev.push(rows.last())
        } else {
            prev
        }
    }
}

/// The source rows of a table and how the table selects, describes and
/// orders them.
pub struct TableSource<'a, R: Row> {
    rows: Vec<R>,
    col_select: &'a [usize],
    row_start: usize,
    row_end: Option<usize>,
    col_descs: &'a [ColSpec<'a>],
    default_col_desc: ColSpec<'a>,
    col_order: &'a [ColumnOrd],
    single_line: bool,
}

impl<'a, R: Row> TableSource<'a, R> {
    /// Whether each cell's text is put on a single line when it is formatted.
    pub closed spec fn spec_single_line_cells(&self) -> bool {
        self.single_line
    }

    /// The source rows.
    pub closed spec fn spec_rows(&self) -> Seq<R> {
        self.rows@
    }

    /// The selected columns, in output order; empty selects all.
    pub closed spec fn spec_col_select(&self) -> Seq<usize> {
        self.col_select@
    }

    /// The selected rows, by position after sorting: from `.0`, before `.1`
    /// if bounded.
    pub closed spec fn spec_row_select(&self) -> (usize, Option<usize>) {
        (self.row_start, self.row_end)
    }

    /// The column specifications.
    pub closed spec fn spec_col_descs(&self) -> Seq<ColSpec<'a>> {
        self.col_descs@
    }

    /// The default column specification.
    pub closed spec fn spec_default_col_desc(&self) -> ColSpec<'a> {
        self.default_col_desc
    }

    /// The column orderings for sorting, in order of priority.
    pub closed spec fn spec_col_order(&self) -> Seq<ColumnOrd> {
        self.col_order@
    }

    /// The cells of source row `i` after column selection.
    pub open spec fn spec_cells_of(&self, i: int) -> Seq<Option<crate::format::CellValue>> {
        crate::collate::spec_collated_cells(self.spec_rows()[i].spec_cells(), self.spec_col_select())
    }

    /// Whether `fs` holds the source rows, collated and formatted.
    pub open spec fn spec_formatted(&self, fs: Seq<FormatRow<'a, R>>) -> bool {
        &&& fs.len() == self.spec_rows().len()
        &&& forall|k: int|
            0 <= k < fs.len() ==> (#[trigger] fs[k]).spec_row_cells() == self.spec_cells_of(k)
                && fs[k].spec_texts() == spec_format_texts(self.spec_cells_of(k), self.spec_col_descs(), self.spec_single_line_cells())
    }

    /// Whether sorting can compare every two distinct rows.
    pub open spec fn spec_sortable(&self) -> bool {
        forall|i: int, j: int|
            0 <= i < self.spec_rows().len() && 0 <= j < self.spec_rows().len() && i != j
                ==> crate::sort::spec_rows_comparable(
                self.spec_col_order(),
                spec_format_texts(#[trigger] self.spec_cells_of(i), self.spec_col_descs(), self.spec_single_line_cells()),
                self.spec_cells_of(i),
                spec_format_texts(#[trigger] self.spec_cells_of(j), self.spec_col_descs(), self.spec_single_line_cells()),
                self.spec_cells_of(j),
            )
    }

    /// Whether every row, after column selection, has every column that an
    /// ordering on formatted text names.
    pub open spec fn spec_columns_exist(&self) -> bool {
        forall|i: int, k: int|
            0 <= i < self.spec_rows().len() && 0 <= k < self.spec_col_order().len()
                && (#[trigger] self.spec_col_order()[k]).spec_formatted() ==> self.spec_col_order()[k].idx
                < (#[trigger] self.spec_cells_of(i)).len()
    }

    /// Returns `true` if every row, after column selection, has every column
    /// that an ordering on formatted text names; sorting can then compare
    /// every two rows.
    pub fn is_sortable(&self) -> (b: bool)
        ensures
            b == self.spec_columns_exist(),
            b ==> self.spec_sortable(),
    {
        let n = self.rows.len();
        let ords = self.col_order;
        let mut i: usize = 0;
        while i < n
            invariant
                i <= n,
                n == self.spec_rows().len(),
                ords@ == self.spec_col_order(),
                forall|r: int, k: int|
                    0 <= r < i && 0 <= k < ords@.len() && (#[trigger] ords@[k]).spec_formatted() ==> ords@[k].idx
                        < (#[trigger] self.spec_cells_of(r)).len(),
            decreases n - i,
        {
            let len = if self.col_select.len() == 0 {
                self.rows[i].len()
            } else {
                self.col_select.len()
            };
            assert(len == self.spec_cells_of(i as int).len());
            let mut k: usize = 0;
            while k < ords.len()
                invariant
                    k <= ords@.len(),
                    i < n,
                    n == self.spec_rows().len(),
                    ords@ == self.spec_col_order(),
                    len == self.spec_cells_of(i as int).len(),
                    forall|r: int, q: int|
                        0 <= r < i && 0 <= q < ords@.len() && (#[trigger] ords@[q]).spec_formatted() ==> ords@[q].idx
                            < (#[trigger] self.spec_cells_of(r)).len(),
                    forall|q: int|
                        0 <= q < k && (#[trigger] ords@[q]).spec_formatted() ==> ords@[q].idx < len,
                decreases ords@.len() - k,
            {
                let o = ords[k];
                if o.flags.contains(crate::sort::ColumnOrdFlags::FORMATTED) && o.idx >= len {
                    assert(ords@[k as int].spec_formatted());
                    return false;
                }
                k = k + 1;
            }
            i = i + 1;
        }
        proof {
            assert forall|a: int, b: int|
                0 <= a < self.spec_rows().len() && 0 <= b < self.spec_rows().len() && a != b implies crate::sort::spec_rows_comparable(
                self.spec_col_order(),
                spec_format_texts(#[trigger] self.spec_cells_of(a), self.spec_col_descs(), self.spec_single_line_cells()),
                self.spec_cells_of(a),
                spec_format_texts(#[trigger] self.spec_cells_of(b), self.spec_col_descs(), self.spec_single_line_cells()),
                self.spec_cells_of(b),
            ) by {
                crate::sort::lemma_comparable_when_columns_exist(
                    self.spec_col_order(),
                    spec_format_texts(self.spec_cells_of(a), self.spec_col_descs(), self.spec_single_line_cells()),
                    self.spec_cells_of(a),
                    spec_format_texts(self.spec_cells_of(b), self.spec_col_descs(), self.spec_single_line_cells()),
                    self.spec_cells_of(b),
                );
            }
        }
        true
    }

    /// Constructs a builder over the source rows and renderer: all columns
    /// and rows, no column specifications, the default column specification
    /// and no sorting.
    pub fn new(source: Vec<R>) -> (b: Self)
        ensures
            b.spec_rows() == source@,
            b.spec_col_select().len() == 0,
            b.spec_row_select() == (0usize, None::<usize>),
            b.spec_col_descs().len() == 0,
            b.spec_default_col_desc().spec_is_default(),
            b.spec_col_order().len() == 0,
            !b.spec_single_line_cells(),
    {
        TableSource {
            rows: source,
            col_select: &[],
            row_start: 0,
            row_end: None,
            col_descs: &[],
            default_col_desc: ColSpec::new(),
            col_order: &[],
            single_line: false,
        }
    }

    /// Sets whether each cell's text is put on a single line when it is
    /// formatted, and returns the builder.
    pub fn with_single_line_cells(self, single_line: bool) -> (b: Self)
        ensures
            b.spec_single_line_cells() == single_line,
            b.spec_rows() == self.spec_rows(),
            b.spec_col_select() == self.spec_col_select(),
            b.spec_row_select() == self.spec_row_select(),
            b.spec_col_descs() == self.spec_col_descs(),
            b.spec_default_col_desc() == self.spec_default_col_desc(),
            b.spec_col_order() == self.spec_col_order(),
    {
        TableSource { single_line, ..self }
    }

    /// Selects the columns to show, in order, and returns the builder.
    pub fn with_column_selection(self, col_select: &'a [usize]) -> (b: Self)
        ensures
            b.spec_col_select() == col_select@,
            b.spec_rows() == self.spec_rows(),
            b.spec_single_line_cells() == self.spec_single_line_cells(),
            b.spec_row_select() == self.spec_row_select(),
            b.spec_col_descs() == self.spec_col_descs(),
            b.spec_default_col_desc() == self.spec_default_col_desc(),
            b.spec_col_order() == self.spec_col_order(),
    {
        TableSource { col_select, ..self }
    }

    /// Selects the rows to show, by position after sorting, and returns the
    /// builder.
    pub fn with_row_selection(self, row_select: core::ops::Range<usize>) -> (b: Self)
        ensures
            b.spec_row_select() == (row_select.start, Some(row_select.end)),
            b.spec_rows() == self.spec_rows(),
            b.spec_single_line_cells() == self.spec_single_line_cells(),
            b.spec_col_select() == self.spec_col_select(),
            b.spec_col_descs() == self.spec_col_descs(),
            b.spec_default_col_desc() == self.spec_default_col_desc(),
            b.spec_col_order() == self.spec_col_order(),
    {
        TableSource { row_start: row_select.start, row_end: Some(row_select.end), ..self }
    }

    /// Selects the rows to show, by position after sorting, between a start
    /// bound and an end bound, and returns the builder.
    pub fn with_row_bounds(self, start: RowBound, end: RowBound) -> (b: Self)
        ensures
            forall|k: int|
                0 <= k <= usize::MAX ==> (spec_row_selected(k, b.spec_row_select().0, b.spec_row_select().1)
                    <==> spec_within_bounds(k, start, end)),
            b.spec_rows() == self.spec_rows(),
            b.spec_single_line_cells() == self.spec_single_line_cells(),
            b.spec_col_select() == self.spec_col_select(),
            b.spec_col_descs() == self.spec_col_descs(),
            b.spec_default_col_desc() == self.spec_default_col_desc(),
            b.spec_col_order() == self.spec_col_order(),
    {
        let (row_start, row_end) = bounds_to_selection(start, end);
        TableSource { row_start, row_end, ..self }
    }

    /// Sets the column specifications and returns the builder.
    pub fn with_column_descs(self, col_descs: &'a [ColSpec<'a>]) -> (b: Self)
        ensures
            b.spec_col_descs() == col_descs@,
            b.spec_rows() == self.spec_rows(),
            b.spec_single_line_cells() == self.spec_single_line_cells(),
            b.spec_col_select() == self.spec_col_select(),
            b.spec_row_select() == self.spec_row_select(),
            b.spec_default_col_desc() == self.spec_default_col_desc(),
            b.spec_col_order() == self.spec_col_order(),
    {
        TableSource { col_descs, ..self }
    }

    /// Sets the column specification for columns without one and returns the
    /// builder.
    pub fn with_default_col_desc(self, default_col_desc: ColSpec<'a>) -> (b: Self)
        ensures
            b.spec_default_col_desc() == default_col_desc,
            b.spec_rows() == self.spec_rows(),
            b.spec_single_line_cells() == self.spec_single_line_cells(),
            b.spec_col_select() == self.spec_col_select(),
            b.spec_row_select() == self.spec_row_select(),
            b.spec_col_descs() == self.spec_col_descs(),
            b.spec_col_order() == self.spec_col_order(),
    {
        TableSource { default_col_desc, ..self }
    }

    /// Sets the column orderings to sort by, in order of priority, and
    /// returns the builder.
    pub fn with_sort_columns(self, col_order: &'a [ColumnOrd]) -> (b: Self)
        ensures
            b.spec_col_order() == col_order@,
            b.spec_rows() == self.spec_rows(),
            b.spec_single_line_cells() == self.spec_single_line_cells(),
            b.spec_col_select() == self.spec_col_select(),
            b.spec_row_select() == self.spec_row_select(),
            b.spec_col_descs() == self.spec_col_descs(),
            b.spec_default_col_desc() == self.spec_default_col_desc(),
    {
        TableSource { col_order, ..self }
    }

    /// The source rows after collation and formatting, sorted stably by the
    /// column orderings, of which the selected positions are kept.
    pub fn into_rows(self) -> (rows: Vec<FormatRow<'a, R>>)
        requires
            self.spec_sortable(),
        ensures
            exists|fs: Seq<FormatRow<'a, R>>, sorted: Seq<FormatRow<'a, R>>|
                #![trigger self.spec_formatted(fs), spec_select_rows(sorted, self.spec_row_select().0, self.spec_row_select().1)]
                {
                    &&& self.spec_formatted(fs)
                    &&& self.spec_col_order().len() == 0 ==> sorted == fs
                    &&& self.spec_col_order().len() > 0 ==> exists|p: Seq<int>|
                        spec_stable_arrangement(fs, sorted, p, self.spec_col_order())
                    &&& rows@ == spec_select_rows(sorted, self.spec_row_select().0, self.spec_row_select().1)
                },
    {
        let ghost src = self.rows@;
        let mut rows = self.rows;
        let n = rows.len();
        let mut formatted: Vec<FormatRow<'a, R>> = Vec::new();
        let mut i: usize = 0;
        while i < n
            invariant
                i <= n,
                n == src.len(),
                rows@ == src.skip(i as int),
                formatted@.len() == i,
                forall|k: int|
                    0 <= k < i ==> (#[trigger] formatted@[k]).spec_row_cells()
                        == crate::collate::spec_collated_cells(src[k].spec_cells(), self.col_select@)
                        && formatted@[k].spec_texts() == spec_format_texts(
                        formatted@[k].spec_row_cells(),
                        self.col_descs@,
                        self.single_line,
                    ),
            decreases n - i,
        {
            assert(rows@[0] == src[i as int]);
            let r = rows.remove(0);
            assert(rows@ =~= src.skip(i + 1));
            let f = FormatRow::new_with_lines(CollateRow::new(r, self.col_select), self.col_descs, self.single_line);
            assert(f.spec_texts() =~= spec_format_texts(f.spec_row_cells(), self.col_descs@, self.single_line));
            formatted.push(f);
            i = i + 1;
        }
        let ghost fs = formatted@;
        assert(self.spec_formatted(fs));
        let sorted = if self.col_order.len() > 0 {
            assert forall|a: int, b: int|
                0 <= a < formatted@.len() && 0 <= b < formatted@.len() && a != b implies spec_comparable(
                #[trigger] formatted@[a],
                #[trigger] formatted@[b],
                self.col_order@,
            ) by {
                assert(self.spec_cells_of(a) == formatted@[a].spec_row_cells());
                assert(self.spec_cells_of(b) == formatted@[b].spec_row_cells());
            }
            sort_rows(formatted, self.col_order)
        } else {
            formatted
        };
        let mut selected: Vec<FormatRow<'a, R>> = Vec::new();
        let mut rest = sorted;
        let ghost rest0 = rest@;
        let total = rest.len();
        let mut k: usize = 0;
        while k < total
            invariant
                k <= total,
                total == rest0.len(),
                rest@ == rest0.skip(k as int),
                selected@ == spec_select_rows(rest0.take(k as int), self.row_start, self.row_end),
            decreases total - k,
        {
            assert(rest@[0] == rest0[k as int]);
            let r = rest.remove(0);
            assert(rest@ =~= rest0.skip(k + 1));
            assert(rest0.take(k + 1).drop_last() =~= rest0.take(k as int));
            let keep = k >= self.row_start && match self.row_end {
                Some(e) => k < e,
                None => true,
            };
            if keep {
                selected.push(r);
            }
            k = k + 1;
        }
        assert(rest0.take(total as int) =~= rest0);
        assert(self.spec_col_order().len() == 0 ==> rest0 == fs);
        assert(self.spec_formatted(fs));
        assert(self.spec_col_order().len() > 0 ==> exists|p: Seq<int>|
            spec_stable_arrangement(fs, rest0, p, self.spec_col_order()));
        assert(self.spec_row_select().0 == self.row_start);
        assert(selected@ == spec_select_rows(rest0, self.spec_row_select().0, self.spec_row_select().1));
        selected
    }

    /// The column specifications.
    pub fn col_descs(&self) -> (d: &'a [ColSpec<'a>])
        ensures
            d@ == self.spec_col_descs(),
    {
        self.col_descs
    }

    /// The default column specification.
    pub fn default_col_desc(&self) -> (d: ColSpec<'a>)
        ensures
            d == self.spec_default_col_desc(),
    {
        self.default_col_desc
    }
}

/// A builder for a table over rows of type `R` rendered by `T`.
pub struct TableBuilder<'a, R: Row, T: Renderer> {
    source: TableSource<'a, R>,
    renderer: T,
}

impl<'a, R: Row, T: Renderer> TableBuilder<'a, R, T> {
    /// The source rows and how the table selects, describes and orders them.
    pub closed spec fn spec_source(&self) -> TableSource<'a, R> {
        self.source
    }

    /// The renderer.
    pub closed spec fn spec_renderer(&self) -> T {
        self.renderer
    }

    /// The source rows.
    pub open spec fn spec_rows(&self) -> Seq<R> {
        self.spec_source().spec_rows()
    }

    /// Whether each cell's text is put on a single line when it is formatted,
    /// as the renderer's features ask.
    pub open spec fn spec_single_line_cells(&self) -> bool {
        self.spec_source().spec_single_line_cells()
    }

    /// The selected columns, in output order; empty selects all.
    pub open spec fn spec_col_select(&self) -> Seq<usize> {
        self.spec_source().spec_col_select()
    }

    /// The selected rows, by position after sorting: from `.0`, before `.1`
    /// if bounded.
    pub open spec fn spec_row_select(&self) -> (usize, Option<usize>) {
        self.spec_source().spec_row_select()
    }

    /// The column specifications.
    pub open spec fn spec_col_descs(&self) -> Seq<ColSpec<'a>> {
        self.spec_source().spec_col_descs()
    }

    /// The default column specification.
    pub open spec fn spec_default_col_desc(&self) -> ColSpec<'a> {
        self.spec_source().spec_default_col_desc()
    }

    /// The column orderings for sorting, in order of priority.
    pub open spec fn spec_col_order(&self) -> Seq<ColumnOrd> {
        self.spec_source().spec_col_order()
    }

    /// The cells of source row `i` after column selection.
    pub open spec fn spec_cells_of(&self, i: int) -> Seq<Option<crate::format::CellValue>> {
        self.spec_source().spec_cells_of(i)
    }

    /// Whether `fs` holds the source rows, collated and formatted.
    pub open spec fn spec_formatted(&self, fs: Seq<FormatRow<'a, R>>) -> bool {
        self.spec_source().spec_formatted(fs)
    }

    /// Whether sorting can compare every two distinct rows.
    pub open spec fn spec_sortable(&self) -> bool {
        self.spec_source().spec_sortable()
    }

    /// Whether every row, after column selection, has every column that an
    /// ordering on formatted text names.
    pub open spec fn spec_columns_exist(&self) -> bool {
        self.spec_source().spec_columns_exist()
    }

    /// Constructs a builder over the source rows and renderer: all columns
    /// and rows, no column specifications, the default column specification
    /// and no sorting; cells are put on a single line if the renderer's
    /// features ask for it.
    pub fn new(source: Vec<R>, renderer: T) -> (b: Self)
        ensures
            b.spec_rows() == source@,
            b.spec_col_select().len() == 0,
            b.spec_row_select() == (0usize, None::<usize>),
            b.spec_col_descs().len() == 0,
            b.spec_default_col_desc().spec_is_default(),
            b.spec_col_order().len() == 0,
            b.spec_single_line_cells() == renderer.spec_single_line_cells(),
            b.spec_renderer() == renderer,
    {
        let single_line = renderer.features().single_line_cells;
        TableBuilder { source: TableSource::new(source).with_single_line_cells(single_line), renderer }
    }

    /// Returns `true` if every row, after column selection, has every column
    /// that an ordering on formatted text names; sorting can then compare
    /// every two rows.
    pub fn is_sortable(&self) -> (b: bool)
        ensures
            b == self.spec_columns_exist(),
            b ==> self.spec_sortable(),
    {
        self.source.is_sortable()
    }

    /// Selects the columns to show, in order, and returns the builder.
    pub fn with_column_selection(self, col_select: &'a [usize]) -> (b: Self)
        ensures
            b.spec_col_select() == col_select@,
            b.spec_rows() == self.spec_rows(),
            b.spec_renderer() == self.spec_renderer(),
            b.spec_single_line_cells() == self.spec_single_line_cells(),
            b.spec_row_select() == self.spec_row_select(),
            b.spec_col_descs() == self.spec_col_descs(),
            b.spec_default_col_desc() == self.spec_default_col_desc(),
            b.spec_col_order() == self.spec_col_order(),
    {
        TableBuilder { source: self.source.with_column_selection(col_select), renderer: self.renderer }
    }

    /// Selects the rows to show, by position after sorting, and returns the
    /// builder.
    pub fn with_row_selection(self, row_select: core::ops::Range<usize>) -> (b: Self)
        ensures
            b.spec_row_select() == (row_select.start, Some(row_select.end)),
            b.spec_rows() == self.spec_rows(),
            b.spec_renderer() == self.spec_renderer(),
            b.spec_single_line_cells() == self.spec_single_line_cells(),
            b.spec_col_select() == self.spec_col_select(),
            b.spec_col_descs() == self.spec_col_descs(),
            b.spec_default_col_desc() == self.spec_default_col_desc(),
            b.spec_col_order() == self.spec_col_order(),
    {
        TableBuilder { source: self.source.with_row_selection(row_select), renderer: self.renderer }
    }

    /// Selects the rows to show, by position after sorting, between a start
    /// bound and an end bound, and returns the builder.
    pub fn with_row_bounds(self, start: RowBound, end: RowBound) -> (b: Self)
        ensures
            forall|k: int|
                0 <= k <= usize::MAX ==> (spec_row_selected(k, b.spec_row_select().0, b.spec_row_select().1)
                    <==> spec_within_bounds(k, start, end)),
            b.spec_rows() == self.spec_rows(),
            b.spec_renderer() == self.spec_renderer(),
            b.spec_single_line_cells() == self.spec_single_line_cells(),
            b.spec_col_select() == self.spec_col_select(),
            b.spec_col_descs() == self.spec_col_descs(),
            b.spec_default_col_desc() == self.spec_default_col_desc(),
            b.spec_col_order() == self.spec_col_order(),
    {
        TableBuilder { source: self.source.with_row_bounds(start, end), renderer: self.renderer }
    }

    /// Sets the column specifications and returns the builder.
    pub fn with_column_descs(self, col_descs: &'a [ColSpec<'a>]) -> (b: Self)
        ensures
            b.spec_col_descs() == col_descs@,
            b.spec_rows() == self.spec_rows(),
            b.spec_renderer() == self.spec_renderer(),
            b.spec_single_line_cells() == self.spec_single_line_cells(),
            b.spec_col_select() == self.spec_col_select(),
            b.spec_row_select() == self.spec_row_select(),
            b.spec_default_col_desc() == self.spec_default_col_desc(),
            b.spec_col_order() == self.spec_col_order(),
    {
        TableBuilder { source: self.source.with_column_descs(col_descs), renderer: self.renderer }
    }

    /// Sets the column specification for columns without one and returns the
    /// builder.
    pub fn with_default_col_desc(self, default_col_desc: ColSpec<'a>) -> (b: Self)
        ensures
            b.spec_default_col_desc() == default_col_desc,
            b.spec_rows() == self.spec_rows(),
            b.spec_renderer() == self.spec_renderer(),
            b.spec_single_line_cells() == self.spec_single_line_cells(),
            b.spec_col_select() == self.spec_col_select(),
            b.spec_row_select() == self.spec_row_select(),
            b.spec_col_descs() == self.spec_col_descs(),
            b.spec_col_order() == self.spec_col_order(),
    {
        TableBuilder { source: self.source.with_default_col_desc(default_col_desc), renderer: self.renderer }
    }

    /// Sets the column orderings to sort by, in order of priority, and
    /// returns the builder.
    pub fn with_sort_columns(self, col_order: &'a [ColumnOrd]) -> (b: Self)
        ensures
            b.spec_col_order() == col_order@,
            b.spec_rows() == self.spec_rows(),
            b.spec_renderer() == self.spec_renderer(),
            b.spec_single_line_cells() == self.spec_single_line_cells(),
            b.spec_col_select() == self.spec_col_select(),
            b.spec_row_select() == self.spec_row_select(),
            b.spec_col_descs() == self.spec_col_descs(),
            b.spec_default_col_desc() == self.spec_default_col_desc(),
    {
        TableBuilder { source: self.source.with_sort_columns(col_order), renderer: self.renderer }
    }

    /// Builds the table: collates and formats every row, sorts the rows
    /// stably by the column orderings, keeps the selected rows, and
    /// aggregates them under the renderer's features.
    pub fn finish(self) -> (t: Table<'a, R, T>)
        requires
            self.spec_sortable(),
        ensures
            t.spec_col_descs() == self.spec_col_descs(),
            t.spec_default_col_desc() == self.spec_default_col_desc(),
            exists|fs: Seq<FormatRow<'a, R>>, sorted: Seq<FormatRow<'a, R>>|
                #![trigger self.spec_formatted(fs), spec_select_rows(sorted, self.spec_row_select().0, self.spec_row_select().1)]
                {
                    &&& self.spec_formatted(fs)
                    &&& self.spec_col_order().len() == 0 ==> sorted == fs
                    &&& self.spec_col_order().len() > 0 ==> exists|p: Seq<int>|
                        spec_stable_arrangement(fs, sorted, p, self.spec_col_order())
                    &&& t.spec_rows() == spec_select_rows(sorted, self.spec_row_select().0, self.spec_row_select().1)
                },
            t.spec_col_widths() == match t.spec_measure() {
                Some(m) => spec_add_extra(
                    spec_rows_widths(
                        Seq::new(
                            self.spec_col_descs().len(),
                            |i: int| spec_initial_width(self.spec_col_descs(), i, m),
                        ),
                        spec_row_texts(t.spec_rows()),
                        self.spec_col_descs(),
                        self.spec_default_col_desc(),
                        m,
                    ),
                    t.spec_extra_column_width(),
                ),
                None => Seq::<usize>::empty(),
            },
            t.spec_measure() is Some ==> t.spec_renderable(),
            t.spec_renderer() == self.spec_renderer(),
            t.spec_measure() == self.spec_renderer().spec_width_fn(),
            t.spec_extra_column_width() == self.spec_renderer().spec_extra_width(),
    {
        let features = self.renderer.features();
        let col_descs = self.source.col_descs();
        let default_col_desc = self.source.default_col_desc();
        let ghost source = self.source;
        let selected = self.source.into_rows();
        proof {
            let (fs, sorted) = choose|fs: Seq<FormatRow<'a, R>>, sorted: Seq<FormatRow<'a, R>>|
                {
                    &&& source.spec_formatted(fs)
                    &&& source.spec_col_order().len() == 0 ==> sorted == fs
                    &&& source.spec_col_order().len() > 0 ==> exists|p: Seq<int>|
                        spec_stable_arrangement(fs, sorted, p, source.spec_col_order())
                    &&& selected@ == spec_select_rows(sorted, source.spec_row_select().0, source.spec_row_select().1)
                };
            assert(self.spec_formatted(fs));
            assert(selected@ == spec_select_rows(sorted, self.spec_row_select().0, self.spec_row_select().1));
        }
        let inner = Aggregate::new(
            selected,
            col_descs,
            &default_col_desc,
            features.str_width_fn,
            features.extra_column_width,
        );
        Table {
            inner,
            renderer: self.renderer,
            default_col_desc,
            measure: features.str_width_fn,
            extra_column_width: features.extra_column_width,
            late_format: features.late_format_fn,
            width_contribution: features.width_contribution_fn,
        }
    }
}

/// A table ready to render: its aggregated rows, the renderer, the default
/// column specification, and the renderer's width measure and late
/// formatting.
pub struct Table<'a, R: Row, T: Renderer> {
    inner: Aggregate<'a, R>,
    renderer: T,
    default_col_desc: ColSpec<'a>,
    measure: Option<StrWidth>,
    extra_column_width: usize,
    late_format: Option<LateFormat>,
    width_contribution: Option<WidthContribution>,
}

impl<'a, R: Row, T: Renderer> Table<'a, R, T> {
    /// The column specifications.
    pub closed spec fn spec_col_descs(&self) -> Seq<ColSpec<'a>> {
        self.inner.spec_col_descs()
    }

    /// The default column specification.
    pub closed spec fn spec_default_col_desc(&self) -> ColSpec<'a> {
        self.default_col_desc
    }

    /// The number of data rows.
    pub closed spec fn spec_row_count(&self) -> nat {
        self.inner.spec_rows().len()
    }

    /// The data rows.
    pub closed spec fn spec_rows(&self) -> Seq<FormatRow<'a, R>> {
        self.inner.spec_rows()
    }

    /// The column widths.
    pub closed spec fn spec_col_widths(&self) -> Seq<usize> {
        self.inner.spec_col_widths()
    }

    /// The header row, if any.
    pub closed spec fn spec_header_row(&self) -> Option<TextRow<'a>> {
        self.inner.spec_header_row()
    }

    /// The footer row, if any.
    pub closed spec fn spec_footer_row(&self) -> Option<TextRow<'a>> {
        self.inner.spec_footer_row()
    }

    /// The measure of text widths, if widths are measured.
    pub closed spec fn spec_measure(&self) -> Option<StrWidth> {
        self.measure
    }

    /// The extra width added to every column.
    pub closed spec fn spec_extra_column_width(&self) -> usize {
        self.extra_column_width
    }

    /// The formatting applied once column widths are known.
    pub closed spec fn spec_late_format(&self) -> Option<LateFormat> {
        self.late_format
    }

    /// The renderer's rule for the width it adds to the columns, if it adds
    /// any.
    pub closed spec fn spec_width_rule(&self) -> Option<WidthContribution> {
        self.width_contribution
    }

    /// The largest number of cells in a data row.
    pub closed spec fn spec_widest_row(&self) -> usize {
        self.inner.spec_widest_row()
    }

    /// The widest line of each data row's cell in column `col` under a
    /// measure, zero for an empty cell, or `None` for a row without that
    /// column.
    pub open spec fn spec_column_cell_widths(&self, col: usize, m: StrWidth) -> Seq<Option<usize>> {
        Seq::new(
            self.spec_rows().len(),
            |r: int|
                if col < self.spec_rows()[r].spec_texts().len() {
                    Some(
                        match spec_widest_line(self.spec_rows()[r].spec_texts()[col as int], m) {
                            Some(w) => w,
                            None => 0,
                        },
                    )
                } else {
                    None
                },
        )
    }

    /// The column widths.
    pub fn col_widths(&self) -> (w: &[usize])
        ensures
            w@ == self.spec_col_widths(),
    {
        self.inner.col_widths()
    }

    /// The measure of text widths, if widths are measured.
    pub fn str_width_fn(&self) -> (m: Option<StrWidth>)
        ensures
            m == self.spec_measure(),
    {
        self.measure
    }

    /// The extra width added to every column.
    pub fn extra_column_width(&self) -> (w: usize)
        ensures
            w == self.spec_extra_column_width(),
    {
        self.extra_column_width
    }

    /// The width the renderer adds to the columns for the widest row,
    /// saturating at `usize::MAX`; zero where the renderer has no rule.
    pub fn width_contribution(&self) -> (w: usize)
        ensures
            w == match self.spec_width_rule() {
                Some(rule) => if rule.spec_eval(self.spec_widest_row() as nat) > usize::MAX {
                    usize::MAX as int
                } else {
                    rule.spec_eval(self.spec_widest_row() as nat)
                },
                None => 0,
            },
    {
        match self.width_contribution {
            Some(rule) => rule.eval(self.inner.max_row_len()),
            None => 0,
        }
    }

    /// The starting width of every described column under the measure `m`,
    /// before any data row widens it.
    pub fn initial_widths(&self, m: StrWidth) -> (w: Vec<usize>)
        ensures
            w@ == Seq::new(self.spec_col_descs().len(), |i: int| spec_initial_width(self.spec_col_descs(), i, m)),
    {
        initial_widths(self.inner.column_descs(), m)
    }

    /// The widest line of each data row's cell in column `col` under the
    /// measure `m`, zero for an empty cell, or `None` for a row without that
    /// column.
    pub fn column_cell_widths(&self, col: usize, m: StrWidth) -> (ws: Vec<Option<usize>>)
        ensures
            ws@ == self.spec_column_cell_widths(col, m),
    {
        let rows = self.inner.rows();
        let mut ws: Vec<Option<usize>> = Vec::new();
        let mut r: usize = 0;
        while r < rows.len()
            invariant
                r <= rows@.len(),
                rows@ == self.spec_rows(),
                ws@ == self.spec_column_cell_widths(col, m).take(r as int),
            decreases rows@.len() - r,
        {
            let w = if col < rows[r].len() {
                Some(
                    match widest_line(rows[r].text(col), m) {
                        Some(w) => w,
                        None => 0,
                    },
                )
            } else {
                None
            };
            ws.push(w);
            r = r + 1;
            assert(ws@ =~= self.spec_column_cell_widths(col, m).take(r as int));
        }
        assert(ws@ =~= self.spec_column_cell_widths(col, m));
        ws
    }

    /// Returns the table with its column widths replaced by as many others,
    /// everything else unchanged.
    pub fn with_col_widths(self, widths: Vec<usize>) -> (t: Self)
        requires
            widths@.len() == self.spec_col_widths().len(),
        ensures
            t.spec_col_widths() == widths@,
            t.spec_rows() == self.spec_rows(),
            t.spec_col_descs() == self.spec_col_descs(),
            t.spec_default_col_desc() == self.spec_default_col_desc(),
            t.spec_header_row() == self.spec_header_row(),
            t.spec_footer_row() == self.spec_footer_row(),
            t.spec_measure() == self.spec_measure(),
            t.spec_extra_column_width() == self.spec_extra_column_width(),
            t.spec_late_format() == self.spec_late_format(),
            t.spec_width_rule() == self.spec_width_rule(),
            t.spec_widest_row() == self.spec_widest_row(),
    {
        let mut t = self;
        t.inner.set_col_widths(widths);
        t
    }

    /// The renderer.
    pub closed spec fn spec_renderer(&self) -> T {
        self.renderer
    }

    /// Whether `ctx` is the render context of the table at event `e`: the
    /// table's column specifications, widths and row count, and the event's
    /// row, column and line.
    pub open spec fn spec_event_ctx(&self, e: Event, ctx: RenderContext) -> bool {
        &&& *ctx.default_col_desc == self.spec_default_col_desc()
        &&& ctx.col_descs@ == self.spec_col_descs()
        &&& ctx.col_widths@ == self.spec_col_widths()
        &&& ctx.row_count == self.spec_row_count()
        &&& ctx.row == e.row
        &&& ctx.col == e.col
        &&& ctx.line == e.line
    }

    /// The cell texts of the row a cell-line event belongs to, and the row's
    /// height: the header or footer row, or the data row after late
    /// formatting.
    pub open spec fn spec_event_texts(&self, e: Event) -> (Seq<Seq<char>>, nat) {
        match e.part {
            Part::Header => match self.spec_header_row() {
                Some(h) => (h.spec_texts(), h.spec_height()),
                None => (Seq::empty(), 0),
            },
            Part::Footer => match self.spec_footer_row() {
                Some(f) => (f.spec_texts(), f.spec_height()),
                None => (Seq::empty(), 0),
            },
            Part::Data => {
                let r = match e.row {
                    Some(r) => r,
                    None => 0,
                };
                let t = spec_split_texts(
                    self.spec_rows()[r as int].spec_texts(),
                    self.spec_col_widths(),
                    self.spec_late_format(),
                );
                (t, spec_max_line_count(t))
            },
        }
    }

    /// Whether `cell` is the cell line of a cell-line event: the column's
    /// specification and width, the line of the cell's text shown on the
    /// event's line after vertical alignment in the row, and its measured
    /// width.
    pub open spec fn spec_event_cell(&self, e: Event, cell: CellContext) -> bool {
        let col: usize = match e.col {
            Some(c) => c,
            None => 0,
        };
        let line: usize = match e.line {
            Some(l) => l,
            None => 0,
        };
        let desc = spec_desc_at(self.spec_col_descs(), self.spec_default_col_desc(), col as int);
        let texts = self.spec_event_texts(e).0;
        let text = if col < texts.len() { texts[col as int] } else { Seq::<char>::empty() };
        &&& *cell.desc == desc
        &&& cell.cell_width == spec_width_at(self.spec_col_widths(), col as int)
        &&& cell.text@ == spec_vert_aligned_line(spec_lines(text), line as nat, self.spec_event_texts(e).1, desc.vert_align)
        &&& cell.text_width == spec_measure(cell.text@, self.spec_measure(), cell.cell_width, desc.horz_align)
    }

    /// Whether step `i` of a render trace holds: the hook of event `i` is
    /// called with the table's context and, for a cell line, the event's cell,
    /// on renderer `states[i]`, writes `outs[i]` and leaves `states[i + 1]`.
    pub open spec fn spec_step_at(
        &self,
        outs: Seq<Seq<char>>,
        states: Seq<T>,
        ctxs: Seq<RenderContext>,
        cells: Seq<Option<CellContext>>,
        i: int,
    ) -> bool {
        let e = self.spec_events()[i];
        &&& self.spec_event_ctx(e, ctxs[i])
        &&& if e.hook == Hook::CellLine {
            cells[i] matches Some(c) && self.spec_event_cell(e, c)
        } else {
            cells[i] is None
        }
        &&& states[i].spec_writes(e.hook, spec_hook_part(e), ctxs[i], cells[i], outs[i], states[i + 1])
    }

    /// Whether a render trace covers the table's events: one output, context
    /// and cell per event, one renderer before each event and one after the
    /// last, every step holding.
    pub open spec fn spec_trace(
        &self,
        outs: Seq<Seq<char>>,
        states: Seq<T>,
        ctxs: Seq<RenderContext>,
        cells: Seq<Option<CellContext>>,
    ) -> bool {
        &&& outs.len() == self.spec_events().len()
        &&& ctxs.len() == self.spec_events().len()
        &&& cells.len() == self.spec_events().len()
        &&& states.len() == self.spec_events().len() + 1
        &&& forall|i: int| 0 <= i < self.spec_events().len() ==> #[trigger] self.spec_step_at(outs, states, ctxs, cells, i)
    }

    /// Whether rendering the table with renderer `r0` may write `out` and
    /// leave the renderer as `r1`: the hooks are called in the order of the
    /// table's events, each with the table's context and cell at that event,
    /// and `out` is what they write, concatenated in that order.
    pub open spec fn spec_renders(&self, r0: T, out: Seq<char>, r1: T) -> bool {
        exists|outs: Seq<Seq<char>>, states: Seq<T>, ctxs: Seq<RenderContext>, cells: Seq<Option<CellContext>>|
            #[trigger] self.spec_trace(outs, states, ctxs, cells) && states[0] == r0 && states.last() == r1 && out
                == spec_concat(outs)
    }

    /// The height and length of a header or footer row.
    pub open spec fn spec_text_shape(row: Option<TextRow<'a>>) -> Option<(nat, nat)> {
        spec_row_shape(row)
    }

    /// The height and length of each data row, after late formatting.
    pub open spec fn spec_data_shapes(&self) -> Seq<(nat, nat)> {
        spec_rows_shapes(self.spec_rows(), self.spec_col_widths(), self.spec_late_format())
    }

    /// The hook calls that render the table, in order.
    pub open spec fn spec_events(&self) -> Seq<Event> {
        spec_table_events(
            Self::spec_text_shape(self.spec_header_row()),
            self.spec_data_shapes(),
            Self::spec_text_shape(self.spec_footer_row()),
        )
    }

    /// Returns the hook calls that render the table, in order.
    pub fn events(&self) -> (v: Vec<Event>)
        ensures
            v@ == self.spec_events(),
    {
        aggregate_events(&self.inner, &self.late_format)
    }

    /// Whether every row fits the column widths: no data, header or footer
    /// row has more cells than there are widths.
    pub open spec fn spec_renderable(&self) -> bool {
        &&& forall|r: int|
            0 <= r < self.spec_rows().len() ==> (#[trigger] self.spec_rows()[r]).spec_texts().len()
                <= self.spec_col_widths().len()
        &&& self.spec_header_row() matches Some(h) ==> h.spec_len() <= self.spec_col_widths().len()
        &&& self.spec_footer_row() matches Some(f) ==> f.spec_len() <= self.spec_col_widths().len()
    }

    /// Returns `true` if every row fits the column widths, as rendering needs.
    pub fn is_renderable(&self) -> (b: bool)
        ensures
            b == self.spec_renderable(),
    {
        let rows = self.inner.rows();
        let n = self.inner.col_widths().len();
        let mut r: usize = 0;
        while r < rows.len()
            invariant
                r <= rows@.len(),
                rows@ == self.spec_rows(),
                n == self.spec_col_widths().len(),
                forall|k: int| 0 <= k < r ==> (#[trigger] rows@[k]).spec_texts().len() <= n,
            decreases rows@.len() - r,
        {
            if rows[r].len() > n {
                return false;
            }
            r = r + 1;
        }
        let h_ok = match self.inner.header_row() {
            Some(h) => h.len() <= n,
            None => true,
        };
        let f_ok = match self.inner.footer_row() {
            Some(f) => f.len() <= n,
            None => true,
        };
        h_ok && f_ok
    }

    /// Renders the table: calls the renderer's hooks in the order of
    /// `events`, each with the render context at that point and, for cell
    /// lines, the line's text vertically aligned in its cell, its measured
    /// width and the column width, and returns what they wrote.
    pub fn render(&mut self) -> (out: String)
        requires
            old(self).spec_renderable(),
        ensures
            old(self).spec_renders(old(self).spec_renderer(), out@, final(self).spec_renderer()),
            final(self).spec_rows() == old(self).spec_rows(),
            final(self).spec_col_widths() == old(self).spec_col_widths(),
            final(self).spec_col_descs() == old(self).spec_col_descs(),
            final(self).spec_default_col_desc() == old(self).spec_default_col_desc(),
            final(self).spec_header_row() == old(self).spec_header_row(),
            final(self).spec_footer_row() == old(self).spec_footer_row(),
            final(self).spec_measure() == old(self).spec_measure(),
            final(self).spec_late_format() == old(self).spec_late_format(),
    {
        let ghost t0 = *self;
        let events = self.events();
        let ghost header = Self::spec_text_shape(self.spec_header_row());
        let ghost shapes = self.spec_data_shapes();
        let ghost footer = Self::spec_text_shape(self.spec_footer_row());
        let inner = &self.inner;
        let rows = inner.rows();
        let row_count = rows.len();
        proof {
            assert(shapes.len() == row_count);
            lemma_table_events_within(header, shapes, footer);
        }
        let widths = inner.col_widths();
        let descs = inner.column_descs();
        let late = &self.late_format;
        let m = self.measure;
        let renderer = &mut self.renderer;
        let mut ctx = RenderContext {
            default_col_desc: &self.default_col_desc,
            col_descs: descs,
            col_widths: widths,
            row_count: rows.len(),
            row: None,
            col: None,
            line: None,
        };
        let mut out = String::new();
        let ghost mut outs: Seq<Seq<char>> = Seq::empty();
        let ghost mut states: Seq<T> = seq![*renderer];
        let ghost mut ctxs: Seq<RenderContext> = Seq::empty();
        let ghost mut cells: Seq<Option<CellContext>> = Seq::empty();
        assert(out@ =~= spec_concat(outs));
        let mut cur_row: Option<usize> = None;
        let mut cur_texts: Vec<String> = Vec::new();
        let mut i: usize = 0;
        while i < events.len()
            invariant
                i <= events@.len(),
                events@ == spec_table_events(header, shapes, footer),
                spec_all_ok(events@, header, shapes, footer),
                rows@ == inner.spec_rows(),
                widths@ == inner.spec_col_widths(),
                shapes.len() == rows@.len(),
                forall|r: int|
                    0 <= r < rows@.len() ==> (#[trigger] shapes[r]).1 == rows@[r].spec_texts().len(),
                forall|r: int|
                    0 <= r < rows@.len() ==> (#[trigger] rows@[r]).spec_texts().len() <= widths@.len(),
                header == Self::spec_text_shape(inner.spec_header_row()),
                footer == Self::spec_text_shape(inner.spec_footer_row()),
                inner.spec_header_row() matches Some(h) ==> h.spec_len() <= widths@.len(),
                inner.spec_footer_row() matches Some(f) ==> f.spec_len() <= widths@.len(),
                ctx.col_widths == widths,
                ctx.col_descs == descs,
                cur_row matches Some(r) ==> r < rows@.len() && string_views(cur_texts@) == spec_split_texts(
                    rows@[r as int].spec_texts(),
                    widths@,
                    *late,
                ),
                events@ == t0.spec_events(),
                rows@ == t0.spec_rows(),
                widths@ == t0.spec_col_widths(),
                descs@ == t0.spec_col_descs(),
                inner.spec_header_row() == t0.spec_header_row(),
                inner.spec_footer_row() == t0.spec_footer_row(),
                *ctx.default_col_desc == t0.spec_default_col_desc(),
                ctx.row_count == t0.spec_row_count(),
                m == t0.spec_measure(),
                *late == t0.spec_late_format(),
                outs.len() == i,
                ctxs.len() == i,
                cells.len() == i,
                states.len() == i + 1,
                states[0] == t0.spec_renderer(),
                states[i as int] == *renderer,
                out@ == spec_concat(outs),
                forall|k: int| 0 <= k < i ==> #[trigger] t0.spec_step_at(outs, states, ctxs, cells, k),
            decreases events@.len() - i,
        {
            let e = events[i];
            let ghost r_before = *renderer;
            let ghost mut cur_cell: Option<CellContext> = None;
            ctx.row = e.row;
            ctx.col = e.col;
            ctx.line = e.line;
            let s = match e.hook {
                Hook::Init => {
                    renderer.init(&ctx);
                    String::new()
                },
                Hook::TableStart => renderer.write_table_start(&ctx),
                Hook::TableEnd => renderer.write_table_end(&ctx),
                Hook::SectionStart => match e.part {
                    Part::Header => renderer.write_header_start(&ctx),
                    Part::Data => renderer.write_data_start(&ctx),
                    Part::Footer => renderer.write_footer_start(&ctx),
                },
                Hook::SectionEnd => match e.part {
                    Part::Header => renderer.write_header_end(&ctx),
                    Part::Data => renderer.write_data_end(&ctx),
                    Part::Footer => renderer.write_footer_end(&ctx),
                },
                Hook::RowStart => match e.part {
                    Part::Header => renderer.write_header_row_start(&ctx),
                    Part::Data => renderer.write_data_row_start(&ctx),
                    Part::Footer => renderer.write_footer_row_start(&ctx),
                },
                Hook::RowEnd => match e.part {
                    Part::Header => renderer.write_header_row_end(&ctx),
                    Part::Data => renderer.write_data_row_end(&ctx),
                    Part::Footer => renderer.write_footer_row_end(&ctx),
                },
                Hook::LineStart => match e.part {
                    Part::Header => renderer.write_header_line_start(&ctx),
                    Part::Data => renderer.write_data_line_start(&ctx),
                    Part::Footer => renderer.write_footer_line_start(&ctx),
                },
                Hook::LineEnd => match e.part {
                    Part::Header => renderer.write_header_line_end(&ctx),
                    Part::Data => renderer.write_data_line_end(&ctx),
                    Part::Footer => renderer.write_footer_line_end(&ctx),
                },
                Hook::CellStart => match e.part {
                    Part::Header => renderer.write_header_cell_start(&ctx),
                    Part::Data => renderer.write_data_cell_start(&ctx),
                    Part::Footer => renderer.write_footer_cell_start(&ctx),
                },
                Hook::CellEnd => match e.part {
                    Part::Header => renderer.write_header_cell_end(&ctx),
                    Part::Data => renderer.write_data_cell_end(&ctx),
                    Part::Footer => renderer.write_footer_cell_end(&ctx),
                },
                Hook::CellLineStart => match e.part {
                    Part::Header => renderer.write_header_cell_line_start(&ctx),
                    Part::Data => renderer.write_data_cell_line_start(&ctx),
                    Part::Footer => renderer.write_footer_cell_line_start(&ctx),
                },
                Hook::CellLineEnd => match e.part {
                    Part::Header => renderer.write_header_cell_line_end(&ctx),
                    Part::Data => renderer.write_data_cell_line_end(&ctx),
                    Part::Footer => renderer.write_footer_cell_line_end(&ctx),
                },
                Hook::CellLine => {
                    assert(spec_event_ok(events@[i as int], header, shapes, footer));
                    let col = e.col.unwrap();
                    let line = e.line.unwrap();
                    let desc = if col < descs.len() { &descs[col] } else { ctx.default_col_desc };
                    let cell_width = widths[col];
                    match e.part {
                        Part::Header => {
                            let h = inner.header_row().unwrap();
                            let text = h.line_vert_aligned(col, line, desc.vert_align);
                            let text_width = measure(text, m, cell_width, desc.horz_align);
                            let cell = CellContext { text, text_width, cell_width, desc };
                            proof {
                                assert(*desc == spec_desc_at(t0.spec_col_descs(), t0.spec_default_col_desc(), col as int));
                                assert(cell_width == spec_width_at(t0.spec_col_widths(), col as int));
                                assert(t0.spec_event_cell(e, cell));
                                cur_cell = Some(cell);
                            }
                            renderer.write_header_cell_line(&ctx, &cell)
                        },
                        Part::Footer => {
                            let f = inner.footer_row().unwrap();
                            let text = f.line_vert_aligned(col, line, desc.vert_align);
                            let text_width = measure(text, m, cell_width, desc.horz_align);
                            let cell = CellContext { text, text_width, cell_width, desc };
                            proof {
                                assert(*desc == spec_desc_at(t0.spec_col_descs(), t0.spec_default_col_desc(), col as int));
                                assert(cell_width == spec_width_at(t0.spec_col_widths(), col as int));
                                assert(t0.spec_event_cell(e, cell));
                                cur_cell = Some(cell);
                            }
                            renderer.write_footer_cell_line(&ctx, &cell)
                        },
                        Part::Data => {
                            let r = e.row.unwrap();
                            let fresh = match cur_row {
                                Some(c) => c != r,
                                None => true,
                            };
                            if fresh {
                                cur_texts = split_texts(&rows[r], widths, late);
                                cur_row = Some(r);
                            }
                            let strs = as_strs(&cur_texts);
                            let trow = TextRow::new(strs);
                            let text = trow.line_vert_aligned(col, line, desc.vert_align);
                            let text_width = measure(text, m, cell_width, desc.horz_align);
                            let cell = CellContext { text, text_width, cell_width, desc };
                            proof {
                                assert(*desc == spec_desc_at(t0.spec_col_descs(), t0.spec_default_col_desc(), col as int));
                                assert(cell_width == spec_width_at(t0.spec_col_widths(), col as int));
                                assert(t0.spec_event_cell(e, cell));
                                cur_cell = Some(cell);
                            }
                            renderer.write_data_cell_line(&ctx, &cell)
                        },
                    }
                },
            };
            proof {
                assert(r_before.spec_writes(e.hook, spec_hook_part(e), ctx, cur_cell, s@, *renderer));
                let ghost outs0 = outs;
                let ghost states0 = states;
                let ghost ctxs0 = ctxs;
                let ghost cells0 = cells;
                outs = outs.push(s@);
                states = states.push(*renderer);
                ctxs = ctxs.push(ctx);
                cells = cells.push(cur_cell);
                assert(t0.spec_events()[i as int] == e);
                assert(t0.spec_event_ctx(e, ctx));
                assert(e.hook == Hook::CellLine ==> (cur_cell matches Some(c) && t0.spec_event_cell(e, c)));
                assert(e.hook != Hook::CellLine ==> cur_cell is None);
                assert(t0.spec_step_at(outs, states, ctxs, cells, i as int));
                assert forall|k: int| 0 <= k < i + 1 implies #[trigger] t0.spec_step_at(outs, states, ctxs, cells, k) by {
                    if k < i {
                        assert(t0.spec_step_at(outs0, states0, ctxs0, cells0, k));
                        assert(outs[k] == outs0[k]);
                        assert(states[k] == states0[k]);
                        assert(states[k + 1] == states0[k + 1]);
                        assert(ctxs[k] == ctxs0[k]);
                        assert(cells[k] == cells0[k]);
                    }
                }
                assert(outs.drop_last() =~= outs0);
            }
            out.append(s.as_str());
            i = i + 1;
        }
        proof {
            assert(t0.spec_trace(outs, states, ctxs, cells));
        }
        out
    }

    /// Returns a builder over the source rows and renderer.
    pub fn new_builder(source: Vec<R>, renderer: T) -> (b: TableBuilder<'a, R, T>)
        ensures
            b.spec_rows() == source@,
            b.spec_col_select().len() == 0,
            b.spec_row_select() == (0usize, None::<usize>),
            b.spec_col_descs().len() == 0,
            b.spec_default_col_desc().spec_is_default(),
            b.spec_col_order().len() == 0,
            b.spec_single_line_cells() == renderer.spec_single_line_cells(),
            b.spec_renderer() == renderer,
    {
        TableBuilder::new(source, renderer)
    }
}

} // verus!
