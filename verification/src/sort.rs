//! Row ordering: column orderings, comparing formatted rows, and a stable
//! sort of rows.

use vstd::prelude::*;

use crate::format::CellValue;
use crate::row::{spec_cell_order, spec_text_order, text_order, Cell, Order, Row};
use crate::split::FormatRow;

verus! {

/// Column ordering flags.
#[derive(Debug, Clone, Copy, PartialEq, Eq, Hash, Structural)]
pub struct ColumnOrdFlags(pub u8);

impl ColumnOrdFlags {
    /// Indicates that the column should be sorted in reverse order.
    pub const REVERSE: u8 = 1;
    /// Indicates that the ordering should be done on the formatted text rather
    /// than the cell values.
    pub const FORMATTED: u8 = 2;
    /// Indicates that empty cells in the column should sort before other
    /// values.
    pub const NONE_LESS: u8 = 4;

    /// No flag.
    pub fn empty() -> (f: ColumnOrdFlags)
        ensures
            f == ColumnOrdFlags(0),
    {
        ColumnOrdFlags(0)
    }

    /// Whether every bit of `bits` is set.
    pub open spec fn spec_has(self, bits: u8) -> bool {
        self.0 & bits == bits
    }

    /// Returns `true` if every bit of `bits` is set.
    pub fn contains(&self, bits: u8) -> (b: bool)
        ensures
            b == self.spec_has(bits),
    {
        self.0 & bits == bits
    }
}

impl Default for ColumnOrdFlags {
    /// No flag.
    fn default() -> (f: ColumnOrdFlags)
        ensures
            f == ColumnOrdFlags(0),
    {
        ColumnOrdFlags::empty()
    }
}

/// A column ordering: the column to order by and how.
#[derive(Debug, Clone, Copy, PartialEq, Eq, Hash, Structural)]
pub struct ColumnOrd {
    /// The column index.
    pub idx: usize,
    /// The column ordering flags.
    pub flags: ColumnOrdFlags,
}

impl ColumnOrd {
    /// Whether the order is reversed.
    pub open spec fn spec_reversed(self) -> bool {
        self.flags.spec_has(1)
    }

    /// Whether the formatted text is compared rather than the cell values.
    pub open spec fn spec_formatted(self) -> bool {
        self.flags.spec_has(2)
    }

    /// Whether absent cells order before present ones.
    pub open spec fn spec_none_less(self) -> bool {
        self.flags.spec_has(4)
    }

    /// Constructs a new `ColumnOrd` ordering on the given column index, with no
    /// flag set.
    pub fn new(idx: usize) -> (o: ColumnOrd)
        ensures
            o == (ColumnOrd { idx, flags: ColumnOrdFlags(0) }),
    {
        ColumnOrd { idx, flags: ColumnOrdFlags::empty() }
    }

    /// Toggles the sort order and returns the `ColumnOrd`.
    pub fn with_reversed_order(self) -> (o: ColumnOrd)
        ensures
            o == (ColumnOrd { flags: ColumnOrdFlags(self.flags.0 ^ 1u8), ..self }),
            o.spec_reversed() == !self.spec_reversed(),
            o.spec_formatted() == self.spec_formatted(),
            o.spec_none_less() == self.spec_none_less(),
    {
        let f = self.flags.0;
        assert((f ^ 1u8) & 1u8 == 1u8 <==> !(f & 1u8 == 1u8)) by (bit_vector);
        assert((f ^ 1u8) & 2u8 == 2u8 <==> f & 2u8 == 2u8) by (bit_vector);
        assert((f ^ 1u8) & 4u8 == 4u8 <==> f & 4u8 == 4u8) by (bit_vector);
        ColumnOrd { flags: ColumnOrdFlags(f ^ 1u8), ..self }
    }

    /// Sets the flag to order by the formatted column text and returns the
    /// `ColumnOrd`.
    pub fn with_formatted_order(self) -> (o: ColumnOrd)
        ensures
            o == (ColumnOrd { flags: ColumnOrdFlags(self.flags.0 | 2u8), ..self }),
            o.spec_reversed() == self.spec_reversed(),
            o.spec_formatted(),
            o.spec_none_less() == self.spec_none_less(),
    {
        let f = self.flags.0;
        assert((f | 2u8) & 1u8 == 1u8 <==> f & 1u8 == 1u8) by (bit_vector);
        assert((f | 2u8) & 2u8 == 2u8) by (bit_vector);
        assert((f | 2u8) & 4u8 == 4u8 <==> f & 4u8 == 4u8) by (bit_vector);
        ColumnOrd { flags: ColumnOrdFlags(f | 2u8), ..self }
    }

    /// Sets the flag to order absent cells before all other values and returns
    /// the `ColumnOrd`.
    pub fn with_none_lt_order(self) -> (o: ColumnOrd)
        ensures
            o == (ColumnOrd { flags: ColumnOrdFlags(self.flags.0 | 4u8), ..self }),
            o.spec_reversed() == self.spec_reversed(),
            o.spec_formatted() == self.spec_formatted(),
            o.spec_none_less(),
    {
        let f = self.flags.0;
        assert((f | 4u8) & 1u8 == 1u8 <==> f & 1u8 == 1u8) by (bit_vector);
        assert((f | 4u8) & 2u8 == 2u8 <==> f & 2u8 == 2u8) by (bit_vector);
        assert((f | 4u8) & 4u8 == 4u8) by (bit_vector);
        ColumnOrd { flags: ColumnOrdFlags(f | 4u8), ..self }
    }
}

/// The cell at `idx`, or `None` past the end.
pub open spec fn spec_cell_at(cells: Seq<Option<CellValue>>, idx: int) -> Option<CellValue> {
    if 0 <= idx < cells.len() {
        cells[idx]
    } else {
        None
    }
}

/// How two rows, given by their formatted texts and their cells, order by one
/// column ordering: by text, or by value with absent cells after present ones
/// (before, with the none-less flag) and values that do not compare equal;
/// then reversed with the reverse flag.
pub open spec fn spec_column_order(
    ord: ColumnOrd,
    a_texts: Seq<Seq<char>>,
    a_cells: Seq<Option<CellValue>>,
    b_texts: Seq<Seq<char>>,
    b_cells: Seq<Option<CellValue>>,
) -> Order {
    let nl = if ord.spec_none_less() { Order::Less } else { Order::Greater };
    let res = if ord.spec_formatted() {
        spec_text_order(a_texts[ord.idx as int], b_texts[ord.idx as int])
    } else {
        match (spec_cell_at(a_cells, ord.idx as int), spec_cell_at(b_cells, ord.idx as int)) {
            (None, Some(_)) => nl,
            (Some(_), None) => nl.spec_reverse(),
            (Some(x), Some(y)) => match spec_cell_order(x, y) {
                Some(o) => o,
                None => Order::Equal,
            },
            (None, None) => Order::Equal,
        }
    };
    if ord.spec_reversed() {
        res.spec_reverse()
    } else {
        res
    }
}

/// How two rows order by a list of column orderings: by the first ordering
/// under which they differ, equal if none.
pub open spec fn spec_rows_order(
    ords: Seq<ColumnOrd>,
    a_texts: Seq<Seq<char>>,
    a_cells: Seq<Option<CellValue>>,
    b_texts: Seq<Seq<char>>,
    b_cells: Seq<Option<CellValue>>,
) -> Order
    decreases ords.len(),
{
    if ords.len() == 0 {
        Order::Equal
    } else {
        let r = spec_column_order(ords[0], a_texts, a_cells, b_texts, b_cells);
        if r != Order::Equal {
            r
        } else {
            spec_rows_order(ords.drop_first(), a_texts, a_cells, b_texts, b_cells)
        }
    }
}

/// Whether comparing two rows reads only texts that exist: every ordering on
/// formatted text that the comparison reaches names a column of both rows.
pub open spec fn spec_rows_comparable(
    ords: Seq<ColumnOrd>,
    a_texts: Seq<Seq<char>>,
    a_cells: Seq<Option<CellValue>>,
    b_texts: Seq<Seq<char>>,
    b_cells: Seq<Option<CellValue>>,
) -> bool
    decreases ords.len(),
{
    if ords.len() == 0 {
        true
    } else {
        (ords[0].spec_formatted() ==> ords[0].idx < a_texts.len() && ords[0].idx < b_texts.len()) && (
        spec_column_order(ords[0], a_texts, a_cells, b_texts, b_cells) == Order::Equal
            ==> spec_rows_comparable(ords.drop_first(), a_texts, a_cells, b_texts, b_cells))
    }
}

/// Two rows can be compared when each of them has every column that an
/// ordering on formatted text names.
pub proof fn lemma_comparable_when_columns_exist(
    ords: Seq<ColumnOrd>,
    a_texts: Seq<Seq<char>>,
    a_cells: Seq<Option<CellValue>>,
    b_texts: Seq<Seq<char>>,
    b_cells: Seq<Option<CellValue>>,
)
    requires
        forall|k: int|
            0 <= k < ords.len() && (#[trigger] ords[k]).spec_formatted() ==> ords[k].idx < a_texts.len()
                && ords[k].idx < b_texts.len(),
    ensures
        spec_rows_comparable(ords, a_texts, a_cells, b_texts, b_cells),
    decreases ords.len(),
{
    if ords.len() > 0 {
        assert forall|k: int|
            0 <= k < ords.drop_first().len() && (#[trigger] ords.drop_first()[k]).spec_formatted() implies ords.drop_first()[k].idx
                < a_texts.len() && ords.drop_first()[k].idx < b_texts.len() by {
            assert(ords.drop_first()[k] == ords[k + 1]);
        }
        lemma_comparable_when_columns_exist(ords.drop_first(), a_texts, a_cells, b_texts, b_cells);
        assert(ords[0].spec_formatted() ==> ords[0].idx < a_texts.len() && ords[0].idx < b_texts.len());
    }
}

/// How two formatted rows order by a list of column orderings.
pub open spec fn spec_compare<'a, R: Row>(a: FormatRow<'a, R>, b: FormatRow<'a, R>, ords: Seq<ColumnOrd>) -> Order {
    spec_rows_order(ords, a.spec_texts(), a.spec_row_cells(), b.spec_texts(), b.spec_row_cells())
}

/// Whether comparing two formatted rows reads only texts that exist.
pub open spec fn spec_comparable<'a, R: Row>(
    a: FormatRow<'a, R>,
    b: FormatRow<'a, R>,
    ords: Seq<ColumnOrd>,
) -> bool {
    spec_rows_comparable(ords, a.spec_texts(), a.spec_row_cells(), b.spec_texts(), b.spec_row_cells())
}

/// Compares two rows by one column ordering.
fn compare_column<'a, R: Row>(row_a: &FormatRow<'a, R>, row_b: &FormatRow<'a, R>, ord: ColumnOrd) -> (c: Order)
    requires
        ord.spec_formatted() ==> ord.idx < row_a.spec_texts().len() && ord.idx < row_b.spec_texts().len(),
    ensures
        c == spec_column_order(
            ord,
            row_a.spec_texts(),
            row_a.spec_row_cells(),
            row_b.spec_texts(),
            row_b.spec_row_cells(),
        ),
{
    let text = ord.flags.contains(ColumnOrdFlags::FORMATTED);
    let rev = ord.flags.contains(ColumnOrdFlags::REVERSE);
    let nl = if ord.flags.contains(ColumnOrdFlags::NONE_LESS) { Order::Less } else { Order::Greater };
    let res = if text {
        text_order(row_a.text(ord.idx), row_b.text(ord.idx))
    } else {
        match (row_a.cell(ord.idx), row_b.cell(ord.idx)) {
            (None, Some(_)) => nl,
            (Some(_), None) => nl.reverse(),
            (Some(x), Some(y)) => match x.dyn_partial_cmp(y) {
                Some(o) => o,
                None => Order::Equal,
            },
            (None, None) => Order::Equal,
        }
    };
    if rev {
        res.reverse()
    } else {
        res
    }
}

/// Compares two formatted rows according to the column orderings, in order
/// of priority.
pub fn compare_rows<'a, R: Row>(row_a: &FormatRow<'a, R>, row_b: &FormatRow<'a, R>, col_ord: &[ColumnOrd]) -> (c:
    Order)
    requires
        spec_comparable(*row_a, *row_b, col_ord@),
    ensures
        c == spec_compare(*row_a, *row_b, col_ord@),
{
    let ghost at = row_a.spec_texts();
    let ghost ac = row_a.spec_row_cells();
    let ghost bt = row_b.spec_texts();
    let ghost bc = row_b.spec_row_cells();
    let mut i: usize = 0;
    assert(col_ord@.skip(0) =~= col_ord@);
    while i < col_ord.len()
        invariant
            i <= col_ord@.len(),
            spec_rows_order(col_ord@, at, ac, bt, bc) == spec_rows_order(col_ord@.skip(i as int), at, ac, bt, bc),
            spec_rows_comparable(col_ord@.skip(i as int), at, ac, bt, bc),
            at == row_a.spec_texts(),
            ac == row_a.spec_row_cells(),
            bt == row_b.spec_texts(),
            bc == row_b.spec_row_cells(),
        decreases col_ord@.len() - i,
    {
        let ghost rest = col_ord@.skip(i as int);
        assert(rest[0] == col_ord@[i as int]);
        assert(rest.drop_first() =~= col_ord@.skip(i + 1));
        let res = compare_column(row_a, row_b, col_ord[i]);
        if res != Order::Equal {
            return res;
        }
        i = i + 1;
    }
    Order::Equal
}

/// Comparing texts the other way round gives the opposite order.
pub proof fn lemma_text_order_antisymmetric(a: Seq<char>, b: Seq<char>)
    ensures
        spec_text_order(b, a) == spec_text_order(a, b).spec_reverse(),
    decreases a.len(),
{
    if a.len() > 0 && b.len() > 0 && (a[0] as u32) == (b[0] as u32) {
        lemma_text_order_antisymmetric(a.drop_first(), b.drop_first());
    }
}

/// A text orders equal to itself.
pub proof fn lemma_text_order_reflexive(a: Seq<char>)
    ensures
        spec_text_order(a, a) == Order::Equal,
    decreases a.len(),
{
    if a.len() > 0 {
        lemma_text_order_reflexive(a.drop_first());
    }
}

/// Comparing by one column ordering the other way round gives the opposite
/// order.
pub proof fn lemma_column_order_antisymmetric(
    ord: ColumnOrd,
    a_texts: Seq<Seq<char>>,
    a_cells: Seq<Option<CellValue>>,
    b_texts: Seq<Seq<char>>,
    b_cells: Seq<Option<CellValue>>,
)
    ensures
        spec_column_order(ord, b_texts, b_cells, a_texts, a_cells) == spec_column_order(
            ord,
            a_texts,
            a_cells,
            b_texts,
            b_cells,
        ).spec_reverse(),
{
    if ord.spec_formatted() {
        lemma_text_order_antisymmetric(a_texts[ord.idx as int], b_texts[ord.idx as int]);
    } else {
        match (spec_cell_at(a_cells, ord.idx as int), spec_cell_at(b_cells, ord.idx as int)) {
            (Some(CellValue::Text(x)), Some(CellValue::Text(y))) => {
                lemma_text_order_antisymmetric(x@, y@);
            },
            _ => {},
        }
    }
}

/// A row orders equal to itself by one column ordering.
pub proof fn lemma_column_order_reflexive(ord: ColumnOrd, texts: Seq<Seq<char>>, cells: Seq<Option<CellValue>>)
    ensures
        spec_column_order(ord, texts, cells, texts, cells) == Order::Equal,
{
    if ord.spec_formatted() {
        lemma_text_order_reflexive(texts[ord.idx as int]);
    } else {
        match spec_cell_at(cells, ord.idx as int) {
            Some(CellValue::Text(x)) => {
                lemma_text_order_reflexive(x@);
            },
            _ => {},
        }
    }
}

/// Comparing rows the other way round gives the opposite order.
pub proof fn lemma_rows_order_antisymmetric(
    ords: Seq<ColumnOrd>,
    a_texts: Seq<Seq<char>>,
    a_cells: Seq<Option<CellValue>>,
    b_texts: Seq<Seq<char>>,
    b_cells: Seq<Option<CellValue>>,
)
    ensures
        spec_rows_order(ords, b_texts, b_cells, a_texts, a_cells) == spec_rows_order(
            ords,
            a_texts,
            a_cells,
            b_texts,
            b_cells,
        ).spec_reverse(),
    decreases ords.len(),
{
    if ords.len() > 0 {
        lemma_column_order_antisymmetric(ords[0], a_texts, a_cells, b_texts, b_cells);
        lemma_rows_order_antisymmetric(ords.drop_first(), a_texts, a_cells, b_texts, b_cells);
    }
}

/// A row orders equal to itself.
pub proof fn lemma_rows_order_reflexive(ords: Seq<ColumnOrd>, texts: Seq<Seq<char>>, cells: Seq<Option<CellValue>>)
    ensures
        spec_rows_order(ords, texts, cells, texts, cells) == Order::Equal,
    decreases ords.len(),
{
    if ords.len() > 0 {
        lemma_column_order_reflexive(ords[0], texts, cells);
        lemma_rows_order_reflexive(ords.drop_first(), texts, cells);
    }
}

/// Comparing two formatted rows is antisymmetric: swapping them reverses the
/// result, and a row compares equal to itself.
pub proof fn lemma_compare_antisymmetric<'a, R: Row>(a: FormatRow<'a, R>, b: FormatRow<'a, R>, ords: Seq<ColumnOrd>)
    ensures
        spec_compare(b, a, ords) == spec_compare(a, b, ords).spec_reverse(),
        spec_compare(a, a, ords) == Order::Equal,
{
    lemma_rows_order_antisymmetric(ords, a.spec_texts(), a.spec_row_cells(), b.spec_texts(), b.spec_row_cells());
    lemma_rows_order_reflexive(ords, a.spec_texts(), a.spec_row_cells());
}

/// Whether two neighbouring rows, from original positions `pa` and `pb`, are
/// in stable order: the first does not order after the second, and if they
/// order equal, the first came first.
pub open spec fn spec_adjacent_ok<'a, R: Row>(
    a: FormatRow<'a, R>,
    b: FormatRow<'a, R>,
    pa: int,
    pb: int,
    ords: Seq<ColumnOrd>,
) -> bool {
    let c = spec_compare(a, b, ords);
    c != Order::Greater && (c == Order::Equal ==> pa < pb)
}

/// Whether `res` arranges `rows` by the permutation `p` (`res[k]` is
/// `rows[p[k]]`), in order: no row orders after the next, and rows that
/// order equal keep their original relative order.
pub open spec fn spec_stable_arrangement<'a, R: Row>(
    rows: Seq<FormatRow<'a, R>>,
    res: Seq<FormatRow<'a, R>>,
    p: Seq<int>,
    ords: Seq<ColumnOrd>,
) -> bool {
    &&& p.len() == rows.len()
    &&& res.len() == rows.len()
    &&& forall|k: int| 0 <= k < p.len() ==> 0 <= #[trigger] p[k] < rows.len()
    &&& forall|k: int, m: int| 0 <= k < m < p.len() ==> #[trigger] p[k] != #[trigger] p[m]
    &&& forall|k: int| 0 <= k < res.len() ==> #[trigger] res[k] == rows[p[k]]
    &&& forall|k: int, m: int|
        #![trigger res[k], res[m]]
        0 <= k && m == k + 1 && m < res.len() ==> spec_adjacent_ok(res[k], res[m], p[k], p[m], ords)
}

/// Whether "orders no later than" is transitive among `rows` under `ords`:
/// a row that orders no later than a second, which orders no later than a
/// third, orders no later than the third.
pub open spec fn spec_order_transitive<'a, R: Row>(rows: Seq<FormatRow<'a, R>>, ords: Seq<ColumnOrd>) -> bool {
    forall|a: int, b: int, c: int|
        #![trigger spec_compare(rows[a], rows[b], ords), spec_compare(rows[b], rows[c], ords)]
        0 <= a < rows.len() && 0 <= b < rows.len() && 0 <= c < rows.len() && spec_compare(rows[a], rows[b], ords)
            != Order::Greater && spec_compare(rows[b], rows[c], ords) != Order::Greater ==> spec_compare(
            rows[a],
            rows[c],
            ords,
        ) != Order::Greater
}

/// Whether three orders, of `a` against `b`, `b` against `c` and `a` against
/// `c`, chain as a total preorder does: an equal step leaves the other step's
/// order, and two steps the same way order the ends that way.
pub open spec fn spec_chains(x: Order, y: Order, z: Order) -> bool {
    &&& x == Order::Equal ==> z == y
    &&& y == Order::Equal ==> z == x
    &&& x == y ==> z == x
}

/// Text order chains.
pub proof fn lemma_text_order_chains(a: Seq<char>, b: Seq<char>, c: Seq<char>)
    ensures
        spec_chains(spec_text_order(a, b), spec_text_order(b, c), spec_text_order(a, c)),
    decreases a.len(),
{
    if a.len() > 0 && b.len() > 0 && c.len() > 0 && (a[0] as u32) == (b[0] as u32) && (b[0] as u32)
        == (c[0] as u32) {
        lemma_text_order_chains(a.drop_first(), b.drop_first(), c.drop_first());
    } else if a.len() > 0 && b.len() > 0 && (a[0] as u32) == (b[0] as u32) {
        if c.len() > 0 {
            lemma_text_order_reflexive(a.drop_first());
        }
    } else if b.len() > 0 && c.len() > 0 && (b[0] as u32) == (c[0] as u32) {
        if a.len() > 0 {
            lemma_text_order_reflexive(b.drop_first());
        }
    }
}

/// Whether the present cells of column `idx` in `a` and `b` are values of
/// one kind, which compare with each other.
pub open spec fn spec_cells_agree(a: Seq<Option<CellValue>>, b: Seq<Option<CellValue>>, idx: int) -> bool {
    match (spec_cell_at(a, idx), spec_cell_at(b, idx)) {
        (Some(x), Some(y)) => spec_cell_order(x, y) is Some,
        _ => true,
    }
}

/// Cell order chains for values of one kind.
proof fn lemma_cell_order_chains(x: CellValue, y: CellValue, z: CellValue)
    requires
        spec_cell_order(x, y) is Some,
        spec_cell_order(y, z) is Some,
    ensures
        spec_cell_order(x, z) is Some,
        spec_chains(
            spec_cell_order(x, y).unwrap(),
            spec_cell_order(y, z).unwrap(),
            spec_cell_order(x, z).unwrap(),
        ),
{
    match (x, y, z) {
        (CellValue::Text(p), CellValue::Text(q), CellValue::Text(r)) => {
            lemma_text_order_chains(p@, q@, r@);
        },
        _ => {},
    }
}

/// Ordering by one column chains, where the column's present cells are of
/// one kind.
proof fn lemma_column_order_chains(
    ord: ColumnOrd,
    a_texts: Seq<Seq<char>>,
    a_cells: Seq<Option<CellValue>>,
    b_texts: Seq<Seq<char>>,
    b_cells: Seq<Option<CellValue>>,
    c_texts: Seq<Seq<char>>,
    c_cells: Seq<Option<CellValue>>,
)
    requires
        !ord.spec_formatted() ==> spec_cells_agree(a_cells, b_cells, ord.idx as int) && spec_cells_agree(
            b_cells,
            c_cells,
            ord.idx as int,
        ),
    ensures
        spec_chains(
            spec_column_order(ord, a_texts, a_cells, b_texts, b_cells),
            spec_column_order(ord, b_texts, b_cells, c_texts, c_cells),
            spec_column_order(ord, a_texts, a_cells, c_texts, c_cells),
        ),
{
    let i = ord.idx as int;
    if ord.spec_formatted() {
        lemma_text_order_chains(a_texts[i], b_texts[i], c_texts[i]);
    } else {
        match (spec_cell_at(a_cells, i), spec_cell_at(b_cells, i), spec_cell_at(c_cells, i)) {
            (Some(x), Some(y), Some(z)) => {
                lemma_cell_order_chains(x, y, z);
            },
            _ => {},
        }
    }
}

/// Ordering rows by a list of column orderings chains, where the columns
/// ordered by value hold cells of one kind.
proof fn lemma_rows_order_chains(
    ords: Seq<ColumnOrd>,
    a_texts: Seq<Seq<char>>,
    a_cells: Seq<Option<CellValue>>,
    b_texts: Seq<Seq<char>>,
    b_cells: Seq<Option<CellValue>>,
    c_texts: Seq<Seq<char>>,
    c_cells: Seq<Option<CellValue>>,
)
    requires
        forall|k: int|
            0 <= k < ords.len() && !(#[trigger] ords[k]).spec_formatted() ==> spec_cells_agree(
                a_cells,
                b_cells,
                ords[k].idx as int,
            ) && spec_cells_agree(b_cells, c_cells, ords[k].idx as int),
    ensures
        spec_chains(
            spec_rows_order(ords, a_texts, a_cells, b_texts, b_cells),
            spec_rows_order(ords, b_texts, b_cells, c_texts, c_cells),
            spec_rows_order(ords, a_texts, a_cells, c_texts, c_cells),
        ),
    decreases ords.len(),
{
    if ords.len() > 0 {
        lemma_column_order_chains(ords[0], a_texts, a_cells, b_texts, b_cells, c_texts, c_cells);
        assert forall|k: int|
            0 <= k < ords.drop_first().len() && !(#[trigger] ords.drop_first()[k]).spec_formatted() implies spec_cells_agree(
            a_cells,
            b_cells,
            ords.drop_first()[k].idx as int,
        ) && spec_cells_agree(b_cells, c_cells, ords.drop_first()[k].idx as int) by {
            assert(ords.drop_first()[k] == ords[k + 1]);
        }
        lemma_rows_order_chains(ords.drop_first(), a_texts, a_cells, b_texts, b_cells, c_texts, c_cells);
    }
}

/// Whether every column that `ords` orders by value holds, among `rows`,
/// present cells of one kind only.
pub open spec fn spec_kinds_agree<'a, R: Row>(rows: Seq<FormatRow<'a, R>>, ords: Seq<ColumnOrd>) -> bool {
    forall|a: int, b: int, k: int|
        #![trigger rows[a], rows[b], ords[k]]
        0 <= a < rows.len() && 0 <= b < rows.len() && 0 <= k < ords.len() && !ords[k].spec_formatted()
            ==> spec_cells_agree(rows[a].spec_row_cells(), rows[b].spec_row_cells(), ords[k].idx as int)
}

/// Ordering is transitive among rows whose columns ordered by value each
/// hold cells of one kind (texts with texts, integers with integers, and so
/// on); absent cells and orderings on formatted text never break it.
pub proof fn lemma_kinds_agree_transitive<'a, R: Row>(rows: Seq<FormatRow<'a, R>>, ords: Seq<ColumnOrd>)
    requires
        spec_kinds_agree(rows, ords),
    ensures
        spec_order_transitive(rows, ords),
{
    assert forall|a: int, b: int, c: int|
        #![trigger spec_compare(rows[a], rows[b], ords), spec_compare(rows[b], rows[c], ords)]
        0 <= a < rows.len() && 0 <= b < rows.len() && 0 <= c < rows.len() && spec_compare(rows[a], rows[b], ords)
            != Order::Greater && spec_compare(rows[b], rows[c], ords) != Order::Greater implies spec_compare(
        rows[a],
        rows[c],
        ords,
    ) != Order::Greater by {
        let (ra, rb, rc) = (rows[a], rows[b], rows[c]);
        assert forall|k: int| 0 <= k < ords.len() && !(#[trigger] ords[k]).spec_formatted() implies spec_cells_agree(
            ra.spec_row_cells(),
            rb.spec_row_cells(),
            ords[k].idx as int,
        ) && spec_cells_agree(rb.spec_row_cells(), rc.spec_row_cells(), ords[k].idx as int) by {
            assert(spec_cells_agree(rows[a].spec_row_cells(), rows[b].spec_row_cells(), ords[k].idx as int));
            assert(spec_cells_agree(rows[b].spec_row_cells(), rows[c].spec_row_cells(), ords[k].idx as int));
        }
        lemma_rows_order_chains(
            ords,
            ra.spec_texts(),
            ra.spec_row_cells(),
            rb.spec_texts(),
            rb.spec_row_cells(),
            rc.spec_texts(),
            rc.spec_row_cells(),
        );
    }
}

/// A stable sort orders every pair of rows whose columns ordered by value
/// each hold cells of one kind: no row orders after a later one, and rows
/// that order equal keep their original relative order.
pub proof fn lemma_sorted_all_pairs_of_one_kind<'a, R: Row>(
    rows: Seq<FormatRow<'a, R>>,
    res: Seq<FormatRow<'a, R>>,
    p: Seq<int>,
    ords: Seq<ColumnOrd>,
)
    requires
        spec_stable_arrangement(rows, res, p, ords),
        spec_kinds_agree(rows, ords),
    ensures
        forall|i: int, j: int|
            #![trigger res[i], res[j]]
            0 <= i < j < res.len() ==> spec_compare(res[i], res[j], ords) != Order::Greater && (spec_compare(
                res[i],
                res[j],
                ords,
            ) == Order::Equal ==> p[i] < p[j]),
{
    lemma_kinds_agree_transitive(rows, ords);
    lemma_sorted_all_pairs(rows, res, p, ords);
}

/// Every pair of sorted positions up to `j`, from `i`, is in stable order.
proof fn lemma_sorted_pairs_from<'a, R: Row>(
    rows: Seq<FormatRow<'a, R>>,
    res: Seq<FormatRow<'a, R>>,
    p: Seq<int>,
    ords: Seq<ColumnOrd>,
    i: int,
    j: int,
)
    requires
        spec_stable_arrangement(rows, res, p, ords),
        spec_order_transitive(rows, ords),
        0 <= i < j < res.len(),
    ensures
        spec_adjacent_ok(res[i], res[j], p[i], p[j], ords),
    decreases j - i,
{
    let m = j - 1;
    assert(res[m] == rows[p[m]] && res[j] == rows[p[j]] && res[i] == rows[p[i]]);
    assert(spec_adjacent_ok(res[m], res[j], p[m], p[j], ords));
    if m > i {
        lemma_sorted_pairs_from(rows, res, p, ords, i, m);
        let (ri, rm, rj) = (res[i], res[m], res[j]);
        let (pi, pm, pj) = (p[i], p[m], p[j]);
        assert(spec_compare(rows[pi], rows[pm], ords) != Order::Greater);
        assert(spec_compare(rows[pm], rows[pj], ords) != Order::Greater);
        assert(spec_compare(ri, rj, ords) != Order::Greater);
        if spec_compare(ri, rj, ords) == Order::Equal {
            lemma_compare_antisymmetric(ri, rj, ords);
            lemma_compare_antisymmetric(rm, rj, ords);
            lemma_compare_antisymmetric(ri, rm, ords);
            assert(spec_compare(rows[pj], rows[pi], ords) != Order::Greater);
            assert(spec_compare(rows[pj], rows[pm], ords) != Order::Greater);
            assert(spec_compare(rm, rj, ords) == Order::Equal);
            assert(spec_compare(rows[pm], rows[pi], ords) != Order::Greater);
            assert(spec_compare(ri, rm, ords) == Order::Equal);
        }
    }
}

/// A stable sort orders every pair of rows, not only neighbours, wherever
/// ordering is transitive among the rows: no row orders after a later one,
/// and rows that order equal keep their original relative order.
pub proof fn lemma_sorted_all_pairs<'a, R: Row>(
    rows: Seq<FormatRow<'a, R>>,
    res: Seq<FormatRow<'a, R>>,
    p: Seq<int>,
    ords: Seq<ColumnOrd>,
)
    requires
        spec_stable_arrangement(rows, res, p, ords),
        spec_order_transitive(rows, ords),
    ensures
        forall|i: int, j: int|
            #![trigger res[i], res[j]]
            0 <= i < j < res.len() ==> spec_compare(res[i], res[j], ords) != Order::Greater && (spec_compare(
                res[i],
                res[j],
                ords,
            ) == Order::Equal ==> p[i] < p[j]),
{
    assert forall|i: int, j: int| #![trigger res[i], res[j]] 0 <= i < j < res.len() implies spec_compare(
        res[i],
        res[j],
        ords,
    ) != Order::Greater && (spec_compare(res[i], res[j], ords) == Order::Equal ==> p[i] < p[j]) by {
        lemma_sorted_pairs_from(rows, res, p, ords, i, j);
    }
}

/// Whether `res` holds the first `j` of `rows`, arranged by `p` in stable
/// order.
pub open spec fn spec_partial_arrangement<'a, R: Row>(
    rows: Seq<FormatRow<'a, R>>,
    res: Seq<FormatRow<'a, R>>,
    p: Seq<int>,
    j: int,
    ords: Seq<ColumnOrd>,
) -> bool {
    &&& p.len() == j
    &&& res.len() == j
    &&& forall|k: int| 0 <= k < p.len() ==> 0 <= #[trigger] p[k] < j
    &&& forall|k: int, m: int| 0 <= k < m < p.len() ==> #[trigger] p[k] != #[trigger] p[m]
    &&& forall|k: int| 0 <= k < res.len() ==> #[trigger] res[k] == rows[p[k]]
    &&& forall|k: int, m: int|
        #![trigger res[k], res[m]]
        0 <= k && m == k + 1 && m < res.len() ==> spec_adjacent_ok(res[k], res[m], p[k], p[m], ords)
}

/// Inserting the next row after the last row that does not order after it,
/// and before rows that order after it, keeps the arrangement stable.
proof fn lemma_insert_keeps_arrangement<'a, R: Row>(
    rows: Seq<FormatRow<'a, R>>,
    res: Seq<FormatRow<'a, R>>,
    p: Seq<int>,
    j: int,
    k: int,
    ords: Seq<ColumnOrd>,
)
    requires
        spec_partial_arrangement(rows, res, p, j, ords),
        0 <= j < rows.len(),
        0 <= k <= res.len(),
        forall|m: int| k <= m < res.len() ==> spec_compare(#[trigger] res[m], rows[j], ords) == Order::Greater,
        k > 0 ==> spec_compare(res[k - 1], rows[j], ords) != Order::Greater,
    ensures
        spec_partial_arrangement(rows, res.insert(k, rows[j]), p.insert(k, j), j + 1, ords),
{
    let row = rows[j];
    let nres = res.insert(k, row);
    let np = p.insert(k, j);
    assert forall|m: int| 0 <= m < nres.len() implies #[trigger] nres[m] == rows[np[m]] by {
        if m < k {
            assert(nres[m] == res[m]);
        } else if m > k {
            assert(nres[m] == res[m - 1]);
        }
    }
    assert forall|a: int, b: int| 0 <= a < b < np.len() implies #[trigger] np[a] != #[trigger] np[b] by {
        if a < k && b < k {
        } else if a < k && b == k {
            assert(p[a] < j);
        } else if a < k && b > k {
            assert(np[b] == p[b - 1]);
        } else if a == k {
            assert(np[b] == p[b - 1]);
            assert(p[b - 1] < j);
        } else {
            assert(np[a] == p[a - 1]);
            assert(np[b] == p[b - 1]);
        }
    }
    assert forall|m: int| 0 <= m < np.len() implies 0 <= #[trigger] np[m] < j + 1 by {
        if m < k {
            assert(np[m] == p[m]);
        } else if m > k {
            assert(np[m] == p[m - 1]);
        }
    }
    assert forall|a: int, b: int|
        #![trigger nres[a], nres[b]]
        0 <= a && b == a + 1 && b < nres.len() implies spec_adjacent_ok(nres[a], nres[b], np[a], np[b], ords) by {
        if b < k {
            assert(nres[a] == res[a] && nres[b] == res[b]);
            assert(np[a] == p[a] && np[b] == p[b]);
            assert(res[a] == res[a] && res[b] == res[b]);
        } else if b == k {
            assert(nres[a] == res[a]);
            assert(np[a] == p[a]);
            assert(p[a] < j);
        } else if a == k {
            assert(nres[b] == res[k]);
            assert(np[b] == p[k]);
            assert(spec_compare(res[k], row, ords) == Order::Greater);
            lemma_compare_antisymmetric(res[k], row, ords);
        } else {
            assert(nres[a] == res[a - 1] && nres[b] == res[a]);
            assert(np[a] == p[a - 1] && np[b] == p[a]);
            assert(res[a - 1] == res[a - 1] && res[a] == res[a]);
        }
    }
}

/// Sorts rows by the column orderings, stably: rows that compare equal keep
/// their relative order. Any two distinct rows must be comparable.
pub fn sort_rows<'a, R: Row>(rows: Vec<FormatRow<'a, R>>, col_ord: &[ColumnOrd]) -> (res: Vec<
    FormatRow<'a, R>,
>)
    requires
        forall|i: int, j: int|
            0 <= i < rows@.len() && 0 <= j < rows@.len() && i != j ==> spec_comparable(
                #[trigger] rows@[i],
                #[trigger] rows@[j],
                col_ord@,
            ),
    ensures
        exists|p: Seq<int>| spec_stable_arrangement(rows@, res@, p, col_ord@),
        spec_kinds_agree(rows@, col_ord@) ==> forall|i: int, j: int|
            #![trigger res@[i], res@[j]]
            0 <= i < j < res@.len() ==> spec_compare(res@[i], res@[j], col_ord@) != Order::Greater,
{
    let ghost orig = rows@;
    let ghost ords = col_ord@;
    let n = rows.len();
    let mut src = rows;
    let mut res: Vec<FormatRow<'a, R>> = Vec::new();
    let ghost mut p: Seq<int> = Seq::empty();
    let mut j: usize = 0;
    while j < n
        invariant
            j <= n,
            n == orig.len(),
            ords == col_ord@,
            src@ == orig.skip(j as int),
            forall|i: int, k: int|
                0 <= i < orig.len() && 0 <= k < orig.len() && i != k ==> spec_comparable(
                    #[trigger] orig[i],
                    #[trigger] orig[k],
                    ords,
                ),
            spec_partial_arrangement(orig, res@, p, j as int, ords),
        decreases n - j,
    {
        assert(src@[0] == orig[j as int]);
        let row = src.remove(0);
        assert(src@ =~= orig.skip(j + 1));
        let mut k: usize = res.len();
        while k > 0
            invariant
                k <= res@.len(),
                res@.len() == j,
                row == orig[j as int],
                j < n,
                n == orig.len(),
                p.len() == j,
                forall|i: int, kk: int|
                    0 <= i < orig.len() && 0 <= kk < orig.len() && i != kk ==> spec_comparable(
                        #[trigger] orig[i],
                        #[trigger] orig[kk],
                        ords,
                    ),
                spec_partial_arrangement(orig, res@, p, j as int, ords),
                forall|m: int| k <= m < res@.len() ==> spec_compare(#[trigger] res@[m], row, ords) == Order::Greater,
                ords == col_ord@,
            ensures
                k <= res@.len(),
                forall|m: int| k <= m < res@.len() ==> spec_compare(#[trigger] res@[m], row, ords) == Order::Greater,
                k > 0 ==> spec_compare(res@[k - 1], row, ords) != Order::Greater,
            decreases k,
        {
            assert(res@[k - 1] == orig[p[k - 1]]);
            assert(p[k - 1] < j);
            assert(spec_comparable(orig[p[k - 1]], orig[j as int], ords));
            let c = compare_rows(&res[k - 1], &row, col_ord);
            if c != Order::Greater {
                break;
            }
            k = k - 1;
        }
        proof {
            lemma_insert_keeps_arrangement(orig, res@, p, j as int, k as int, ords);
            p = p.insert(k as int, j as int);
        }
        res.insert(k, row);
        j = j + 1;
    }
    assert(spec_stable_arrangement(orig, res@, p, ords));
    proof {
        if spec_kinds_agree(orig, ords) {
            lemma_sorted_all_pairs_of_one_kind(orig, res@, p, ords);
        }
    }
    res
}

/// Sorting by the value of a boolean column puts `false` before `true`, and
/// after it when the ordering is reversed.
pub proof fn lemma_bool_column_orders_false_first(
    ord: ColumnOrd,
    a_texts: Seq<Seq<char>>,
    a_cells: Seq<Option<CellValue>>,
    b_texts: Seq<Seq<char>>,
    b_cells: Seq<Option<CellValue>>,
)
    requires
        !ord.spec_formatted(),
        spec_cell_at(a_cells, ord.idx as int) == Some(CellValue::Bool(false)),
        spec_cell_at(b_cells, ord.idx as int) == Some(CellValue::Bool(true)),
    ensures
        spec_column_order(ord, a_texts, a_cells, b_texts, b_cells) == (if ord.spec_reversed() {
            Order::Greater
        } else {
            Order::Less
        }),
        spec_rows_order(seq![ord], a_texts, a_cells, b_texts, b_cells) == (if ord.spec_reversed() {
            Order::Greater
        } else {
            Order::Less
        }),
{
    crate::row::lemma_bool_cells_order_false_first(false, true);
    assert(seq![ord][0] == ord);
}

/// Two column orderings that differ only in the reverse flag order every
/// two rows oppositely.
pub proof fn lemma_reversing_flips_column_order(
    o: ColumnOrd,
    r: ColumnOrd,
    a_texts: Seq<Seq<char>>,
    a_cells: Seq<Option<CellValue>>,
    b_texts: Seq<Seq<char>>,
    b_cells: Seq<Option<CellValue>>,
)
    requires
        r.idx == o.idx,
        r.spec_reversed() == !o.spec_reversed(),
        r.spec_formatted() == o.spec_formatted(),
        r.spec_none_less() == o.spec_none_less(),
    ensures
        spec_column_order(r, a_texts, a_cells, b_texts, b_cells) == spec_column_order(
            o,
            a_texts,
            a_cells,
            b_texts,
            b_cells,
        ).spec_reverse(),
{
}

/// Ordering by value puts a row whose cell is absent after a row whose cell
/// is present, or before it with the none-less flag; reversal flips this.
pub proof fn lemma_absent_cells_order_last_unless_none_less(
    ord: ColumnOrd,
    a_texts: Seq<Seq<char>>,
    a_cells: Seq<Option<CellValue>>,
    b_texts: Seq<Seq<char>>,
    b_cells: Seq<Option<CellValue>>,
)
    requires
        !ord.spec_formatted(),
        spec_cell_at(a_cells, ord.idx as int) is None,
        spec_cell_at(b_cells, ord.idx as int) is Some,
    ensures
        spec_column_order(ord, a_texts, a_cells, b_texts, b_cells) == (if ord.spec_none_less()
            != ord.spec_reversed() {
            Order::Less
        } else {
            Order::Greater
        }),
{
}

/// Ordering by formatted text compares the column's texts, whatever the
/// cells hold.
pub proof fn lemma_formatted_order_reads_text(
    ord: ColumnOrd,
    a_texts: Seq<Seq<char>>,
    a_cells: Seq<Option<CellValue>>,
    b_texts: Seq<Seq<char>>,
    b_cells: Seq<Option<CellValue>>,
    c_cells: Seq<Option<CellValue>>,
    d_cells: Seq<Option<CellValue>>,
)
    requires
        ord.spec_formatted(),
    ensures
        spec_column_order(ord, a_texts, a_cells, b_texts, b_cells) == spec_column_order(
            ord,
            a_texts,
            c_cells,
            b_texts,
            d_cells,
        ),
        !ord.spec_reversed() ==> spec_column_order(ord, a_texts, a_cells, b_texts, b_cells) == spec_text_order(
            a_texts[ord.idx as int],
            b_texts[ord.idx as int],
        ),
{
}

/// Orderings later in the list only break ties: the first ordering under
/// which two rows differ decides.
pub proof fn lemma_first_difference_decides(
    ords: Seq<ColumnOrd>,
    k: int,
    a_texts: Seq<Seq<char>>,
    a_cells: Seq<Option<CellValue>>,
    b_texts: Seq<Seq<char>>,
    b_cells: Seq<Option<CellValue>>,
)
    requires
        0 <= k < ords.len(),
        forall|i: int| 0 <= i < k ==> spec_column_order(#[trigger] ords[i], a_texts, a_cells, b_texts, b_cells) == Order::Equal,
        spec_column_order(ords[k], a_texts, a_cells, b_texts, b_cells) != Order::Equal,
    ensures
        spec_rows_order(ords, a_texts, a_cells, b_texts, b_cells) == spec_column_order(
            ords[k],
            a_texts,
            a_cells,
            b_texts,
            b_cells,
        ),
    decreases k,
{
    if k > 0 {
        let rest = ords.drop_first();
        assert(spec_column_order(ords[0], a_texts, a_cells, b_texts, b_cells) == Order::Equal);
        assert forall|i: int| 0 <= i < k - 1 implies spec_column_order(#[trigger] rest[i], a_texts, a_cells, b_texts, b_cells) == Order::Equal by {
            assert(rest[i] == ords[i + 1]);
        }
        assert(rest[k - 1] == ords[k]);
        lemma_first_difference_decides(rest, k - 1, a_texts, a_cells, b_texts, b_cells);
    }
}

} // verus!