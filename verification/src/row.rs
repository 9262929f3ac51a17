//! Table rows and cells, and how cells compare.

use vstd::prelude::*;

use crate::format::{CellValue, DisplayFmt};

verus! {

/// The result of comparing two values.
#[derive(Debug, Clone, Copy, PartialEq, Eq, Hash, Structural)]
pub enum Order {
    /// The first value orders before the second.
    Less,
    /// The values order equally.
    Equal,
    /// The first value orders after the second.
    Greater,
}

impl Order {
    /// The opposite ordering.
    pub open spec fn spec_reverse(self) -> Order {
        match self {
            Order::Less => Order::Greater,
            Order::Equal => Order::Equal,
            Order::Greater => Order::Less,
        }
    }

    /// Returns the opposite ordering.
    pub fn reverse(self) -> (c: Order)
        ensures
            c == self.spec_reverse(),
    {
        match self {
            Order::Less => Order::Greater,
            Order::Equal => Order::Equal,
            Order::Greater => Order::Less,
        }
    }
}

/// Compares two integers.
pub open spec fn spec_int_order(a: int, b: int) -> Order {
    if a < b {
        Order::Less
    } else if a > b {
        Order::Greater
    } else {
        Order::Equal
    }
}

/// Compares two texts lexicographically by their characters' code points.
pub open spec fn spec_text_order(a: Seq<char>, b: Seq<char>) -> Order
    decreases a.len(),
{
    if a.len() == 0 {
        if b.len() == 0 { Order::Equal } else { Order::Less }
    } else if b.len() == 0 {
        Order::Greater
    } else if (a[0] as u32) < (b[0] as u32) {
        Order::Less
    } else if (a[0] as u32) > (b[0] as u32) {
        Order::Greater
    } else {
        spec_text_order(a.drop_first(), b.drop_first())
    }
}

/// Compares two texts lexicographically, as `str`'s `Ord` does.
pub fn text_order(a: &str, b: &str) -> (c: Order)
    ensures
        c == spec_text_order(a@, b@),
{
    let la = a.unicode_len();
    let lb = b.unicode_len();
    let mut i: usize = 0;
    assert(a@.skip(0) =~= a@);
    assert(b@.skip(0) =~= b@);
    while i < la && i < lb
        invariant
            la == a@.len(),
            lb == b@.len(),
            i <= la,
            i <= lb,
            spec_text_order(a@, b@) == spec_text_order(a@.skip(i as int), b@.skip(i as int)),
        decreases la - i,
    {
        let ca = a.get_char(i);
        let cb = b.get_char(i);
        let ghost sa = a@.skip(i as int);
        let ghost sb = b@.skip(i as int);
        assert(sa[0] == ca && sb[0] == cb);
        if (ca as u32) < (cb as u32) {
            return Order::Less;
        }
        if (ca as u32) > (cb as u32) {
            return Order::Greater;
        }
        assert(sa.drop_first() =~= a@.skip(i + 1));
        assert(sb.drop_first() =~= b@.skip(i + 1));
        i = i + 1;
    }
    assert(a@.skip(i as int).len() == la - i);
    assert(b@.skip(i as int).len() == lb - i);
    if i == la && i == lb {
        Order::Equal
    } else if i == la {
        Order::Less
    } else {
        Order::Greater
    }
}

/// A partially orderable, displayable interface to a single table cell.
pub trait Cell {
    /// The cell's value.
    spec fn spec_value(&self) -> CellValue;

    /// The text of the cell under a display format.
    fn display(&self, fmt: DisplayFmt) -> (s: String)
        ensures
            s@ == self.spec_value().spec_display(fmt),
    ;

    /// Performs a partial compare to another cell. Returns `None` when the
    /// cells hold values of different kinds.
    fn dyn_partial_cmp(&self, other: &CellValue) -> (c: Option<Order>)
        ensures
            c == spec_cell_order(self.spec_value(), *other),
    ;
}

/// Compares two cell values: values of one kind compare by value (texts
/// lexicographically, `false` before `true`); values of different kinds do not
/// compare.
pub open spec fn spec_cell_order(a: CellValue, b: CellValue) -> Option<Order> {
    match (a, b) {
        (CellValue::Int(x), CellValue::Int(y)) => Some(spec_int_order(x as int, y as int)),
        (CellValue::UInt(x), CellValue::UInt(y)) => Some(spec_int_order(x as int, y as int)),
        (CellValue::Bool(x), CellValue::Bool(y)) => Some(
            spec_int_order(if x { 1 } else { 0 }, if y { 1 } else { 0 }),
        ),
        (CellValue::Text(x), CellValue::Text(y)) => Some(spec_text_order(x@, y@)),
        _ => None,
    }
}

fn int_order(a: i64, b: i64) -> (c: Order)
    ensures
        c == spec_int_order(a as int, b as int),
{
    if a < b {
        Order::Less
    } else if a > b {
        Order::Greater
    } else {
        Order::Equal
    }
}

fn uint_order(a: u64, b: u64) -> (c: Order)
    ensures
        c == spec_int_order(a as int, b as int),
{
    if a < b {
        Order::Less
    } else if a > b {
        Order::Greater
    } else {
        Order::Equal
    }
}

impl Cell for CellValue {
    open spec fn spec_value(&self) -> CellValue {
        *self
    }

    fn display(&self, fmt: DisplayFmt) -> (s: String) {
        fmt.apply(self)
    }

    fn dyn_partial_cmp(&self, other: &CellValue) -> (c: Option<Order>) {
        match (self, other) {
            (CellValue::Int(x), CellValue::Int(y)) => Some(int_order(*x, *y)),
            (CellValue::UInt(x), CellValue::UInt(y)) => Some(uint_order(*x, *y)),
            (CellValue::Bool(x), CellValue::Bool(y)) => Some(
                uint_order(if *x { 1 } else { 0 }, if *y { 1 } else { 0 }),
            ),
            (CellValue::Text(x), CellValue::Text(y)) => Some(text_order(x.as_str(), y.as_str())),
            _ => None,
        }
    }
}

/// Provides methods required for processing a single table row.
pub trait Row {
    /// The row's cells, in column order; `None` marks an absent cell.
    spec fn spec_cells(&self) -> Seq<Option<CellValue>>;

    /// Returns the number of columns in the row.
    fn len(&self) -> (n: usize)
        ensures
            n == self.spec_cells().len(),
    ;

    /// Returns the cell at the given column index, or `None` if there is none.
    fn cell(&self, col_idx: usize) -> (c: Option<&CellValue>)
        ensures
            match c {
                Some(v) => col_idx < self.spec_cells().len() && self.spec_cells()[col_idx as int]
                    == Some(*v),
                None => col_idx >= self.spec_cells().len() || self.spec_cells()[col_idx as int]
                    is None,
            },
    ;

    /// Returns `true` if the row contains no columns.
    fn is_empty(&self) -> (b: bool)
        ensures
            b == (self.spec_cells().len() == 0),
    {
        self.len() == 0
    }
}

/// A row of cells, any of which may be absent.
impl Row for Vec<Option<CellValue>> {
    open spec fn spec_cells(&self) -> Seq<Option<CellValue>> {
        self@
    }

    fn len(&self) -> (n: usize) {
        self.len()
    }

    fn cell(&self, col_idx: usize) -> (c: Option<&CellValue>) {
        if col_idx < self.len() {
            match &self[col_idx] {
                Some(v) => Some(v),
                None => None,
            }
        } else {
            None
        }
    }
}

/// A row in which every cell is present.
impl Row for Vec<CellValue> {
    open spec fn spec_cells(&self) -> Seq<Option<CellValue>> {
        self@.map_values(|v: CellValue| Some(v))
    }

    fn len(&self) -> (n: usize) {
        self.len()
    }

    fn cell(&self, col_idx: usize) -> (c: Option<&CellValue>) {
        if col_idx < self.len() {
            Some(&self[col_idx])
        } else {
            None
        }
    }
}

/// Boolean cells compare as `bool` does: `false` orders before `true`, and
/// equal values order equal.
pub proof fn lemma_bool_cells_order_false_first(x: bool, y: bool)
    ensures
        spec_cell_order(CellValue::Bool(false), CellValue::Bool(true)) == Some(Order::Less),
        spec_cell_order(CellValue::Bool(true), CellValue::Bool(false)) == Some(Order::Greater),
        spec_cell_order(CellValue::Bool(x), CellValue::Bool(y)) == Some(Order::Equal) <==> x == y,
        spec_cell_order(CellValue::Bool(x), CellValue::Bool(y)) == Some(Order::Less) <==> (!x && y),
{
}

/// Integer cells compare by numeric value, unsigned as signed: a smaller
/// number orders before a larger one.
pub proof fn lemma_integer_cells_order_by_value(a: i64, b: i64, c: u64, d: u64)
    ensures
        spec_cell_order(CellValue::Int(a), CellValue::Int(b)) == Some(Order::Less) <==> a < b,
        spec_cell_order(CellValue::Int(a), CellValue::Int(b)) == Some(Order::Equal) <==> a == b,
        spec_cell_order(CellValue::UInt(c), CellValue::UInt(d)) == Some(Order::Less) <==> c < d,
        spec_cell_order(CellValue::UInt(c), CellValue::UInt(d)) == Some(Order::Equal) <==> c == d,
{
}

/// Whether two texts hold the same character codes, position by position.
pub open spec fn spec_same_codes(a: Seq<char>, b: Seq<char>) -> bool {
    a.len() == b.len() && forall|i: int| 0 <= i < a.len() ==> (a[i] as u32) == (#[trigger] b[i] as u32)
}

/// Texts order lexicographically by character code: they order equal
/// exactly when they hold the same codes, a proper prefix orders before the
/// longer text, and otherwise the first differing character decides.
pub proof fn lemma_text_order_lexicographic(a: Seq<char>, b: Seq<char>, k: int)
    ensures
        spec_text_order(a, b) == Order::Equal <==> spec_same_codes(a, b),
        b.len() > 0 ==> spec_text_order(a, a + b) == Order::Less,
        0 <= k < a.len() && k < b.len() && (forall|i: int| 0 <= i < k ==> (a[i] as u32) == (#[trigger] b[i] as u32))
            && (a[k] as u32) < (b[k] as u32) ==> spec_text_order(a, b) == Order::Less,
    decreases a.len(),
{
    if a.len() > 0 && b.len() > 0 {
        let (a1, b1) = (a.drop_first(), b.drop_first());
        lemma_text_order_lexicographic(a1, b1, k - 1);
        lemma_text_order_lexicographic(a1, b, 0);
        assert((a + b).drop_first() =~= a1 + b);
        assert((a + b)[0] == a[0]);
        if (a[0] as u32) == (b[0] as u32) {
            if spec_same_codes(a1, b1) {
                assert forall|i: int| 0 <= i < a.len() implies (a[i] as u32) == (#[trigger] b[i] as u32) by {
                    if i > 0 {
                        assert(a1[i - 1] == a[i] && b1[i - 1] == b[i]);
                    }
                }
            }
            if spec_same_codes(a, b) {
                assert forall|i: int| 0 <= i < a1.len() implies (a1[i] as u32) == (#[trigger] b1[i] as u32) by {
                    assert(a1[i] == a[i + 1] && b1[i] == b[i + 1]);
                }
            }
            if 0 < k && k < a.len() && k < b.len() && (forall|i: int| 0 <= i < k ==> (a[i] as u32) == (#[trigger] b[i] as u32)) {
                assert forall|i: int| 0 <= i < k - 1 implies (a1[i] as u32) == (#[trigger] b1[i] as u32) by {
                    assert(a1[i] == a[i + 1] && b1[i] == b[i + 1]);
                }
                assert(a1[k - 1] == a[k] && b1[k - 1] == b[k]);
            }
        }
    } else if a.len() > 0 {
        assert((a + b).drop_first() =~= a.drop_first() + b);
        assert((a + b)[0] == a[0]);
        lemma_text_order_lexicographic(a.drop_first(), b, 0);
    } else {
        assert(a + b =~= b);
    }
}

} // verus!
