//! How far column widths fall outside the table width constraints.

use vstd::prelude::*;

verus! {

/// The sum of the widths.
pub open spec fn spec_width_total(ws: Seq<usize>) -> nat
    decreases ws.len(),
{
    if ws.len() == 0 {
        0
    } else {
        spec_width_total(ws.drop_last()) + ws.last() as nat
    }
}

/// The sum of the widths, saturated at `usize::MAX`.
pub open spec fn spec_capped_total(ws: Seq<usize>) -> usize {
    if spec_width_total(ws) > usize::MAX {
        usize::MAX
    } else {
        spec_width_total(ws) as usize
    }
}

/// `a - b`, or zero when `b > a`.
pub open spec fn spec_excess(a: usize, b: usize) -> usize {
    if a > b {
        (a - b) as usize
    } else {
        0
    }
}

/// The width by which the columns overflow the maximum table width, and the
/// width by which they fall short of the minimum, with the columns' total
/// width saturated at `usize::MAX`. At most one of the two is nonzero when
/// the minimum does not exceed the maximum.
pub fn width_excess(col_widths: &[usize], min_table_width: usize, max_table_width: usize) -> (r: (usize, usize))
    ensures
        r.0 == spec_excess(spec_capped_total(col_widths@), max_table_width),
        r.1 == spec_excess(min_table_width, spec_capped_total(col_widths@)),
        min_table_width <= max_table_width ==> r.0 == 0 || r.1 == 0,
{
    let mut total: usize = 0;
    let mut i: usize = 0;
    while i < col_widths.len()
        invariant
            i <= col_widths@.len(),
            total == spec_capped_total(col_widths@.take(i as int)),
        decreases col_widths.len() - i,
    {
        assert(col_widths@.take(i + 1).drop_last() =~= col_widths@.take(i as int));
        total = total.saturating_add(col_widths[i]);
        i = i + 1;
    }
    assert(col_widths@.take(col_widths.len() as int) =~= col_widths@);
    (total.saturating_sub(max_table_width), min_table_width.saturating_sub(total))
}

} // verus!
