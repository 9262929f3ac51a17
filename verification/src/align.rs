//! Horizontal and vertical cell alignment.

use vstd::prelude::*;

verus! {

/// Horizontal alignment specifier for cell text.
#[derive(Debug, Clone, Copy, PartialEq, Eq, Hash, Structural)]
pub enum HorzAlign {
    /// Align to the left of the cell.
    Left,
    /// Align to the center of the cell.
    Center,
    /// Align to the right of the cell.
    Right,
}

/// Vertical alignment specifier for cell text.
#[derive(Debug, Clone, Copy, PartialEq, Eq, Hash, Structural)]
pub enum VertAlign {
    /// Align to the top of the cell.
    Top,
    /// Align to the center of the cell.
    Center,
    /// Align to the bottom of the cell.
    Bottom,
}

/// The left and right padding that places text in a cell of the given
/// horizontal alignment, for `pad` columns of free space.
pub open spec fn spec_split_padding(align: HorzAlign, pad: nat) -> (nat, nat) {
    match align {
        HorzAlign::Left => (0, pad),
        HorzAlign::Center => (pad / 2, (pad + 1) / 2),
        HorzAlign::Right => (pad, 0),
    }
}

/// Splits `pad` columns of free space into left and right padding according to
/// the alignment.
pub fn split_padding(align: HorzAlign, pad: usize) -> (res: (usize, usize))
    ensures
        res.0 + res.1 == pad,
        (res.0 as nat, res.1 as nat) == spec_split_padding(align, pad as nat),
{
    match align {
        HorzAlign::Left => (0, pad),
        HorzAlign::Center => (pad / 2, pad - pad / 2),
        HorzAlign::Right => (pad, 0),
    }
}

} // verus!
