//! Renderer feature settings.

use vstd::prelude::*;

use crate::split::{late_format, spec_split_text, spec_wraps_column};
use crate::wrap::WrapOptions;

verus! {

/// Renderer feature support flags.
#[derive(Debug, Clone, Copy, PartialEq, Eq, Hash, Structural)]
pub struct SupportFlags(pub u32);

impl SupportFlags {
    /// Indicates that the renderer supports header rendering.
    pub const HEADERS: u32 = 1;
    /// Indicates that the renderer supports footer rendering.
    pub const FOOTERS: u32 = 2;
    /// Indicates that the renderer supports column widths.
    pub const COLUMN_WIDTH: u32 = 4;
    /// Indicates that the renderer supports column widths constraints.
    pub const COLUMN_WIDTH_CONSTRAINTS: u32 = 8;
    /// Indicates that the renderer supports dynamic column widths.
    pub const COLUMN_WIDTH_DYNAMIC: u32 = 16;
    /// Indicates that the renderer supports horizontal column alignment.
    pub const HORZ_ALIGN: u32 = 32;
    /// Indicates that the renderer supports multiline rows & cells.
    pub const MULTILINE: u32 = 64;
    /// Indicates that the renderer supports vertical alignment of multiline
    /// rows and cells.
    pub const VERT_ALIGN: u32 = 128;
    /// Indicates that the renderer supports text wrapping.
    pub const TEXT_WRAP: u32 = 256;
    /// Indicates that the renderer supports ANSI styling.
    pub const ANSI_STYLE: u32 = 512;
    /// All column width flags.
    pub const COLUMN_WIDTH_ALL: u32 = 60;
    /// All multiline flags.
    pub const MULTILINE_ALL: u32 = 448;

    /// Constructs a new `SupportFlags` with only the `HEADERS` flag set.
    pub fn new() -> (f: SupportFlags)
        ensures
            f == SupportFlags(1),
    {
        SupportFlags(1)
    }

    /// Constructs a `SupportFlags` with no flag set.
    pub fn empty() -> (f: SupportFlags)
        ensures
            f == SupportFlags(0),
    {
        SupportFlags(0)
    }

    /// Constructs a `SupportFlags` from raw flag bits, keeping every bit.
    pub fn from_bits_retain(bits: u32) -> (f: SupportFlags)
        ensures
            f == SupportFlags(bits),
    {
        SupportFlags(bits)
    }

    /// Returns the raw flag bits.
    pub fn bits(&self) -> (b: u32)
        ensures
            b == self.0,
    {
        self.0
    }

    /// Returns `true` if every flag of `other` is set in `self`.
    pub fn contains(&self, other: SupportFlags) -> (b: bool)
        ensures
            b == (self.0 & other.0 == other.0),
    {
        self.0 & other.0 == other.0
    }

    /// Returns the flags set in either.
    pub fn union(self, other: SupportFlags) -> (f: SupportFlags)
        ensures
            f == SupportFlags(self.0 | other.0),
    {
        SupportFlags(self.0 | other.0)
    }
}

impl Default for SupportFlags {
    /// The same as `new`.
    fn default() -> (f: SupportFlags)
        ensures
            f == SupportFlags(1),
    {
        SupportFlags::new()
    }
}

/// How to measure the width of cell text.
#[derive(Debug, Clone, Copy, PartialEq, Eq, Hash, Structural)]
pub enum StrWidth {
    /// Measure with `unicode_display_width`.
    UnicodeDisplayWidth,
    /// Measure by the UTF-8 byte length, suitable when text is ASCII.
    ByteLen,
}

/// The part of the table width that borders and padding take, for a number of
/// columns.
#[derive(Debug, Clone, Copy, PartialEq, Eq, Hash, Structural)]
pub enum WidthContribution {
    /// One column of space between neighbouring columns: `count - 1`.
    Interspersed,
    /// `per_column * count + fixed`.
    Linear {
        /// The width each column adds.
        per_column: usize,
        /// The width added once.
        fixed: usize,
    },
}

impl WidthContribution {
    /// The contributed width for `count` columns.
    pub open spec fn spec_eval(self, count: nat) -> int {
        match self {
            WidthContribution::Interspersed => if count > 0 { count - 1 } else { 0 },
            WidthContribution::Linear { per_column, fixed } => per_column * count + fixed,
        }
    }

    /// Computes the contributed width for `count` columns, saturating at
    /// `usize::MAX`.
    pub fn eval(self, count: usize) -> (w: usize)
        ensures
            w == (if self.spec_eval(count as nat) > usize::MAX { usize::MAX as int } else {
                self.spec_eval(count as nat)
            }),
    {
        match self {
            WidthContribution::Interspersed => if count > 0 { count - 1 } else { 0 },
            WidthContribution::Linear { per_column, fixed } => {
                let prod = per_column.checked_mul(count);
                match prod {
                    Some(p) => match p.checked_add(fixed) {
                        Some(w) => w,
                        None => usize::MAX,
                    },
                    None => {
                        assert(per_column * count + fixed > usize::MAX) by (nonlinear_arith)
                            requires
                                per_column * count > usize::MAX,
                                fixed >= 0,
                        ;
                        usize::MAX
                    },
                }
            },
        }
    }
}

/// Formatting applied to cell text once column widths are known: wrapping at
/// the column width, in the selected columns (all of them when none are
/// selected).
#[derive(Debug, Clone)]
pub struct LateFormat {
    /// The wrapping options.
    pub wrap_options: WrapOptions,
    /// The columns to wrap, or `None` for every column.
    pub wrap_columns: Option<Vec<usize>>,
}

impl LateFormat {
    /// The text of column `idx` at width `width` after this formatting.
    pub open spec fn spec_apply(&self, text: Seq<char>, idx: usize, width: usize) -> Seq<char> {
        spec_split_text(
            text,
            width,
            Some(self.wrap_options),
            spec_wraps_column(Some(self.wrap_options), self.wrap_columns, idx as int),
        )
    }

    /// Formats the text of column `idx` for a column of width `width`.
    pub fn apply(&self, text: &str, idx: usize, width: usize) -> (s: String)
        ensures
            s@ == self.spec_apply(text@, idx, width),
    {
        late_format(text, idx, width, &self.wrap_options, &self.wrap_columns)
    }
}

/// `Renderer` feature settings: customized behavior for the table driver to
/// support renderer-specific requirements.
#[derive(Debug, Clone)]
pub struct Features {
    /// The supported driver behavior flags.
    pub flags: SupportFlags,
    /// How to measure text for column widths; `None` means column widths are
    /// not calculated.
    pub str_width_fn: Option<StrWidth>,
    /// The table width contribution of the renderer's borders and padding.
    pub width_contribution_fn: Option<WidthContribution>,
    /// Extra width to pad all columns.
    pub extra_column_width: usize,
    /// Default column width for underconstrained columns if dynamic column
    /// widths are unsupported.
    pub default_column_width: usize,
    /// The default text wrapping option.
    pub default_text_wrap: Option<WrapOptions>,
    /// Formatting applied once column widths are known, if any.
    pub late_format_fn: Option<LateFormat>,
    /// Whether each data cell's text is put on a single line, its lines
    /// joined with spaces, as soon as it is formatted.
    pub single_line_cells: bool,
}

impl Features {
    /// Constructs a new `Features` with the given `SupportFlags`: unicode
    /// width measurement, one column between columns, no extra width, default
    /// column width 15, and default wrapping only when both multiline and text
    /// wrap are supported.
    pub fn new(flags: SupportFlags) -> (f: Features)
        ensures
            f.flags == flags,
            f.str_width_fn == Some(StrWidth::UnicodeDisplayWidth),
            f.width_contribution_fn == Some(WidthContribution::Interspersed),
            f.extra_column_width == 0,
            f.default_column_width == 15,
            f.default_text_wrap is Some <==> (flags.0 & 320u32 == 320u32),
            f.late_format_fn is None,
            !f.single_line_cells,
    {
        let wrap = if flags.contains(SupportFlags(320)) { Some(WrapOptions::new()) } else { None };
        Features {
            flags,
            str_width_fn: Some(StrWidth::UnicodeDisplayWidth),
            width_contribution_fn: Some(WidthContribution::Interspersed),
            extra_column_width: 0,
            default_column_width: 15,
            default_text_wrap: wrap,
            late_format_fn: None,
            single_line_cells: false,
        }
    }

    /// Constructs the default `Features`: those of `Features::new` with only
    /// the header flag.
    pub fn default_features() -> (f: Features)
        ensures
            f.flags == SupportFlags(1),
            f.str_width_fn == Some(StrWidth::UnicodeDisplayWidth),
            f.width_contribution_fn == Some(WidthContribution::Interspersed),
            f.extra_column_width == 0,
            f.default_column_width == 15,
            f.default_text_wrap is None,
            f.late_format_fn is None,
            !f.single_line_cells,
    {
        let f = Features::new(SupportFlags::new());
        assert(1u32 & 320u32 == 0u32) by (bit_vector);
        f
    }

    /// Sets the width measurement and returns the `Features`.
    pub fn with_str_width_fn(self, str_width_fn: Option<StrWidth>) -> (f: Features)
        ensures
            f.str_width_fn == str_width_fn,
            f.flags == self.flags,
            f.width_contribution_fn == self.width_contribution_fn,
            f.extra_column_width == self.extra_column_width,
            f.default_column_width == self.default_column_width,
            f.default_text_wrap == self.default_text_wrap,
            f.late_format_fn == self.late_format_fn,
            f.single_line_cells == self.single_line_cells,
    {
        Features { str_width_fn, ..self }
    }

    /// Sets the table width contribution of the renderer and returns the
    /// `Features`.
    pub fn with_width_contribution_fn(self, width_contribution_fn: WidthContribution) -> (f: Features)
        ensures
            f.width_contribution_fn == Some(width_contribution_fn),
            f.flags == self.flags,
            f.str_width_fn == self.str_width_fn,
            f.extra_column_width == self.extra_column_width,
            f.default_column_width == self.default_column_width,
            f.default_text_wrap == self.default_text_wrap,
            f.late_format_fn == self.late_format_fn,
            f.single_line_cells == self.single_line_cells,
    {
        Features { width_contribution_fn: Some(width_contribution_fn), ..self }
    }

    /// Sets the extra column width and returns the `Features`.
    pub fn with_extra_column_width(self, extra_column_width: usize) -> (f: Features)
        ensures
            f.extra_column_width == extra_column_width,
            f.flags == self.flags,
            f.str_width_fn == self.str_width_fn,
            f.width_contribution_fn == self.width_contribution_fn,
            f.default_column_width == self.default_column_width,
            f.default_text_wrap == self.default_text_wrap,
            f.late_format_fn == self.late_format_fn,
            f.single_line_cells == self.single_line_cells,
    {
        Features { extra_column_width, ..self }
    }

    /// Sets the default column width and returns the `Features`.
    pub fn with_default_column_width(self, default_column_width: usize) -> (f: Features)
        ensures
            f.default_column_width == default_column_width,
            f.flags == self.flags,
            f.str_width_fn == self.str_width_fn,
            f.width_contribution_fn == self.width_contribution_fn,
            f.extra_column_width == self.extra_column_width,
            f.default_text_wrap == self.default_text_wrap,
            f.late_format_fn == self.late_format_fn,
            f.single_line_cells == self.single_line_cells,
    {
        Features { default_column_width, ..self }
    }

    /// Sets the default text wrapping options and returns the `Features`.
    pub fn with_default_text_wrap(self, default_text_wrap: Option<WrapOptions>) -> (f: Features)
        ensures
            f.default_text_wrap == default_text_wrap,
            f.flags == self.flags,
            f.str_width_fn == self.str_width_fn,
            f.width_contribution_fn == self.width_contribution_fn,
            f.extra_column_width == self.extra_column_width,
            f.default_column_width == self.default_column_width,
            f.late_format_fn == self.late_format_fn,
            f.single_line_cells == self.single_line_cells,
    {
        Features { default_text_wrap, ..self }
    }

    /// Sets the formatting applied once column widths are known and returns
    /// the `Features`.
    pub fn with_late_format_fn(self, late_format_fn: LateFormat) -> (f: Features)
        ensures
            f.late_format_fn == Some(late_format_fn),
            f.flags == self.flags,
            f.str_width_fn == self.str_width_fn,
            f.width_contribution_fn == self.width_contribution_fn,
            f.extra_column_width == self.extra_column_width,
            f.default_column_width == self.default_column_width,
            f.default_text_wrap == self.default_text_wrap,
            f.single_line_cells == self.single_line_cells,
    {
        Features { late_format_fn: Some(late_format_fn), ..self }
    }

    /// Sets whether each data cell's text is put on a single line and
    /// returns the `Features`.
    pub fn with_single_line_cells(self, single_line_cells: bool) -> (f: Features)
        ensures
            f.single_line_cells == single_line_cells,
            f.flags == self.flags,
            f.str_width_fn == self.str_width_fn,
            f.width_contribution_fn == self.width_contribution_fn,
            f.extra_column_width == self.extra_column_width,
            f.default_column_width == self.default_column_width,
            f.default_text_wrap == self.default_text_wrap,
            f.late_format_fn == self.late_format_fn,
    {
        Features { single_line_cells, ..self }
    }
}

} // verus!
