//! Cell values and their display formatting.

use vstd::prelude::*;

/// The formatted rows of a table, under the name this module gives them.
pub use crate::split::FormattedRow;

verus! {

/// A table cell value.
#[derive(Debug, Clone, PartialEq, Eq)]
pub enum CellValue {
    /// A signed integer.
    Int(i64),
    /// An unsigned integer.
    UInt(u64),
    /// A boolean.
    Bool(bool),
    /// A text value.
    Text(String),
}

/// Format sign specifier.
///
/// Indicates that the cell value should be formatted with the given sign, as
/// in the std library formatting specification.
#[derive(Debug, Clone, Copy, PartialEq, Eq, Hash, Structural)]
pub enum Sign {
    /// Format numerical values with the '+' format option.
    Plus,
    /// Format numerical values with the '-' format option.
    Minus,
    /// Format numerical values with the '0' format option.
    Zero,
}

/// Parameters for cell `Display` output formatting.
#[derive(Debug, Clone, Copy, PartialEq, Eq, Hash, Structural)]
pub struct DisplayFmt {
    /// Format precision specifier.
    pub precision: Option<usize>,
    /// Format sign specifier.
    pub sign: Option<Sign>,
}

/// The digit characters of a natural number in decimal.
pub open spec fn spec_nat_decimal(n: nat) -> Seq<char>
    decreases n,
{
    if n < 10 {
        seq![crate::style::spec_digit(n as int)]
    } else {
        spec_nat_decimal(n / 10) + seq![crate::style::spec_digit((n % 10) as int)]
    }
}

/// A signed integer in decimal, with a leading `-` when negative and, when
/// `plus` is set, a leading `+` when not negative.
pub open spec fn spec_int_decimal(v: int, plus: bool) -> Seq<char> {
    if v < 0 {
        seq!['-'] + spec_nat_decimal((-v) as nat)
    } else if plus {
        seq!['+'] + spec_nat_decimal(v as nat)
    } else {
        spec_nat_decimal(v as nat)
    }
}

/// Text with a precision applied: at most `precision` characters are kept.
pub open spec fn spec_str_precision(s: Seq<char>, precision: Option<usize>) -> Seq<char> {
    match precision {
        Some(p) => if p < s.len() { s.take(p as int) } else { s },
        None => s,
    }
}

/// The `Display` text of a boolean.
pub open spec fn spec_bool_text(b: bool) -> Seq<char> {
    if b { seq!['t', 'r', 'u', 'e'] } else { seq!['f', 'a', 'l', 's', 'e'] }
}

/// Calls `format!("{}")` on a signed integer. The std documentation gives
/// the result: the number in decimal, with `-` when negative.
#[verifier::external_body]
fn format_i64(v: i64) -> (s: String)
    ensures
        s@ == spec_int_decimal(v as int, false),
{
    format!("{}", v)
}

/// Calls `format!("{:+}")` on a signed integer: the number in decimal, with
/// `-` when negative and `+` otherwise.
#[verifier::external_body]
fn format_i64_plus(v: i64) -> (s: String)
    ensures
        s@ == spec_int_decimal(v as int, true),
{
    format!("{:+}", v)
}

/// Calls `format!("{}")` on an unsigned integer: the number in decimal.
#[verifier::external_body]
pub(crate) fn format_u64(v: u64) -> (s: String)
    ensures
        s@ == spec_int_decimal(v as int, false),
{
    format!("{}", v)
}

/// Calls `format!("{:+}")` on an unsigned integer: the number in decimal,
/// after `+`.
#[verifier::external_body]
fn format_u64_plus(v: u64) -> (s: String)
    ensures
        s@ == spec_int_decimal(v as int, true),
{
    format!("{:+}", v)
}

/// Calls `format!("{:.p$}")` on text. The std documentation gives the
/// result: for non-numeric values the precision is a maximum width, and
/// longer text is truncated down to that many characters.
#[verifier::external_body]
fn format_str_precision(s: &str, p: usize) -> (r: String)
    ensures
        r@ == spec_str_precision(s@, Some(p)),
{
    format!("{:.p$}", s, p = p)
}

/// Formats text with an optional precision.
fn format_str(s: &str, precision: Option<usize>) -> (r: String)
    ensures
        r@ == spec_str_precision(s@, precision),
{
    match precision {
        Some(p) => format_str_precision(s, p),
        None => String::from_str(s),
    }
}

impl CellValue {
    /// The text of the value under a display format. Integers ignore the
    /// precision and take a `+` under `Sign::Plus`; text and booleans keep at
    /// most `precision` characters and ignore the sign.
    pub open spec fn spec_display(self, fmt: DisplayFmt) -> Seq<char> {
        let plus = fmt.sign == Some(Sign::Plus);
        match self {
            CellValue::Int(v) => spec_int_decimal(v as int, plus),
            CellValue::UInt(v) => spec_int_decimal(v as int, plus),
            CellValue::Bool(b) => spec_str_precision(spec_bool_text(b), fmt.precision),
            CellValue::Text(t) => spec_str_precision(t@, fmt.precision),
        }
    }
}

impl DisplayFmt {
    /// Constructs a new `DisplayFmt` with the default settings.
    pub fn new() -> (f: DisplayFmt)
        ensures
            f.precision is None,
            f.sign is None,
    {
        DisplayFmt { precision: None, sign: None }
    }

    /// Sets the precision and returns the `DisplayFmt`.
    pub fn with_precision(self, precision: Option<usize>) -> (f: DisplayFmt)
        ensures
            f == (DisplayFmt { precision, ..self }),
    {
        DisplayFmt { precision, ..self }
    }

    /// Sets the sign and returns the `DisplayFmt`.
    pub fn with_sign(self, sign: Option<Sign>) -> (f: DisplayFmt)
        ensures
            f == (DisplayFmt { sign, ..self }),
    {
        DisplayFmt { sign, ..self }
    }

    /// Applies the `DisplayFmt` to the given cell, rendering it as text.
    pub fn apply(&self, cell: &CellValue) -> (s: String)
        ensures
            s@ == cell.spec_display(*self),
    {
        let plus = match self.sign {
            Some(Sign::Plus) => true,
            _ => false,
        };
        match cell {
            CellValue::Int(v) => if plus { format_i64_plus(*v) } else { format_i64(*v) },
            CellValue::UInt(v) => if plus { format_u64_plus(*v) } else { format_u64(*v) },
            CellValue::Bool(b) => {
                let t = if *b {
                    let t = "true";
                    proof {
                        reveal_strlit("true");
                    }
                    assert(t@ =~= spec_bool_text(true));
                    t
                } else {
                    let t = "false";
                    proof {
                        reveal_strlit("false");
                    }
                    assert(t@ =~= spec_bool_text(false));
                    t
                };
                format_str(t, self.precision)
            },
            CellValue::Text(t) => format_str(t.as_str(), self.precision),
        }
    }
}

impl Default for DisplayFmt {
    /// The same as `new`.
    fn default() -> (f: DisplayFmt)
        ensures
            f.precision is None,
            f.sign is None,
    {
        DisplayFmt::new()
    }
}

/// The decimal digits of a natural number are digit characters, and there
/// is at least one.
pub proof fn lemma_nat_decimal_digits(n: nat)
    ensures
        spec_nat_decimal(n).len() > 0,
        forall|i: int| 0 <= i < spec_nat_decimal(n).len() ==> '0' <= #[trigger] spec_nat_decimal(n)[i] <= '9',
    decreases n,
{
    if n >= 10 {
        lemma_nat_decimal_digits(n / 10);
    }
}

/// The sign setting is honoured alike for signed and unsigned cells: under
/// `Sign::Plus` every non-negative integer, signed or unsigned, is shown as
/// `+` followed by what it shows without a sign, which is its decimal
/// digits; and a non-negative signed integer shows as the same unsigned
/// integer does, under any format.
pub proof fn lemma_plus_sign_on_non_negative_integers(v: u64, w: i64, precision: Option<usize>)
    ensures
        ({
            let plus = DisplayFmt { precision, sign: Some(Sign::Plus) };
            let plain = DisplayFmt { precision, sign: None };
            &&& CellValue::UInt(v).spec_display(plus) == seq!['+'] + CellValue::UInt(v).spec_display(plain)
            &&& CellValue::UInt(v).spec_display(plain).len() > 0
            &&& forall|i: int|
                0 <= i < CellValue::UInt(v).spec_display(plain).len() ==> '0' <= #[trigger] CellValue::UInt(
                    v,
                ).spec_display(plain)[i] <= '9'
            &&& w >= 0 ==> CellValue::Int(w).spec_display(plus) == seq!['+'] + CellValue::Int(w).spec_display(
                plain,
            )
            &&& w >= 0 ==> CellValue::UInt(w as u64).spec_display(plus) == CellValue::Int(w).spec_display(plus)
            &&& w >= 0 ==> CellValue::UInt(w as u64).spec_display(plain) == CellValue::Int(w).spec_display(plain)
        }),
{
    lemma_nat_decimal_digits(v as nat);
}

/// A negative integer shows as `-` followed by the digits of its magnitude,
/// whatever the sign setting; precision never changes how an integer shows.
pub proof fn lemma_negative_integers_and_precision(w: i64, v: u64, fmt: DisplayFmt, precision: Option<usize>)
    ensures
        w < 0 ==> CellValue::Int(w).spec_display(fmt) == seq!['-'] + spec_nat_decimal((-(w as int)) as nat),
        CellValue::Int(w).spec_display(fmt) == CellValue::Int(w).spec_display(
            DisplayFmt { precision, sign: fmt.sign },
        ),
        CellValue::UInt(v).spec_display(fmt) == CellValue::UInt(v).spec_display(
            DisplayFmt { precision, sign: fmt.sign },
        ),
{
}

/// Precision limits text to its first characters: text and booleans show as
/// the longest prefix of at most `precision` characters, and in full without
/// a precision; the sign setting does not change them.
pub proof fn lemma_precision_keeps_a_prefix(t: String, b: bool, fmt: DisplayFmt)
    ensures
        CellValue::Text(t).spec_display(fmt).len() == (match fmt.precision {
            Some(p) => if p < t@.len() { p as nat } else { t@.len() },
            None => t@.len(),
        }),
        CellValue::Text(t).spec_display(fmt) == t@.take(CellValue::Text(t).spec_display(fmt).len() as int),
        CellValue::Bool(b).spec_display(fmt).len() <= spec_bool_text(b).len(),
        CellValue::Bool(b).spec_display(fmt) == spec_bool_text(b).take(
            CellValue::Bool(b).spec_display(fmt).len() as int,
        ),
        fmt.precision is None ==> CellValue::Bool(b).spec_display(fmt) == (if b {
            seq!['t', 'r', 'u', 'e']
        } else {
            seq!['f', 'a', 'l', 's', 'e']
        }),
        CellValue::Text(t).spec_display(fmt) == CellValue::Text(t).spec_display(
            DisplayFmt { precision: fmt.precision, sign: None },
        ),
{
    assert(t@.take(t@.len() as int) =~= t@);
    assert(spec_bool_text(b).take(spec_bool_text(b).len() as int) =~= spec_bool_text(b));
}

} // verus!
