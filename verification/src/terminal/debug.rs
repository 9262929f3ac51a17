//! A table renderer that writes one line per hook call, naming the hook and
//! its render context.

use vstd::prelude::*;

use crate::context::{CellContext, RenderContext};
use crate::features::{Features, StrWidth, WidthContribution};
use crate::format::{format_u64, spec_nat_decimal};
use crate::driver::{Hook, Part};
use crate::render::Renderer;

verus! {

/// The debug text of an optional index: `None`, or `Some(` the index `)`.
pub open spec fn spec_debug_index(o: Option<usize>) -> Seq<char> {
    match o {
        None => seq!['N', 'o', 'n', 'e'],
        Some(v) => seq!['S', 'o', 'm', 'e', '('] + spec_nat_decimal(v as nat) + seq![')'],
    }
}

/// The line for a call of the hook `name`: the name, then the context's row,
/// column and line in parentheses, and a line break.
pub open spec fn spec_debug_line(name: Seq<char>, ctx: RenderContext) -> Seq<char> {
    name + "(row: "@ + spec_debug_index(ctx.row) + ", col: "@ + spec_debug_index(ctx.col) + ", line: "@
        + spec_debug_index(ctx.line) + ")\n"@
}

/// Writes the debug text of an optional index.
fn debug_index(o: Option<usize>) -> (s: String)
    ensures
        s@ == spec_debug_index(o),
{
    proof {
        reveal_strlit("None");
        reveal_strlit("Some(");
        reveal_strlit(")");
    }
    match o {
        None => String::from_str("None"),
        Some(v) => {
            let mut s = String::from_str("Some(");
            let d = format_u64(v as u64);
            s.append(d.as_str());
            s.append(")");
            s
        },
    }
}

/// Writes the line for a call of the hook `name`.
fn debug_line(name: &str, ctx: &RenderContext) -> (s: String)
    ensures
        s@ == spec_debug_line(name@, *ctx),
{
    let mut s = String::from_str(name);
    s.append("(row: ");
    let r = debug_index(ctx.row);
    s.append(r.as_str());
    s.append(", col: ");
    let c = debug_index(ctx.col);
    s.append(c.as_str());
    s.append(", line: ");
    let l = debug_index(ctx.line);
    s.append(l.as_str());
    s.append(")\n");
    s
}

/// Calls `format!` with `{:?}` on a cell context, whose `Debug` impl is
/// derived. The contract says nothing of the text.
#[verifier::external_body]
fn debug_cell(cell: &CellContext) -> (s: String) {
    format!("{:?}", cell)
}

/// The line for a call of a cell-line hook, which every such hook writes
/// under the name `write_data_cell_line`: the context's row, column and line,
/// then the cell's debug text.
pub open spec fn spec_debug_cell_line(ctx: RenderContext, cell_text: Seq<char>) -> Seq<char> {
    "write_data_cell_line(row: "@ + spec_debug_index(ctx.row) + ", col: "@ + spec_debug_index(ctx.col)
        + ", line: "@ + spec_debug_index(ctx.line) + ", "@ + cell_text + ")\n"@
}

/// Writes the line for a call of a cell-line hook.
fn debug_cell_line(ctx: &RenderContext, cell: &CellContext) -> (s: String)
    ensures
        exists|t: Seq<char>| s@ == spec_debug_cell_line(*ctx, t),
{
    let mut s = String::from_str("write_data_cell_line(row: ");
    let r = debug_index(ctx.row);
    s.append(r.as_str());
    s.append(", col: ");
    let c = debug_index(ctx.col);
    s.append(c.as_str());
    s.append(", line: ");
    let l = debug_index(ctx.line);
    s.append(l.as_str());
    s.append(", ");
    let d = debug_cell(cell);
    s.append(d.as_str());
    s.append(")\n");
    assert(s@ == spec_debug_cell_line(*ctx, d@));
    s
}

/// A table renderer that writes one line per hook call, naming the hook and
/// its render context.
#[derive(Debug, Clone, Copy)]
pub struct DebugRenderer;

impl Default for DebugRenderer {
    /// The debug renderer.
    fn default() -> (r: DebugRenderer)
        ensures
            r == DebugRenderer,
    {
        DebugRenderer
    }
}

impl Renderer for DebugRenderer {
    /// Text is measured by its unicode display width.
    open spec fn spec_width_fn(&self) -> Option<StrWidth> {
        Some(StrWidth::UnicodeDisplayWidth)
    }

    /// The extra width every column is padded with.
    open spec fn spec_extra_width(&self) -> usize {
        0
    }

    /// Whether each data cell's text is put on one line: rows may span several lines.
    open spec fn spec_single_line_cells(&self) -> bool {
        false
    }

    open spec fn spec_writes(
        &self,
        hook: Hook,
        part: Part,
        ctx: RenderContext,
        cell: Option<CellContext>,
        out: Seq<char>,
        after: Self,
    ) -> bool {
        match hook {
            Hook::Init => out == Seq::<char>::empty() && after == *self,
            Hook::TableStart => (out == spec_debug_line("write_table_start"@, ctx)) && (after == *self),
            Hook::TableEnd => (out == spec_debug_line("write_table_end"@, ctx)) && (after == *self),
            Hook::SectionStart => match part {
                Part::Header => (out == spec_debug_line("write_header_start"@, ctx)) && (after == *self),
                Part::Data => (out == spec_debug_line("write_data_start"@, ctx)) && (after == *self),
                Part::Footer => (out == spec_debug_line("write_footer_start"@, ctx)) && (after == *self),
            },
            Hook::SectionEnd => match part {
                Part::Header => (out == spec_debug_line("write_header_end"@, ctx)) && (after == *self),
                Part::Data => (out == spec_debug_line("write_data_end"@, ctx)) && (after == *self),
                Part::Footer => (out == spec_debug_line("write_footer_end"@, ctx)) && (after == *self),
            },
            Hook::RowStart => match part {
                Part::Header => (out == spec_debug_line("write_header_row_start"@, ctx)) && (after == *self),
                Part::Data => (out == spec_debug_line("write_data_row_start"@, ctx)) && (after == *self),
                Part::Footer => (out == spec_debug_line("write_footer_row_start"@, ctx)) && (after == *self),
            },
            Hook::RowEnd => match part {
                Part::Header => (out == spec_debug_line("write_header_row_end"@, ctx)) && (after == *self),
                Part::Data => (out == spec_debug_line("write_data_row_end"@, ctx)) && (after == *self),
                Part::Footer => (out == spec_debug_line("write_footer_row_end"@, ctx)) && (after == *self),
            },
            Hook::CellStart => match part {
                Part::Header => (out == spec_debug_line("write_header_cell_start"@, ctx)) && (after == *self),
                Part::Data => (out == spec_debug_line("write_data_cell_start"@, ctx)) && (after == *self),
                Part::Footer => (out == spec_debug_line("write_footer_cell_start"@, ctx)) && (after == *self),
            },
            Hook::CellEnd => match part {
                Part::Header => (out == spec_debug_line("write_header_cell_end"@, ctx)) && (after == *self),
                Part::Data => (out == spec_debug_line("write_data_cell_end"@, ctx)) && (after == *self),
                Part::Footer => (out == spec_debug_line("write_footer_cell_end"@, ctx)) && (after == *self),
            },
            Hook::LineStart => match part {
                Part::Header => (out == spec_debug_line("write_header_line_start"@, ctx)) && (after == *self),
                Part::Data => (out == spec_debug_line("write_data_line_start"@, ctx)) && (after == *self),
                Part::Footer => (out == spec_debug_line("write_footer_line_start"@, ctx)) && (after == *self),
            },
            Hook::LineEnd => match part {
                Part::Header => (out == spec_debug_line("write_header_line_end"@, ctx)) && (after == *self),
                Part::Data => (out == spec_debug_line("write_data_line_end"@, ctx)) && (after == *self),
                Part::Footer => (out == spec_debug_line("write_footer_line_end"@, ctx)) && (after == *self),
            },
            Hook::CellLineStart => match part {
                Part::Header => (out == spec_debug_line("write_header_cell_line_start"@, ctx)) && (after == *self),
                Part::Data => (out == spec_debug_line("write_data_cell_line_start"@, ctx)) && (after == *self),
                Part::Footer => (out == spec_debug_line("write_footer_cell_line_start"@, ctx)) && (after == *self),
            },
            Hook::CellLineEnd => match part {
                Part::Header => (out == spec_debug_line("write_header_cell_line_end"@, ctx)) && (after == *self),
                Part::Data => (out == spec_debug_line("write_data_cell_line_end"@, ctx)) && (after == *self),
                Part::Footer => (out == spec_debug_line("write_footer_cell_line_end"@, ctx)) && (after == *self),
            },
            Hook::CellLine => match cell {
                Some(c) => (exists|t: Seq<char>| out == spec_debug_cell_line(ctx, t)) && (after == *self),
                None => false,
            },
        }
    }

    /// The default features: headers only.
    fn features(&self) -> (f: Features)
        ensures
            f.flags.0 == 1,
            f.str_width_fn == Some(StrWidth::UnicodeDisplayWidth),
            f.width_contribution_fn == Some(WidthContribution::Interspersed),
    {
        Features::default_features()
    }

    fn write_data_cell_line(&mut self, ctx: &RenderContext, cell: &CellContext) -> (s: String)
        ensures
            exists|t: Seq<char>| s@ == spec_debug_cell_line(*ctx, t),
    {
        debug_cell_line(ctx, cell)
    }

    fn write_header_cell_line(&mut self, ctx: &RenderContext, cell: &CellContext) -> (s: String)
        ensures
            exists|t: Seq<char>| s@ == spec_debug_cell_line(*ctx, t),
    {
        debug_cell_line(ctx, cell)
    }

    fn write_footer_cell_line(&mut self, ctx: &RenderContext, cell: &CellContext) -> (s: String)
        ensures
            exists|t: Seq<char>| s@ == spec_debug_cell_line(*ctx, t),
    {
        debug_cell_line(ctx, cell)
    }

    fn write_table_start(&mut self, ctx: &RenderContext) -> (s: String)
        ensures
            s@ == spec_debug_line("write_table_start"@, *ctx),
    {
        debug_line("write_table_start", ctx)
    }

    fn write_table_end(&mut self, ctx: &RenderContext) -> (s: String)
        ensures
            s@ == spec_debug_line("write_table_end"@, *ctx),
    {
        debug_line("write_table_end", ctx)
    }

    fn write_header_start(&mut self, ctx: &RenderContext) -> (s: String)
        ensures
            s@ == spec_debug_line("write_header_start"@, *ctx),
    {
        debug_line("write_header_start", ctx)
    }

    fn write_header_end(&mut self, ctx: &RenderContext) -> (s: String)
        ensures
            s@ == spec_debug_line("write_header_end"@, *ctx),
    {
        debug_line("write_header_end", ctx)
    }

    fn write_data_start(&mut self, ctx: &RenderContext) -> (s: String)
        ensures
            s@ == spec_debug_line("write_data_start"@, *ctx),
    {
        debug_line("write_data_start", ctx)
    }

    fn write_data_end(&mut self, ctx: &RenderContext) -> (s: String)
        ensures
            s@ == spec_debug_line("write_data_end"@, *ctx),
    {
        debug_line("write_data_end", ctx)
    }

    fn write_footer_start(&mut self, ctx: &RenderContext) -> (s: String)
        ensures
            s@ == spec_debug_line("write_footer_start"@, *ctx),
    {
        debug_line("write_footer_start", ctx)
    }

    fn write_footer_end(&mut self, ctx: &RenderContext) -> (s: String)
        ensures
            s@ == spec_debug_line("write_footer_end"@, *ctx),
    {
        debug_line("write_footer_end", ctx)
    }

    fn write_header_row_start(&mut self, ctx: &RenderContext) -> (s: String)
        ensures
            s@ == spec_debug_line("write_header_row_start"@, *ctx),
    {
        debug_line("write_header_row_start", ctx)
    }

    fn write_header_row_end(&mut self, ctx: &RenderContext) -> (s: String)
        ensures
            s@ == spec_debug_line("write_header_row_end"@, *ctx),
    {
        debug_line("write_header_row_end", ctx)
    }

    fn write_data_row_start(&mut self, ctx: &RenderContext) -> (s: String)
        ensures
            s@ == spec_debug_line("write_data_row_start"@, *ctx),
    {
        debug_line("write_data_row_start", ctx)
    }

    fn write_data_row_end(&mut self, ctx: &RenderContext) -> (s: String)
        ensures
            s@ == spec_debug_line("write_data_row_end"@, *ctx),
    {
        debug_line("write_data_row_end", ctx)
    }

    fn write_footer_row_start(&mut self, ctx: &RenderContext) -> (s: String)
        ensures
            s@ == spec_debug_line("write_footer_row_start"@, *ctx),
    {
        debug_line("write_footer_row_start", ctx)
    }

    fn write_footer_row_end(&mut self, ctx: &RenderContext) -> (s: String)
        ensures
            s@ == spec_debug_line("write_footer_row_end"@, *ctx),
    {
        debug_line("write_footer_row_end", ctx)
    }

    fn write_header_cell_start(&mut self, ctx: &RenderContext) -> (s: String)
        ensures
            s@ == spec_debug_line("write_header_cell_start"@, *ctx),
    {
        debug_line("write_header_cell_start", ctx)
    }

    fn write_header_cell_end(&mut self, ctx: &RenderContext) -> (s: String)
        ensures
            s@ == spec_debug_line("write_header_cell_end"@, *ctx),
    {
        debug_line("write_header_cell_end", ctx)
    }

    fn write_data_cell_start(&mut self, ctx: &RenderContext) -> (s: String)
        ensures
            s@ == spec_debug_line("write_data_cell_start"@, *ctx),
    {
        debug_line("write_data_cell_start", ctx)
    }

    fn write_data_cell_end(&mut self, ctx: &RenderContext) -> (s: String)
        ensures
            s@ == spec_debug_line("write_data_cell_end"@, *ctx),
    {
        debug_line("write_data_cell_end", ctx)
    }

    fn write_footer_cell_start(&mut self, ctx: &RenderContext) -> (s: String)
        ensures
            s@ == spec_debug_line("write_footer_cell_start"@, *ctx),
    {
        debug_line("write_footer_cell_start", ctx)
    }

    fn write_footer_cell_end(&mut self, ctx: &RenderContext) -> (s: String)
        ensures
            s@ == spec_debug_line("write_footer_cell_end"@, *ctx),
    {
        debug_line("write_footer_cell_end", ctx)
    }

    fn write_header_line_start(&mut self, ctx: &RenderContext) -> (s: String)
        ensures
            s@ == spec_debug_line("write_header_line_start"@, *ctx),
    {
        debug_line("write_header_line_start", ctx)
    }

    fn write_header_line_end(&mut self, ctx: &RenderContext) -> (s: String)
        ensures
            s@ == spec_debug_line("write_header_line_end"@, *ctx),
    {
        debug_line("write_header_line_end", ctx)
    }

    fn write_data_line_start(&mut self, ctx: &RenderContext) -> (s: String)
        ensures
            s@ == spec_debug_line("write_data_line_start"@, *ctx),
    {
        debug_line("write_data_line_start", ctx)
    }

    fn write_data_line_end(&mut self, ctx: &RenderContext) -> (s: String)
        ensures
            s@ == spec_debug_line("write_data_line_end"@, *ctx),
    {
        debug_line("write_data_line_end", ctx)
    }

    fn write_footer_line_start(&mut self, ctx: &RenderContext) -> (s: String)
        ensures
            s@ == spec_debug_line("write_footer_line_start"@, *ctx),
    {
        debug_line("write_footer_line_start", ctx)
    }

    fn write_footer_line_end(&mut self, ctx: &RenderContext) -> (s: String)
        ensures
            s@ == spec_debug_line("write_footer_line_end"@, *ctx),
    {
        debug_line("write_footer_line_end", ctx)
    }

    fn write_header_cell_line_start(&mut self, ctx: &RenderContext) -> (s: String)
        ensures
            s@ == spec_debug_line("write_header_cell_line_start"@, *ctx),
    {
        debug_line("write_header_cell_line_start", ctx)
    }

    fn write_header_cell_line_end(&mut self, ctx: &RenderContext) -> (s: String)
        ensures
            s@ == spec_debug_line("write_header_cell_line_end"@, *ctx),
    {
        debug_line("write_header_cell_line_end", ctx)
    }

    fn write_data_cell_line_start(&mut self, ctx: &RenderContext) -> (s: String)
        ensures
            s@ == spec_debug_line("write_data_cell_line_start"@, *ctx),
    {
        debug_line("write_data_cell_line_start", ctx)
    }

    fn write_data_cell_line_end(&mut self, ctx: &RenderContext) -> (s: String)
        ensures
            s@ == spec_debug_line("write_data_cell_line_end"@, *ctx),
    {
        debug_line("write_data_cell_line_end", ctx)
    }

    fn write_footer_cell_line_start(&mut self, ctx: &RenderContext) -> (s: String)
        ensures
            s@ == spec_debug_line("write_footer_cell_line_start"@, *ctx),
    {
        debug_line("write_footer_cell_line_start", ctx)
    }

    fn write_footer_cell_line_end(&mut self, ctx: &RenderContext) -> (s: String)
        ensures
            s@ == spec_debug_line("write_footer_cell_line_end"@, *ctx),
    {
        debug_line("write_footer_cell_line_end", ctx)
    }

    fn init(&mut self, ctx: &RenderContext) {
    }
}

} // verus!
