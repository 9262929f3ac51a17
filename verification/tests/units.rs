use table_gen::align::HorzAlign;
use table_gen::basic::md_pipe::MarkdownPipeRenderer as PlainPipeRenderer;
use table_gen::basic::md_simple::MarkdownSimpleRenderer;
use table_gen::basic::minimal::MinimalRenderer as PlainMinimalRenderer;
use table_gen::basic::render::Renderer as PlainRenderer;
use table_gen::cell::write_cell_formatted;
use table_gen::collate::{ColSpec, Collate, CollateRow};
use table_gen::context::RenderContext;
use table_gen::features::SupportFlags;
use table_gen::sort::ColumnOrdFlags;
use table_gen::terminal::box_grid::BoxGridStyle;
use table_gen::terminal::box_tile::BoxTileStyle;
use table_gen::driver::{bounds_to_selection, Event, Hook, Part, RowBound, Table};
use table_gen::features::{LateFormat, WidthContribution};
use table_gen::format::{CellValue, DisplayFmt, Sign};
use table_gen::markdown::ws_trim::TrailingWsTrimWriter;
use table_gen::row::Order;
use table_gen::sort::{compare_rows, sort_rows, ColumnOrd};
use table_gen::split::{Format, FormatRow};
use table_gen::style::Style;
use table_gen::terminal::debug::DebugRenderer;
use table_gen::terminal::line_style::{LineShape, LineStyle};
use table_gen::terminal::minimal::MinimalRenderer;
use table_gen::text::single_line;
use table_gen::table_width::width_excess;
use table_gen::unicode::{
    truncate_text, unicode_display_width, unicode_grapheme_aware_truncation, TruncateState,
};
use table_gen::wrap::WrapOptions;

fn text(s: &str) -> CellValue {
    CellValue::Text(s.to_string())
}

#[test]
fn truncation_keeps_prefix_suffix_or_middle() {
    let (t, s) = unicode_grapheme_aware_truncation("hello world", 11, 5, HorzAlign::Left);
    assert_eq!((t.as_str(), s), ("hello", TruncateState::Right(5)));
    let (t, s) = unicode_grapheme_aware_truncation("hello world", 11, 5, HorzAlign::Right);
    assert_eq!((t.as_str(), s), ("world", TruncateState::Left(5)));
    let (t, s) = unicode_grapheme_aware_truncation("hello world", 11, 5, HorzAlign::Center);
    assert_eq!((t.as_str(), s), ("lo wo", TruncateState::Both(5)));
    let (t, s) = unicode_grapheme_aware_truncation("short", 5, 9, HorzAlign::Center);
    assert_eq!((t.as_str(), s), ("short", TruncateState::Neither(5)));
    let (t, s) = unicode_grapheme_aware_truncation("short", 5, 0, HorzAlign::Left);
    assert_eq!((t.as_str(), s), ("", TruncateState::Neither(0)));
}

#[test]
fn truncation_respects_wide_clusters() {
    let r = truncate_text("ab你好", 4, HorzAlign::Left).unwrap();
    assert_eq!((r.0.as_str(), r.1), ("ab你", TruncateState::Right(4)));
    let r = truncate_text("ab你好", 3, HorzAlign::Right).unwrap();
    assert_eq!((r.0.as_str(), r.1), ("好", TruncateState::Left(2)));
}

#[test]
fn display_width_of_wide_and_combining_text() {
    assert_eq!(unicode_display_width("abc"), 3);
    assert_eq!(unicode_display_width("你好"), 4);
    assert_eq!(unicode_display_width("e\u{301}"), 1);
}

#[test]
fn cell_lines_fill_their_cells() {
    assert_eq!(write_cell_formatted("hello world", 11, 6, HorzAlign::Left, "…"), "hello…");
    assert_eq!(write_cell_formatted("hello world", 11, 6, HorzAlign::Right, "…"), "…world");
    assert_eq!(write_cell_formatted("hello world", 11, 7, HorzAlign::Center, "…"), "…lo wo…");
    assert_eq!(write_cell_formatted("ab", 2, 5, HorzAlign::Center, "…"), " ab  ");
    assert_eq!(write_cell_formatted("ab", 2, 5, HorzAlign::Right, "…"), "   ab");
}

#[test]
fn display_formats() {
    let plus = DisplayFmt::new().with_sign(Some(Sign::Plus));
    assert_eq!(plus.apply(&CellValue::Int(5)), "+5");
    assert_eq!(plus.apply(&CellValue::Int(-5)), "-5");
    assert_eq!(DisplayFmt::new().apply(&CellValue::UInt(170000)), "170000");
    let prec = DisplayFmt::new().with_precision(Some(3));
    assert_eq!(prec.apply(&text("abcdef")), "abc");
    assert_eq!(prec.apply(&CellValue::Bool(false)), "fal");
    assert_eq!(DisplayFmt::new().apply(&CellValue::Bool(true)), "true");
}

#[test]
fn styles_render_sgr_sequences() {
    let plain = Style::new();
    assert_eq!(plain.render(), "");
    assert_eq!(plain.render_reset(), "");
    let st = Style { bold: true, dimmed: false, italic: false, underline: true, fg: Some(196), bg: Some(7) };
    assert_eq!(st.render(), "\x1b[1;4;38;5;196;48;5;7m");
    assert_eq!(st.render_reset(), "\x1b[0m");
}

#[test]
fn line_shapes_pick_box_characters() {
    assert_eq!(LineShape::Light.horz(), '─');
    assert_eq!(LineShape::Double.vert(), '║');
    assert_eq!(LineShape::Light.corner_top_left(LineShape::Light, true), '╭');
    assert_eq!(LineShape::Light.corner_top_left(LineShape::Light, false), '┌');
    assert_eq!(LineShape::Empty.horz(), ' ');
    assert_eq!(LineShape::Empty.fallback(), LineShape::Empty);
    let ls = LineStyle::new(LineShape::Heavy);
    assert_eq!(ls.horz().render(), "━");
}

#[test]
fn trailing_whitespace_is_trimmed_at_line_breaks() {
    let mut w = TrailingWsTrimWriter::new();
    assert_eq!(w.write("ab  \t"), "ab");
    assert_eq!(w.write("c\r\n"), "  \tc\r\n");
    assert_eq!(w.write("x   \n"), "x\n");
    assert_eq!(w.write("y  "), "y");
    assert_eq!(w.into_inner(), "  ");
    let mut w = TrailingWsTrimWriter::new();
    assert_eq!(w.write("z \t"), "z");
    w.clear_pending();
    assert_eq!(w.flush_pending(), "");
}

#[test]
fn width_contributions() {
    assert_eq!(WidthContribution::Interspersed.eval(0), 0);
    assert_eq!(WidthContribution::Interspersed.eval(3), 2);
    assert_eq!(WidthContribution::Linear { per_column: 4, fixed: 0 }.eval(3), 12);
    assert_eq!(WidthContribution::Linear { per_column: 3, fixed: 1 }.eval(2), 7);
    assert_eq!(WidthContribution::Linear { per_column: usize::MAX, fixed: 1 }.eval(2), usize::MAX);
}

#[test]
fn late_format_wraps_selected_columns() {
    let all = LateFormat { wrap_options: WrapOptions::new(), wrap_columns: None };
    assert_eq!(all.apply("aaa bbb", 0, 3), "aaa\nbbb");
    let some = LateFormat { wrap_options: WrapOptions::new(), wrap_columns: Some(vec![1]) };
    assert_eq!(some.apply("aaa bbb", 0, 3), "aaa bbb");
    assert_eq!(some.apply("aaa bbb", 1, 3), "aaa\nbbb");
}

#[test]
fn row_comparison_is_antisymmetric() {
    let descs: Vec<ColSpec> = vec![];
    let none: Vec<usize> = vec![];
    let a = FormatRow::new(CollateRow::new(vec![CellValue::Int(1), text("b")], &none), &descs);
    let b = FormatRow::new(CollateRow::new(vec![CellValue::Int(2), text("a")], &none), &descs);
    let by0 = [ColumnOrd::new(0)];
    assert_eq!(compare_rows(&a, &b, &by0), Order::Less);
    assert_eq!(compare_rows(&b, &a, &by0), Order::Greater);
    assert_eq!(compare_rows(&a, &a, &by0), Order::Equal);
    let rev = [ColumnOrd::new(0).with_reversed_order()];
    assert_eq!(compare_rows(&a, &b, &rev), Order::Greater);
    let by1 = [ColumnOrd::new(1).with_formatted_order()];
    assert_eq!(compare_rows(&a, &b, &by1), Order::Greater);
    let mixed = FormatRow::new(CollateRow::new(vec![text("x")], &none), &descs);
    assert_eq!(compare_rows(&a, &mixed, &by0), Order::Equal);
}

#[test]
fn absent_cells_order_after_present_ones_unless_none_less() {
    let descs: Vec<ColSpec> = vec![];
    let none: Vec<usize> = vec![];
    let full = FormatRow::new(CollateRow::new(vec![Some(CellValue::Int(1))], &none), &descs);
    let empty = FormatRow::new(CollateRow::new(vec![None::<CellValue>], &none), &descs);
    let by0 = [ColumnOrd::new(0)];
    assert_eq!(compare_rows(&empty, &full, &by0), Order::Greater);
    let nl = [ColumnOrd::new(0).with_none_lt_order()];
    assert_eq!(compare_rows(&empty, &full, &nl), Order::Less);
}

#[test]
fn sorting_is_stable() {
    let data = vec![
        vec![CellValue::Int(1), text("a")],
        vec![CellValue::Int(0), text("b")],
        vec![CellValue::Int(1), text("c")],
        vec![CellValue::Int(0), text("d")],
    ];
    let order = [ColumnOrd::new(0)];
    let mut table = Table::new_builder(data, MinimalRenderer::new()).with_sort_columns(&order).finish();
    assert_eq!(table.render(), "0 b\n0 d\n1 a\n1 c\n");
}

#[test]
fn row_selection_after_sorting() {
    let data: Vec<Vec<CellValue>> = (0..10).map(|i| vec![CellValue::UInt(9 - i)]).collect();
    let order = [ColumnOrd::new(0)];
    let mut table = Table::new_builder(data, MinimalRenderer::new())
        .with_sort_columns(&order)
        .with_row_selection(3..7)
        .finish();
    assert_eq!(table.render(), "3\n4\n5\n6\n");
}

#[test]
fn events_follow_the_table_structure() {
    let data = vec![vec![CellValue::Int(7)]];
    let table = Table::new_builder(data, MinimalRenderer::new()).finish();
    let ev = |hook, part, row, col, line| Event { hook, part, row, col, line };
    let r = Some(0);
    let expected = vec![
        ev(Hook::Init, Part::Data, None, None, None),
        ev(Hook::TableStart, Part::Data, None, None, None),
        ev(Hook::SectionStart, Part::Data, None, None, None),
        ev(Hook::RowStart, Part::Data, r, None, None),
        ev(Hook::LineStart, Part::Data, r, None, Some(0)),
        ev(Hook::CellStart, Part::Data, r, Some(0), Some(0)),
        ev(Hook::CellLineStart, Part::Data, r, Some(0), Some(0)),
        ev(Hook::CellLine, Part::Data, r, Some(0), Some(0)),
        ev(Hook::CellLineEnd, Part::Data, r, Some(0), Some(0)),
        ev(Hook::CellEnd, Part::Data, r, Some(0), Some(0)),
        ev(Hook::LineEnd, Part::Data, r, None, Some(0)),
        ev(Hook::RowEnd, Part::Data, r, None, None),
        ev(Hook::SectionEnd, Part::Data, r, None, None),
        ev(Hook::TableEnd, Part::Data, r, None, None),
    ];
    assert_eq!(table.events(), expected);
}

#[test]
fn debug_renderer_names_each_hook() {
    let data = vec![vec![CellValue::Int(7)]];
    let mut table = Table::new_builder(data, DebugRenderer).finish();
    let out = table.render();
    assert!(out.starts_with("write_table_start(row: None, col: None, line: None)\n"));
    assert!(out.contains("write_data_row_start(row: Some(0), col: None, line: None)\n"));
    assert!(out.contains("write_data_cell_line(row: Some(0), col: Some(0), line: Some(0), CellContext {"));
    assert!(out.ends_with("write_table_end(row: Some(0), col: None, line: None)\n"));
}

#[test]
fn plain_pipe_renderer_draws_blank_header_and_divider() {
    let descs: Vec<ColSpec> = vec![];
    let mut r = PlainPipeRenderer::new();
    r.init(&descs, 1, &[3, 4]);
    assert_eq!(r.write_data_start(), "|     |      |\n|-----|------|\n");
    assert_eq!(r.write_data_cell_line(0, 0, 0, "ab", 3, HorzAlign::Right), " ab");
    assert_eq!(r.write_data_cell_line_start(0, 0, 0), "| ");
    assert_eq!(r.write_data_cell_line_end(0, 0, 0), " | ");
    assert_eq!(r.write_data_cell_line_end(0, 1, 0), " |");
}

#[test]
fn plain_simple_renderer_draws_rules() {
    let descs: Vec<ColSpec> = vec![];
    let mut r = MarkdownSimpleRenderer::new();
    r.init(&descs, 2, &[3]);
    assert_eq!(r.write_data_start(), "-----\n");
    assert_eq!(r.write_data_end(), "-----\n");
    assert_eq!(r.write_data_cell_line(0, 0, 0, "ab", 3, HorzAlign::Left), "ab   ");
}

#[test]
fn plain_minimal_renderer_separates_cells() {
    let descs: Vec<ColSpec> = vec![];
    let mut r = PlainMinimalRenderer::new();
    r.init(&descs, 1, &[2, 3]);
    assert_eq!(r.write_data_cell_line_end(0, 0, 0), " ");
    assert_eq!(r.write_data_cell_line_end(0, 1, 0), "");
    assert_eq!(r.write_data_cell_line(0, 0, 0, "a", 3, HorzAlign::Center), " a ");
}

#[test]
fn collate_and_format_pipeline_selects_and_formats_columns() {
    let rows: Vec<Vec<CellValue>> = vec![
        vec![CellValue::Int(1), text("a"), CellValue::Bool(true)],
        vec![CellValue::Int(-2), text("b"), CellValue::Bool(false)],
    ];
    let cols = [2usize, 0];
    let specs = [ColSpec::new(), ColSpec::new().with_col_fmt(DisplayFmt::new().with_sign(Some(Sign::Plus)))];
    let ords = [ColumnOrd::new(1)];
    let collate = Collate::new(rows).with_columns(&cols).with_col_specs(&specs).with_col_ords(&ords);
    assert_eq!(collate.cols(), &[2, 0]);
    assert_eq!(collate.col_specs().len(), 2);
    assert_eq!(collate.col_ords(), &[ColumnOrd::new(1)]);
    let format = Format::new(collate);
    assert_eq!(format.column_selection(), &[2, 0]);
    assert_eq!(format.column_descs().len(), 2);
    assert_eq!(format.column_order().len(), 1);
    let out = format.into_rows(false);
    assert_eq!(out.len(), 2);
    assert_eq!((out[0].text(0), out[0].text(1)), ("true", "+1"));
    assert_eq!((out[1].text(0), out[1].text(1)), ("false", "-2"));
}

#[test]
fn collate_without_selection_keeps_rows() {
    let rows: Vec<Vec<CellValue>> = vec![vec![text("x"), text("y")]];
    let collate = Collate::new(rows);
    assert!(collate.cols().is_empty());
    let out = collate.into_rows();
    assert_eq!(out.len(), 1);
    assert_eq!(out[0].col_select.len(), 0);
    assert_eq!(out[0].inner, vec![text("x"), text("y")]);
}

#[test]
fn table_widths_can_be_read_and_replaced() {
    let data = vec![vec![text("abc"), text("de")], vec![text("a\nwxyz"), text("")]];
    let table = Table::new_builder(data, MinimalRenderer::new()).finish();
    assert_eq!(table.col_widths(), &[4, 2]);
    assert_eq!(table.extra_column_width(), 0);
    assert!(table.str_width_fn().is_some());
    assert_eq!(table.width_contribution(), 1);
    let m = table.str_width_fn().unwrap();
    assert_eq!(table.column_cell_widths(0, m), vec![Some(3), Some(4)]);
    assert_eq!(table.column_cell_widths(1, m), vec![Some(2), Some(0)]);
    assert_eq!(table.column_cell_widths(2, m), vec![None, None]);
    let mut table = table.with_col_widths(vec![5, 3]);
    assert_eq!(table.col_widths(), &[5, 3]);
    assert_eq!(table.render(), "abc   de \na        \nwxyz     \n");
}

#[test]
fn sortable_when_formatted_orderings_name_existing_columns() {
    let data = vec![vec![text("b"), text("x")], vec![text("a")]];
    let order = [ColumnOrd::new(1).with_formatted_order()];
    let builder = Table::new_builder(data.clone(), MinimalRenderer::new()).with_sort_columns(&order);
    assert!(!builder.is_sortable());
    let order = [ColumnOrd::new(0).with_formatted_order()];
    let builder = Table::new_builder(data.clone(), MinimalRenderer::new()).with_sort_columns(&order);
    assert!(builder.is_sortable());
    let table = builder.finish();
    assert_eq!(table.column_cell_widths(1, table.str_width_fn().unwrap()), vec![None, Some(1)]);
    let order = [ColumnOrd::new(5)];
    let builder = Table::new_builder(data, MinimalRenderer::new()).with_sort_columns(&order);
    assert!(builder.is_sortable());
}

#[test]
fn initial_widths_come_from_headers() {
    let data = vec![vec![text("a"), text("bb")]];
    let descs = [ColSpec::new().with_header("Name"), ColSpec::new().with_header("Qty\nx")];
    let table = Table::new_builder(data, MinimalRenderer::new()).with_column_descs(&descs).finish();
    let m = table.str_width_fn().unwrap();
    assert_eq!(table.initial_widths(m), vec![4, 3]);
    assert_eq!(table.col_widths(), &[4, 3]);
}

#[test]
fn headerless_when_a_described_column_has_a_header() {
    let default = ColSpec::new();
    let descs = [ColSpec::new().with_header("H0")];
    let widths = [6usize, 1];
    let ctx = RenderContext {
        default_col_desc: &default,
        col_descs: &descs,
        col_widths: &widths,
        row_count: 2,
        row: None,
        col: None,
        line: None,
    };
    assert!(!ctx.is_headerless());
    assert!(ctx.is_footerless());
}

#[test]
fn headerless_uses_default_past_the_described_columns() {
    let default = ColSpec::new().with_header("D").with_footer("F");
    let descs = [ColSpec::new()];
    let widths = [3usize, 2];
    let ctx = RenderContext {
        default_col_desc: &default,
        col_descs: &descs,
        col_widths: &widths,
        row_count: 0,
        row: None,
        col: None,
        line: None,
    };
    assert!(!ctx.is_headerless());
    assert!(!ctx.is_footerless());
    let narrow = [3usize];
    let ctx = RenderContext { col_widths: &narrow, ..ctx };
    assert!(ctx.is_headerless());
    assert!(ctx.is_footerless());
    let empty_default = ColSpec::new();
    let ctx = RenderContext { default_col_desc: &empty_default, col_widths: &widths, ..ctx };
    assert!(ctx.is_headerless());
}

#[test]
fn defaults_equal_new() {
    assert_eq!(DisplayFmt::default(), DisplayFmt::new());
    assert_eq!(SupportFlags::default(), SupportFlags::new());
    assert_eq!(SupportFlags::default().bits(), 1);
    assert_eq!(ColumnOrdFlags::default(), ColumnOrdFlags(0));
    assert_eq!(BoxGridStyle::default(), BoxGridStyle::new());
    assert_eq!(BoxTileStyle::default(), BoxTileStyle::new());
    let d = ColSpec::default();
    let n = ColSpec::new();
    assert_eq!(d.header, n.header);
    assert_eq!(d.footer, n.footer);
    assert_eq!(d.col_fmt, n.col_fmt);
    assert_eq!(d.min_width, 0);
    assert_eq!(d.max_width, usize::MAX);
    assert_eq!(d.horz_align, n.horz_align);
}

#[test]
fn single_line_joins_lines_with_spaces() {
    assert_eq!(single_line("a\nb\r\nc\n"), "a b c");
    assert_eq!(single_line("one"), "one");
    assert_eq!(single_line(""), "");
    assert_eq!(single_line("x\n\ny"), "x  y");
    let descs: Vec<ColSpec> = vec![];
    let none: Vec<usize> = vec![];
    let joined = FormatRow::new_with_lines(CollateRow::new(vec![text("p\nq")], &none), &descs, true);
    assert_eq!(joined.text(0), "p q");
    let kept = FormatRow::new(CollateRow::new(vec![text("p\nq")], &none), &descs);
    assert_eq!(kept.text(0), "p\nq");
}

#[test]
fn sorted_rows_are_ordered_pairwise_and_stable() {
    let descs: Vec<ColSpec> = vec![];
    let none: Vec<usize> = vec![];
    let keys = [(3i64, "a"), (1, "b"), (2, "c"), (1, "d"), (3, "e")];
    let rows: Vec<_> = keys
        .iter()
        .map(|(k, t)| FormatRow::new(CollateRow::new(vec![CellValue::Int(*k), text(t)], &none), &descs))
        .collect();
    let by0 = [ColumnOrd::new(0)];
    let sorted = sort_rows(rows, &by0);
    let tags: Vec<&str> = sorted.iter().map(|r| r.text(1)).collect();
    assert_eq!(tags, vec!["b", "d", "c", "a", "e"]);
    for i in 0..sorted.len() {
        for j in (i + 1)..sorted.len() {
            assert_ne!(compare_rows(&sorted[i], &sorted[j], &by0), Order::Greater);
        }
    }
}

#[test]
fn row_bounds_select_like_ranges() {
    let rows = || (0..10).map(|i| vec![CellValue::UInt(9 - i)]).collect::<Vec<Vec<CellValue>>>();
    let order = [ColumnOrd::new(0)];
    let render = |start, end| {
        let mut table = Table::new_builder(rows(), MinimalRenderer::new())
            .with_sort_columns(&order)
            .with_row_bounds(start, end)
            .finish();
        table.render()
    };
    assert_eq!(render(RowBound::Included(3), RowBound::Excluded(7)), "3\n4\n5\n6\n");
    assert_eq!(render(RowBound::Excluded(6), RowBound::Unbounded), "7\n8\n9\n");
    assert_eq!(render(RowBound::Unbounded, RowBound::Included(1)), "0\n1\n");
    assert_eq!(render(RowBound::Excluded(usize::MAX), RowBound::Unbounded), "");
    assert_eq!(bounds_to_selection(RowBound::Unbounded, RowBound::Included(usize::MAX)), (0, None));
    assert_eq!(bounds_to_selection(RowBound::Excluded(2), RowBound::Included(4)), (3, Some(5)));
}

#[test]
fn width_excess_measures_overflow_and_underflow() {
    assert_eq!(width_excess(&[3, 4, 5], 0, 10), (2, 0));
    assert_eq!(width_excess(&[3, 4, 5], 20, usize::MAX), (0, 8));
    assert_eq!(width_excess(&[3, 4, 5], 12, 12), (0, 0));
    assert_eq!(width_excess(&[usize::MAX, 7], 0, usize::MAX - 1), (1, 0));
    assert_eq!(width_excess(&[], 5, 9), (0, 5));
}

#[test]
fn sorted_single_kind_rows_are_ordered_pairwise_by_text_too() {
    let descs: Vec<ColSpec> = vec![];
    let none: Vec<usize> = vec![];
    let words = ["pear", "apple", "fig", "apple", "banana"];
    let rows: Vec<_> = words
        .iter()
        .enumerate()
        .map(|(i, w)| FormatRow::new(CollateRow::new(vec![text(w), CellValue::UInt(i as u64)], &none), &descs))
        .collect();
    let by0 = [ColumnOrd::new(0).with_reversed_order()];
    let sorted = sort_rows(rows, &by0);
    let order: Vec<(&str, &str)> = sorted.iter().map(|r| (r.text(0), r.text(1))).collect();
    assert_eq!(order, vec![("pear", "0"), ("fig", "2"), ("banana", "4"), ("apple", "1"), ("apple", "3")]);
    for i in 0..sorted.len() {
        for j in (i + 1)..sorted.len() {
            assert_ne!(compare_rows(&sorted[i], &sorted[j], &by0), Order::Greater);
        }
    }
}
