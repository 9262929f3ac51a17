use table_gen::align::{HorzAlign, VertAlign};
use table_gen::collate::ColSpec;
use table_gen::driver::Table;
use table_gen::format::CellValue;
use table_gen::sort::ColumnOrd;
use table_gen::terminal::box_grid::{BoxGridRenderer, BoxGridStyle};
use table_gen::terminal::box_tile::{BoxTileRenderer, BoxTileStyle};
use table_gen::terminal::line_style::LineShape;
use table_gen::terminal::minimal::MinimalRenderer;

fn uint_rows(values: &[u64]) -> Vec<Vec<CellValue>> {
    values.iter().map(|v| vec![CellValue::UInt(*v)]).collect()
}

fn int_rows(values: &[i64]) -> Vec<Vec<CellValue>> {
    values.iter().map(|v| vec![CellValue::Int(*v)]).collect()
}

fn text(s: &str) -> CellValue {
    CellValue::Text(s.to_string())
}

fn aligned_descs<'a>(headers: bool) -> Vec<ColSpec<'a>> {
    let (r, l, c) = if headers { ("Right", "Left", "Center") } else { ("", "", "") };
    vec![
        ColSpec::new().with_header(r).with_horz_align(HorzAlign::Right),
        ColSpec::new().with_header(l).with_horz_align(HorzAlign::Left),
        ColSpec::new().with_header(c).with_horz_align(HorzAlign::Center),
    ]
}

#[test]
fn box_tile_empty_table() {
    let data: Vec<Vec<CellValue>> = vec![];
    let mut table = Table::new_builder(data, BoxTileRenderer::new()).finish();
    assert_eq!(table.render(), "");
}

#[test]
fn box_tile_array_table_single_column() {
    let data = uint_rows(&[1, 2000, 10, 30000, 100]);
    let order = [ColumnOrd::new(0).with_reversed_order()];
    let mut table = Table::new_builder(data, BoxTileRenderer::new())
        .with_sort_columns(&order)
        .finish();
    assert_eq!(table.render(), "\
┌───────┐
│ 30000 │
└───────┘
┌───────┐
│ 2000  │
└───────┘
┌───────┐
│ 100   │
└───────┘
┌───────┐
│ 10    │
└───────┘
┌───────┐
│ 1     │
└───────┘
");
}

#[test]
fn box_tile_simple_table() {
    let data = int_rows(&[12, 123, 1, -8000]);
    let descs = aligned_descs(true);
    let select = [0, 0, 0];
    let mut table = Table::new_builder(data, BoxTileRenderer::new())
        .with_column_descs(&descs)
        .with_column_selection(&select)
        .finish();
    assert_eq!(table.render(), "\
╔═══════╗╔═══════╗╔════════╗
║ Right ║║ Left  ║║ Center ║
╚═══════╝╚═══════╝╚════════╝
┌───────┐┌───────┐┌────────┐
│    12 ││ 12    ││   12   │
└───────┘└───────┘└────────┘
┌───────┐┌───────┐┌────────┐
│   123 ││ 123   ││  123   │
└───────┘└───────┘└────────┘
┌───────┐┌───────┐┌────────┐
│     1 ││ 1     ││   1    │
└───────┘└───────┘└────────┘
┌───────┐┌───────┐┌────────┐
│ -8000 ││ -8000 ││ -8000  │
└───────┘└───────┘└────────┘
");
}

#[test]
fn box_tile_simple_table_no_headers() {
    let data = int_rows(&[12, 123, 1, -8000]);
    let descs = aligned_descs(false);
    let select = [0, 0, 0];
    let mut table = Table::new_builder(data, BoxTileRenderer::new())
        .with_column_descs(&descs)
        .with_column_selection(&select)
        .finish();
    assert_eq!(table.render(), "\
┌───────┐┌───────┐┌───────┐
│    12 ││ 12    ││  12   │
└───────┘└───────┘└───────┘
┌───────┐┌───────┐┌───────┐
│   123 ││ 123   ││  123  │
└───────┘└───────┘└───────┘
┌───────┐┌───────┐┌───────┐
│     1 ││ 1     ││   1   │
└───────┘└───────┘└───────┘
┌───────┐┌───────┐┌───────┐
│ -8000 ││ -8000 ││ -8000 │
└───────┘└───────┘└───────┘
");
}

#[test]
fn box_grid_empty_table() {
    let data: Vec<Vec<CellValue>> = vec![];
    let mut table = Table::new_builder(data, BoxGridRenderer::new()).finish();
    assert_eq!(table.render(), "");
}

#[test]
fn box_grid_array_table_single_column() {
    let data = uint_rows(&[1, 2000, 10, 30000, 100]);
    let order = [ColumnOrd::new(0).with_reversed_order()];
    let mut table = Table::new_builder(data, BoxGridRenderer::new())
        .with_sort_columns(&order)
        .finish();
    assert_eq!(table.render(), "\
┌───────┐
│ 30000 │
├───────┤
│ 2000  │
├───────┤
│ 100   │
├───────┤
│ 10    │
├───────┤
│ 1     │
└───────┘
");
}

#[test]
fn box_grid_simple_table() {
    let data = int_rows(&[12, 123, 1, -8000]);
    let descs = aligned_descs(true);
    let select = [0, 0, 0];
    let mut table = Table::new_builder(data, BoxGridRenderer::new())
        .with_column_descs(&descs)
        .with_column_selection(&select)
        .finish();
    assert_eq!(table.render(), "\
┌───────┬───────┬────────┐
│ Right ┆ Left  ┆ Center │
╞═══════╪═══════╪════════╡
│    12 ┆ 12    ┆   12   │
├───────┼───────┼────────┤
│   123 ┆ 123   ┆  123   │
├───────┼───────┼────────┤
│     1 ┆ 1     ┆   1    │
├───────┼───────┼────────┤
│ -8000 ┆ -8000 ┆ -8000  │
└───────┴───────┴────────┘
");
}

#[test]
fn box_grid_simple_table_no_headers() {
    let data = int_rows(&[12, 123, 1, -8000]);
    let descs = aligned_descs(false);
    let select = [0, 0, 0];
    let mut table = Table::new_builder(data, BoxGridRenderer::new())
        .with_column_descs(&descs)
        .with_column_selection(&select)
        .finish();
    assert_eq!(table.render(), "\
┌───────┬───────┬───────┐
│    12 ┆ 12    ┆  12   │
├───────┼───────┼───────┤
│   123 ┆ 123   ┆  123  │
├───────┼───────┼───────┤
│     1 ┆ 1     ┆   1   │
├───────┼───────┼───────┤
│ -8000 ┆ -8000 ┆ -8000 │
└───────┴───────┴───────┘
");
}

#[test]
fn minimal_empty_table() {
    let data: Vec<Vec<CellValue>> = vec![];
    let mut table = Table::new_builder(data, MinimalRenderer::new()).finish();
    assert_eq!(table.render(), "");
}

#[test]
fn minimal_array_table_single_row() {
    let data = vec![vec![CellValue::UInt(1), CellValue::UInt(10), CellValue::UInt(100), CellValue::UInt(1000)]];
    let select = [0, 2, 3];
    let mut table = Table::new_builder(data, MinimalRenderer::new())
        .with_column_selection(&select)
        .finish();
    assert_eq!(table.render(), "1 100 1000\n");
}

#[test]
fn minimal_array_table_single_column() {
    let data = uint_rows(&[1, 2000, 10, 30000, 100]);
    let order = [ColumnOrd::new(0).with_reversed_order()];
    let mut table = Table::new_builder(data, MinimalRenderer::new())
        .with_sort_columns(&order)
        .finish();
    assert_eq!(table.render(), "\
30000
2000 
100  
10   
1    
");
}

#[test]
fn tuple_table_two_rows_short_column_defs() {
    let data = vec![
        vec![CellValue::Int(-17), text("b")],
        vec![CellValue::Int(170000), text("&")],
    ];
    let specs = vec![ColSpec::new().with_header("H0").with_footer("F0")];
    let mut table = Table::new_builder(data, MinimalRenderer::new())
        .with_column_descs(&specs)
        .finish();
    assert_eq!(table.render(), "\
H0      
-17    b
170000 &
F0      
");
}

#[test]
fn minimal_align_odd() {
    let data = vec![vec![text("1\n2\n3"), text("a\nb")]];
    let column_defs = vec![
        ColSpec::new().with_header("N"),
        ColSpec::new().with_header("<-1->").with_horz_align(HorzAlign::Left).with_vert_align(VertAlign::Top),
        ColSpec::new().with_header("<-2->").with_horz_align(HorzAlign::Center).with_vert_align(VertAlign::Center),
        ColSpec::new().with_header("<-3->").with_horz_align(HorzAlign::Right).with_vert_align(VertAlign::Bottom),
    ];
    let select = [0, 1, 1, 1];
    let mut table = Table::new_builder(data, MinimalRenderer::new())
        .with_column_selection(&select)
        .with_column_descs(&column_defs)
        .finish();
    assert_eq!(table.render(), "\
N <-1-> <-2-> <-3->
1 a       a        
2 b       b       a
3                 b
");
}

#[test]
fn minimal_align_even() {
    let data = vec![vec![text("1\n2\n3\n4"), text("a\nb")]];
    let column_defs = vec![
        ColSpec::new().with_header("N"),
        ColSpec::new().with_header("<-1->").with_horz_align(HorzAlign::Right).with_vert_align(VertAlign::Top),
        ColSpec::new().with_header("<-2->").with_horz_align(HorzAlign::Center).with_vert_align(VertAlign::Center),
        ColSpec::new().with_header("<-3->").with_horz_align(HorzAlign::Left).with_vert_align(VertAlign::Bottom),
    ];
    let select = [0, 1, 1, 1];
    let mut table = Table::new_builder(data, MinimalRenderer::new())
        .with_column_selection(&select)
        .with_column_descs(&column_defs)
        .finish();
    assert_eq!(table.render(), "\
N <-1-> <-2-> <-3->
1     a            
2     b   a        
3         b   a    
4             b    
");
}

/// The rows of the multi-line examples. The third column holds floating-point
/// numbers, which the library does not format: they enter as the text that
/// `Display` gives them.
fn multiline_rows() -> Vec<Vec<CellValue>> {
    let rows: Vec<(&str, &str, f64, &str)> = vec![
        ("First", "row", 12.0, "Example of a row that\nspans multiple lines."),
        ("Second", "row", 5.0, "Here's another one. Note\nthe blank line between\nrows"),
    ];
    rows.into_iter()
        .map(|(a, b, c, d)| {
            vec![
                CellValue::Text(a.to_string()),
                CellValue::Text(b.to_string()),
                CellValue::Text(format!("{}", c)),
                CellValue::Text(d.to_string()),
            ]
        })
        .collect()
}

fn multiline_descs<'a>() -> Vec<ColSpec<'a>> {
    vec![
        ColSpec::new().with_header("Centered\nHeader").with_horz_align(HorzAlign::Center),
        ColSpec::new().with_header("Left\nAligned").with_horz_align(HorzAlign::Left),
        ColSpec::new().with_header("Right\nAligned").with_horz_align(HorzAlign::Right),
        ColSpec::new().with_header("Left\nAligned").with_horz_align(HorzAlign::Left),
    ]
}

#[test]
fn box_grid_multiline_table() {
    let data = multiline_rows();
    let descs = multiline_descs();
    let mut table = Table::new_builder(data, BoxGridRenderer::new())
        .with_column_descs(&descs)
        .finish();
    assert_eq!(table.render(), "\
┌──────────┬─────────┬─────────┬──────────────────────────┐
│ Centered ┆ Left    ┆   Right ┆ Left                     │
│  Header  ┆ Aligned ┆ Aligned ┆ Aligned                  │
╞══════════╪═════════╪═════════╪══════════════════════════╡
│  First   ┆ row     ┆      12 ┆ Example of a row that    │
│          ┆         ┆         ┆ spans multiple lines.    │
├──────────┼─────────┼─────────┼──────────────────────────┤
│  Second  ┆ row     ┆       5 ┆ Here's another one. Note │
│          ┆         ┆         ┆ the blank line between   │
│          ┆         ┆         ┆ rows                     │
└──────────┴─────────┴─────────┴──────────────────────────┘
");
}

#[test]
fn box_grid_multiline_table_alt() {
    let data = multiline_rows();
    let descs = multiline_descs();
    let mut table = Table::new_builder(data, BoxGridRenderer::new().with_style(BoxGridStyle {
        border_left: LineShape::Light.into(),
        border_right: LineShape::Light.into(),
        border_top: LineShape::Double.into(),
        border_bottom: LineShape::Light.into(),
        row_sep: LineShape::Empty.into(),
        col_sep: LineShape::Heavy.into(),
        div_sep: LineShape::HeavyDash2.into(),
        round_corners: true,
    }))
        .with_column_descs(&descs)
        .finish();
    assert_eq!(table.render(), "\
╒══════════╦═════════╦═════════╦══════════════════════════╕
│ Centered ┃ Left    ┃   Right ┃ Left                     │
│  Header  ┃ Aligned ┃ Aligned ┃ Aligned                  │
┝╍╍╍╍╍╍╍╍╍╍╋╍╍╍╍╍╍╍╍╍╋╍╍╍╍╍╍╍╍╍╋╍╍╍╍╍╍╍╍╍╍╍╍╍╍╍╍╍╍╍╍╍╍╍╍╍╍┥
│  First   ┃ row     ┃      12 ┃ Example of a row that    │
│          ┃         ┃         ┃ spans multiple lines.    │
│          ┃         ┃         ┃                          │
│  Second  ┃ row     ┃       5 ┃ Here's another one. Note │
│          ┃         ┃         ┃ the blank line between   │
│          ┃         ┃         ┃ rows                     │
╰──────────┸─────────┸─────────┸──────────────────────────╯
");
}

#[test]
fn box_tile_multiline_table() {
    let data = multiline_rows();
    let descs = multiline_descs();
    let mut table = Table::new_builder(data, BoxTileRenderer::new())
        .with_column_descs(&descs)
        .finish();
    assert_eq!(table.render(), "\
╔══════════╗╔═════════╗╔═════════╗╔══════════════════════════╗
║ Centered ║║ Left    ║║   Right ║║ Left                     ║
║  Header  ║║ Aligned ║║ Aligned ║║ Aligned                  ║
╚══════════╝╚═════════╝╚═════════╝╚══════════════════════════╝
┌──────────┐┌─────────┐┌─────────┐┌──────────────────────────┐
│  First   ││ row     ││      12 ││ Example of a row that    │
│          ││         ││         ││ spans multiple lines.    │
└──────────┘└─────────┘└─────────┘└──────────────────────────┘
┌──────────┐┌─────────┐┌─────────┐┌──────────────────────────┐
│  Second  ││ row     ││       5 ││ Here's another one. Note │
│          ││         ││         ││ the blank line between   │
│          ││         ││         ││ rows                     │
└──────────┘└─────────┘└─────────┘└──────────────────────────┘
");
}

#[test]
fn box_tile_multiline_table_alt() {
    let data = multiline_rows();
    let descs = multiline_descs();
    let mut table = Table::new_builder(data, BoxTileRenderer::new().with_style(BoxTileStyle {
        header: LineShape::Heavy.into(),
        footer: LineShape::Light.into(),
        data: LineShape::LightDash4.into(),
        round_corners: true,
    }))
        .with_column_descs(&descs)
        .finish();
    assert_eq!(table.render(), "\
┏━━━━━━━━━━┓┏━━━━━━━━━┓┏━━━━━━━━━┓┏━━━━━━━━━━━━━━━━━━━━━━━━━━┓
┃ Centered ┃┃ Left    ┃┃   Right ┃┃ Left                     ┃
┃  Header  ┃┃ Aligned ┃┃ Aligned ┃┃ Aligned                  ┃
┗━━━━━━━━━━┛┗━━━━━━━━━┛┗━━━━━━━━━┛┗━━━━━━━━━━━━━━━━━━━━━━━━━━┛
╭┈┈┈┈┈┈┈┈┈┈╮╭┈┈┈┈┈┈┈┈┈╮╭┈┈┈┈┈┈┈┈┈╮╭┈┈┈┈┈┈┈┈┈┈┈┈┈┈┈┈┈┈┈┈┈┈┈┈┈┈╮
┊  First   ┊┊ row     ┊┊      12 ┊┊ Example of a row that    ┊
┊          ┊┊         ┊┊         ┊┊ spans multiple lines.    ┊
╰┈┈┈┈┈┈┈┈┈┈╯╰┈┈┈┈┈┈┈┈┈╯╰┈┈┈┈┈┈┈┈┈╯╰┈┈┈┈┈┈┈┈┈┈┈┈┈┈┈┈┈┈┈┈┈┈┈┈┈┈╯
╭┈┈┈┈┈┈┈┈┈┈╮╭┈┈┈┈┈┈┈┈┈╮╭┈┈┈┈┈┈┈┈┈╮╭┈┈┈┈┈┈┈┈┈┈┈┈┈┈┈┈┈┈┈┈┈┈┈┈┈┈╮
┊  Second  ┊┊ row     ┊┊       5 ┊┊ Here's another one. Note ┊
┊          ┊┊         ┊┊         ┊┊ the blank line between   ┊
┊          ┊┊         ┊┊         ┊┊ rows                     ┊
╰┈┈┈┈┈┈┈┈┈┈╯╰┈┈┈┈┈┈┈┈┈╯╰┈┈┈┈┈┈┈┈┈╯╰┈┈┈┈┈┈┈┈┈┈┈┈┈┈┈┈┈┈┈┈┈┈┈┈┈┈╯
");
}
