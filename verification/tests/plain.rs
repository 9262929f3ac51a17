use table_gen::align::HorzAlign;
use table_gen::basic::driver::Table;
use table_gen::basic::md_pipe::MarkdownPipeRenderer;
use table_gen::basic::md_simple::MarkdownSimpleRenderer;
use table_gen::basic::minimal::MinimalRenderer;
use table_gen::collate::ColSpec;
use table_gen::format::CellValue;
use table_gen::sort::ColumnOrd;

fn int_rows(values: &[i64]) -> Vec<Vec<CellValue>> {
    values.iter().map(|v| vec![CellValue::Int(*v)]).collect()
}

fn aligned_descs<'a>(headers: bool) -> Vec<ColSpec<'a>> {
    let (r, l, c) = if headers { ("Right", "Left", "Center") } else { ("", "", "") };
    vec![
        ColSpec::new().with_header(r).with_horz_align(HorzAlign::Right),
        ColSpec::new().with_header(l).with_horz_align(HorzAlign::Left),
        ColSpec::new().with_header(c).with_horz_align(HorzAlign::Center),
    ]
}

#[test]
fn md_pipe_empty_table() {
    let data: Vec<Vec<CellValue>> = vec![];
    let mut table = Table::new_builder(data, MarkdownPipeRenderer::new()).finish();
    assert_eq!(table.render(), "");
}

#[test]
fn md_pipe_simple_table() {
    let data = int_rows(&[12, 123, 1, -8000]);
    let col_descs = aligned_descs(true);
    let mut table = Table::new_builder(data, MarkdownPipeRenderer::new())
        .with_column_descs(&col_descs)
        .with_column_selection(&[0, 0, 0])
        .finish();
    assert_eq!(table.render(), "\
| Right | Left  | Center |
|:-----:|:------|:------:|
|    12 | 12    |   12   |
|   123 | 123   |  123   |
|     1 | 1     |   1    |
| -8000 | -8000 | -8000  |
");
}

#[test]
fn md_pipe_simple_table_alt() {
    let data = int_rows(&[12, 123, 1, -8000]);
    let col_descs = aligned_descs(true);
    let mut table = Table::new_builder(
        data,
        MarkdownPipeRenderer::new().with_alignment_markers(false).with_header_div_pipes(false),
    )
    .with_column_descs(&col_descs)
    .with_column_selection(&[0, 0, 0])
    .finish();
    assert_eq!(table.render(), "\
| Right | Left  | Center |
|-------+-------+--------|
|    12 | 12    |   12   |
|   123 | 123   |  123   |
|     1 | 1     |   1    |
| -8000 | -8000 | -8000  |
");
}

#[test]
fn md_pipe_simple_table_no_headers() {
    let data = int_rows(&[12, 123, 1, -8000]);
    let col_descs = aligned_descs(false);
    let mut table = Table::new_builder(data, MarkdownPipeRenderer::new())
        .with_column_descs(&col_descs)
        .with_column_selection(&[0, 0, 0])
        .finish();
    assert_eq!(table.render(), "\
|       |       |       |
|:-----:|:------|:-----:|
|    12 | 12    |  12   |
|   123 | 123   |  123  |
|     1 | 1     |   1   |
| -8000 | -8000 | -8000 |
");
}

#[test]
fn md_simple_empty_table() {
    let data: Vec<Vec<CellValue>> = vec![];
    let mut table = Table::new_builder(data, MarkdownSimpleRenderer::new()).finish();
    assert_eq!(table.render(), "");
}

#[test]
fn md_simple_simple_table() {
    let data = int_rows(&[12, 123, 1, -8000]);
    let col_descs = aligned_descs(true);
    let mut table = Table::new_builder(data, MarkdownSimpleRenderer::new())
        .with_column_descs(&col_descs)
        .with_column_selection(&[0, 0, 0])
        .finish();
    assert_eq!(table.render(), "  \
  Right Left     Center 
------- ------- --------
     12 12         12   
    123 123       123   
      1 1          1    
  -8000 -8000    -8000  
");
}

#[test]
fn md_simple_simple_table_no_headers() {
    let data = int_rows(&[12, 123, 1, -8000]);
    let col_descs = aligned_descs(false);
    let mut table = Table::new_builder(data, MarkdownSimpleRenderer::new())
        .with_column_descs(&col_descs)
        .with_column_selection(&[0, 0, 0])
        .finish();
    assert_eq!(table.render(), "\
------- ------- -------
     12 12        12   
    123 123       123  
      1 1          1   
  -8000 -8000    -8000 
------- ------- -------
");
}

#[test]
fn simple_table_unpad_trailing() {
    let data = int_rows(&[12, 123, 1, -8000]);
    let col_descs = aligned_descs(true);
    let mut table = Table::new_builder(data, MarkdownSimpleRenderer::new().with_padded_trailing_column(false))
        .with_column_descs(&col_descs)
        .with_column_selection(&[0, 0, 0])
        .finish();
    assert_eq!(table.render(), "  \
  Right Left     Center
------- ------- --------
     12 12         12
    123 123       123
      1 1          1
  -8000 -8000    -8000
");
}

#[test]
fn table_empty() {
    let data: Vec<Vec<CellValue>> = vec![];
    let mut table = Table::new_builder(data, MinimalRenderer::new()).finish();
    assert_eq!("", table.render());
}

#[test]
fn tuple_table_two_rows_short_column_descs() {
    let data = vec![
        vec![CellValue::Int(-17), CellValue::Text("b".to_string())],
        vec![CellValue::Int(170000), CellValue::Text("&".to_string())],
    ];
    let specs = vec![ColSpec::new().with_header("H0").with_footer("F0")];
    let mut table = Table::new_builder(data, MinimalRenderer::new()).with_column_descs(&specs).finish();
    assert_eq!(table.render(), "\
H0      
-17    b
170000 &
F0      
");
}

#[test]
fn plain_minimal_table_selects_columns_and_rows() {
    let data = vec![vec![CellValue::UInt(1), CellValue::UInt(10), CellValue::UInt(100), CellValue::UInt(1000)]];
    let mut table = Table::new_builder(data, MinimalRenderer::new()).with_column_selection(&[0, 2, 3]).finish();
    assert_eq!(table.col_widths(), &[1, 3, 4]);
    assert_eq!(table.render(), "1 100 1000\n");
}

#[test]
fn plain_builder_reports_sortability() {
    let data = int_rows(&[3, 1, 2]);
    let order = [ColumnOrd::new(0)];
    let builder = Table::new_builder(data, MinimalRenderer::new()).with_sort_columns(&order);
    assert!(builder.is_sortable());
    let mut table = builder.finish();
    assert_eq!(table.render(), "1\n2\n3\n");
}

/// The rows of the multi-line examples. The third column holds floating-point
/// numbers, which the library does not format: they enter as the text that
/// `Display` gives them.
fn multiline_rows() -> Vec<Vec<CellValue>> {
    let rows: Vec<(&str, &str, f64, &str)> = vec![
        ("First", "row", 12.0, "Example of a row that\nspans multiple lines."),
        ("Second", "row", 5.0, "Here's another one. Note\nthe blank line between\nrows"),
    ];
    rows.into_iter()
        .map(|(a, b, c, d)| {
            vec![
                CellValue::Text(a.to_string()),
                CellValue::Text(b.to_string()),
                CellValue::Text(format!("{}", c)),
                CellValue::Text(d.to_string()),
            ]
        })
        .collect()
}

fn multiline_descs<'a>() -> Vec<ColSpec<'a>> {
    vec![
        ColSpec::new().with_header("Centered\nHeader").with_horz_align(HorzAlign::Center),
        ColSpec::new().with_header("Left\nAligned").with_horz_align(HorzAlign::Left),
        ColSpec::new().with_header("Right\nAligned").with_horz_align(HorzAlign::Right),
        ColSpec::new().with_header("Left\nAligned").with_horz_align(HorzAlign::Left),
    ]
}

#[test]
fn md_pipe_multiline_table() {
    let data = multiline_rows();
    let descs = multiline_descs();
    let mut table = Table::new_builder(data, MarkdownPipeRenderer::new())
        .with_column_descs(&descs)
        .finish();
    assert_eq!(table.render(), "\
| Centered | Left    |   Right | Left                                                 |
|  Header  | Aligned | Aligned | Aligned                                              |
|:--------:|:--------|--------:|:-----------------------------------------------------|
|  First   | row     |      12 | Example of a row that spans multiple lines.          |
|  Second  | row     |       5 | Here's another one. Note the blank line between rows |
");
}
