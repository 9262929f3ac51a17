use table_gen::align::HorzAlign;
use table_gen::collate::ColSpec;
use table_gen::driver::Table;
use table_gen::format::CellValue;
use table_gen::markdown::grid::MarkdownGridRenderer;
use table_gen::markdown::multiline::MarkdownMultilineRenderer;
use table_gen::markdown::pipe::MarkdownPipeRenderer;
use table_gen::sort::ColumnOrd;

fn uint_rows(values: &[u64]) -> Vec<Vec<CellValue>> {
    values.iter().map(|v| vec![CellValue::UInt(*v)]).collect()
}

fn int_rows(values: &[i64]) -> Vec<Vec<CellValue>> {
    values.iter().map(|v| vec![CellValue::Int(*v)]).collect()
}

fn aligned_descs<'a>(headers: bool) -> Vec<ColSpec<'a>> {
    let (r, l, c) = if headers { ("Right", "Left", "Center") } else { ("", "", "") };
    vec![
        ColSpec::new().with_header(r).with_horz_align(HorzAlign::Right),
        ColSpec::new().with_header(l).with_horz_align(HorzAlign::Left),
        ColSpec::new().with_header(c).with_horz_align(HorzAlign::Center),
    ]
}

#[test]
fn grid_empty_table() {
    let data: Vec<Vec<CellValue>> = vec![];
    let mut table = Table::new_builder(data, MarkdownGridRenderer::new()).finish();
    assert_eq!(table.render(), "");
}

#[test]
fn grid_simple_table() {
    let data = int_rows(&[12, 123, 1, -8000]);
    let descs = aligned_descs(true);
    let select = [0, 0, 0];
    let mut table = Table::new_builder(data, MarkdownGridRenderer::new())
        .with_column_descs(&descs)
        .with_column_selection(&select)
        .finish();
    assert_eq!(table.render(), "\
+-------+-------+--------+
| Right | Left  | Center |
+=======+=======+========+
|    12 | 12    |   12   |
+-------+-------+--------+
|   123 | 123   |  123   |
+-------+-------+--------+
|     1 | 1     |   1    |
+-------+-------+--------+
| -8000 | -8000 | -8000  |
+-------+-------+--------+
");
}

#[test]
fn grid_simple_table_no_headers() {
    let data = int_rows(&[12, 123, 1, -8000]);
    let descs = aligned_descs(false);
    let select = [0, 0, 0];
    let mut table = Table::new_builder(data, MarkdownGridRenderer::new())
        .with_column_descs(&descs)
        .with_column_selection(&select)
        .finish();
    assert_eq!(table.render(), "\
+-------+-------+-------+
|    12 | 12    |  12   |
+-------+-------+-------+
|   123 | 123   |  123  |
+-------+-------+-------+
|     1 | 1     |   1   |
+-------+-------+-------+
| -8000 | -8000 | -8000 |
+-------+-------+-------+
");
}

#[test]
fn multiline_empty_table() {
    let data: Vec<Vec<CellValue>> = vec![];
    let mut table = Table::new_builder(data, MarkdownMultilineRenderer::new()).finish();
    assert_eq!(table.render(), "");
}

#[test]
fn multiline_array_table_single_column() {
    let data = uint_rows(&[1, 2000, 10, 30000, 100]);
    let order = [ColumnOrd::new(0).with_reversed_order()];
    let mut table = Table::new_builder(data, MarkdownMultilineRenderer::new())
        .with_sort_columns(&order)
        .finish();
    assert_eq!(table.render(), "\
-------
30000  

2000   

100    

10     

1      
-------
");
}

#[test]
fn multiline_simple_table() {
    let data = int_rows(&[12, 123, 1, -8000]);
    let descs = aligned_descs(true);
    let select = [0, 0, 0];
    let mut table = Table::new_builder(data, MarkdownMultilineRenderer::new())
        .with_column_descs(&descs)
        .with_column_selection(&select)
        .finish();
    assert_eq!(table.render(), "\
------------------------
  Right Left     Center 
------- ------- --------
     12 12         12   

    123 123       123   

      1 1          1    

  -8000 -8000    -8000  
------------------------

");
}

#[test]
fn multiline_simple_table_no_headers() {
    let data = int_rows(&[12, 123, 1, -8000]);
    let descs = aligned_descs(false);
    let select = [0, 0, 0];
    let mut table = Table::new_builder(data, MarkdownMultilineRenderer::new())
        .with_column_descs(&descs)
        .with_column_selection(&select)
        .finish();
    assert_eq!(table.render(), "\
------- ------- -------
     12 12        12   

    123 123       123  

      1 1          1   

  -8000 -8000    -8000 
------- ------- -------
");
}

#[test]
fn multiline_simple_table_no_headers_unpad_trailing() {
    let data = int_rows(&[12, 123, 1, -8000]);
    let descs = aligned_descs(false);
    let select = [0, 0, 0];
    let mut table = Table::new_builder(data, MarkdownMultilineRenderer::new().with_padded_trailing_column(false))
        .with_column_descs(&descs)
        .with_column_selection(&select)
        .finish();
    assert_eq!(table.render(), "\
------- ------- -------
     12 12        12

    123 123       123

      1 1          1

  -8000 -8000    -8000
------- ------- -------
");
}

#[test]
fn pipe_empty_table() {
    let data: Vec<Vec<CellValue>> = vec![];
    let mut table = Table::new_builder(data, MarkdownPipeRenderer::new()).finish();
    assert_eq!(table.render(), "");
}

#[test]
fn pipe_array_table_single_column() {
    let data = uint_rows(&[1, 2000, 10, 30000, 100]);
    let order = [ColumnOrd::new(0).with_reversed_order()];
    let mut table = Table::new_builder(data, MarkdownPipeRenderer::new())
        .with_sort_columns(&order)
        .finish();
    assert_eq!(table.render(), "\
|       |
|-------|
| 30000 |
| 2000  |
| 100   |
| 10    |
| 1     |
");
}

#[test]
fn pipe_simple_table() {
    let data = int_rows(&[12, 123, 1, -8000]);
    let descs = aligned_descs(true);
    let select = [0, 0, 0];
    let mut table = Table::new_builder(data, MarkdownPipeRenderer::new())
        .with_column_descs(&descs)
        .with_column_selection(&select)
        .finish();
    assert_eq!(table.render(), "\
| Right | Left  | Center |
|:-----:|:------|:------:|
|    12 | 12    |   12   |
|   123 | 123   |  123   |
|     1 | 1     |   1    |
| -8000 | -8000 | -8000  |
");
}

#[test]
fn pipe_simple_table_alt() {
    let data = int_rows(&[12, 123, 1, -8000]);
    let descs = aligned_descs(true);
    let select = [0, 0, 0];
    let mut table = Table::new_builder(data, MarkdownPipeRenderer::new()
            .with_alignment_markers(false)
            .with_header_div_pipes(false))
        .with_column_descs(&descs)
        .with_column_selection(&select)
        .finish();
    assert_eq!(table.render(), "\
| Right | Left  | Center |
|-------+-------+--------|
|    12 | 12    |   12   |
|   123 | 123   |  123   |
|     1 | 1     |   1    |
| -8000 | -8000 | -8000  |
");
}

#[test]
fn pipe_simple_table_no_headers() {
    let data = int_rows(&[12, 123, 1, -8000]);
    let descs = aligned_descs(false);
    let select = [0, 0, 0];
    let mut table = Table::new_builder(data, MarkdownPipeRenderer::new())
        .with_column_descs(&descs)
        .with_column_selection(&select)
        .finish();
    assert_eq!(table.render(), "\
|       |       |       |
|:-----:|:------|:-----:|
|    12 | 12    |  12   |
|   123 | 123   |  123  |
|     1 | 1     |   1   |
| -8000 | -8000 | -8000 |
");
}

#[test]
fn simple_table_alt_unpad_trailing() {
    let data = int_rows(&[12, 123, 1, -8000]);
    let descs = aligned_descs(true);
    let select = [0, 0, 0];
    let mut table = Table::new_builder(data, MarkdownPipeRenderer::new()
            .with_padded_trailing_column(false)
            .with_alignment_markers(false)
            .with_header_div_pipes(false))
        .with_column_descs(&descs)
        .with_column_selection(&select)
        .finish();
    assert_eq!(table.render(), "\
| Right | Left  | Center |
|-------+-------+--------|
|    12 | 12    |   12 |
|   123 | 123   |  123 |
|     1 | 1     |   1 |
| -8000 | -8000 | -8000 |
");
}

#[test]
fn pipe_simple_table_no_headers_unpad_trailing() {
    let data = int_rows(&[12, 123, 1, -8000]);
    let descs = aligned_descs(false);
    let select = [0, 0, 0];
    let mut table = Table::new_builder(data, MarkdownPipeRenderer::new().with_padded_trailing_column(false))
        .with_column_descs(&descs)
        .with_column_selection(&select)
        .finish();
    assert_eq!(table.render(), "\
|       |       |  |
|:-----:|:------|:-----:|
|    12 | 12    |  12 |
|   123 | 123   |  123 |
|     1 | 1     |   1 |
| -8000 | -8000 | -8000 |
");
}

#[test]
fn multiline_default_renders_like_new() {
    let data = uint_rows(&[30000, 7]);
    let mut by_new = Table::new_builder(data.clone(), MarkdownMultilineRenderer::new()).finish();
    let mut by_default = Table::new_builder(data.clone(), MarkdownMultilineRenderer::default()).finish();
    assert_eq!(by_new.render(), by_default.render());
    let mut by_new = Table::new_builder(data.clone(), MarkdownPipeRenderer::new()).finish();
    let mut by_default = Table::new_builder(data.clone(), MarkdownPipeRenderer::default()).finish();
    assert_eq!(by_new.render(), by_default.render());
    let mut by_new = Table::new_builder(data.clone(), MarkdownGridRenderer::new()).finish();
    let mut by_default = Table::new_builder(data, MarkdownGridRenderer::default()).finish();
    assert_eq!(by_new.render(), by_default.render());
}

/// The rows of the multi-line examples. The third column holds floating-point
/// numbers, which the library does not format: they enter as the text that
/// `Display` gives them.
fn multiline_rows() -> Vec<Vec<CellValue>> {
    let rows: Vec<(&str, &str, f64, &str)> = vec![
        ("First", "row", 12.0, "Example of a row that\nspans multiple lines."),
        ("Second", "row", 5.0, "Here's another one. Note\nthe blank line between\nrows"),
    ];
    rows.into_iter()
        .map(|(a, b, c, d)| {
            vec![
                CellValue::Text(a.to_string()),
                CellValue::Text(b.to_string()),
                CellValue::Text(format!("{}", c)),
                CellValue::Text(d.to_string()),
            ]
        })
        .collect()
}

fn multiline_descs<'a>() -> Vec<ColSpec<'a>> {
    vec![
        ColSpec::new().with_header("Centered\nHeader").with_horz_align(HorzAlign::Center),
        ColSpec::new().with_header("Left\nAligned").with_horz_align(HorzAlign::Left),
        ColSpec::new().with_header("Right\nAligned").with_horz_align(HorzAlign::Right),
        ColSpec::new().with_header("Left\nAligned").with_horz_align(HorzAlign::Left),
    ]
}

#[test]
fn grid_multiline_table() {
    let data = multiline_rows();
    let descs = multiline_descs();
    let mut table = Table::new_builder(data, MarkdownGridRenderer::new())
        .with_column_descs(&descs)
        .finish();
    assert_eq!(table.render(), "\
+----------+---------+---------+--------------------------+
| Centered | Left    |   Right | Left                     |
|  Header  | Aligned | Aligned | Aligned                  |
+==========+=========+=========+==========================+
|  First   | row     |      12 | Example of a row that    |
|          |         |         | spans multiple lines.    |
+----------+---------+---------+--------------------------+
|  Second  | row     |       5 | Here's another one. Note |
|          |         |         | the blank line between   |
|          |         |         | rows                     |
+----------+---------+---------+--------------------------+
");
}

#[test]
fn multiline_multiline_table() {
    let data = multiline_rows();
    let descs = multiline_descs();
    let mut table = Table::new_builder(data, MarkdownMultilineRenderer::new())
        .with_column_descs(&descs)
        .finish();
    assert_eq!(table.render(), "\
---------------------------------------------------------
 Centered  Left          Right Left                      
  Header   Aligned     Aligned Aligned                   
---------- --------- --------- --------------------------
  First    row              12 Example of a row that     
                               spans multiple lines.     

  Second   row               5 Here's another one. Note  
                               the blank line between    
                               rows                      
---------------------------------------------------------

");
}

#[test]
fn multiline_multiline_table_unpad_trailing() {
    let data = multiline_rows();
    let descs = multiline_descs();
    let mut table = Table::new_builder(data, MarkdownMultilineRenderer::new().with_padded_trailing_column(false))
        .with_column_descs(&descs)
        .finish();
    assert_eq!(table.render(), "\
---------------------------------------------------------
 Centered  Left          Right Left
  Header   Aligned     Aligned Aligned
---------- --------- --------- --------------------------
  First    row              12 Example of a row that
                               spans multiple lines.

  Second   row               5 Here's another one. Note
                               the blank line between
                               rows
---------------------------------------------------------

");
}

#[test]
fn pipe_multiline_table() {
    let data = multiline_rows();
    let descs = multiline_descs();
    let mut table = Table::new_builder(data, MarkdownPipeRenderer::new())
        .with_column_descs(&descs)
        .finish();
    assert_eq!(table.render(), "\
| Centered | Left    |   Right | Left                                                 |
|  Header  | Aligned | Aligned | Aligned                                              |
|:--------:|:--------|--------:|:-----------------------------------------------------|
|  First   | row     |      12 | Example of a row that spans multiple lines.          |
|  Second  | row     |       5 | Here's another one. Note the blank line between rows |
");
}

#[test]
fn pipe_multiline_table_unpad_trailing() {
    let data = multiline_rows();
    let descs = multiline_descs();
    let mut table = Table::new_builder(data, MarkdownPipeRenderer::new().with_padded_trailing_column(false))
        .with_column_descs(&descs)
        .finish();
    assert_eq!(table.render(), "\
| Centered | Left    |   Right | Left |
|  Header  | Aligned | Aligned | Aligned |
|:--------:|:--------|--------:|:-----------------------------------------------------|
|  First   | row     |      12 | Example of a row that spans multiple lines. |
|  Second  | row     |       5 | Here's another one. Note the blank line between rows |
");
}
