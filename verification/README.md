# table_gen

A table generator: rows of cells are collated (column selection), formatted,
sorted stably by column orderings, selected by position, aggregated into
column widths, and rendered through a renderer's hooks into text. Renderers
whose rows are single lines (pipe tables, plain renderers without multiline
support) get each data cell's lines joined with spaces as it is formatted.

The library under `src/` is written in Verus and proved by it. Renderers
state what each hook writes through a spec function of the renderer traits,
and the drivers' `render` ensures that the rendered text is what the hooks
write, concatenated in the order of the table's events. The few calls into
`std` formatting and the outside crates stand behind functions whose
contracts are trusted.

- `align`, `text`, `unicode`, `cell`, `text_buf`: alignment, line splitting,
  grapheme-aware truncation and cell layout.
- `format`, `row`, `collate`, `split`, `sort`, `aggregate`: the table pipeline
  from cell values to column widths.
- `table_width`: how far column widths fall outside the table width
  constraints, which decides whether `app/` redistributes them.
- `features`, `context`, `render`, `driver`: renderer features, the render
  context, the context-based renderer interface and the driver that calls it.
- `terminal`, `markdown`: renderers for terminals (minimal, box tiles, box
  grid, a debug renderer) and for pandoc markdown (pipe, multiline, grid).
- `basic`: the plain renderer interface, whose hooks take row, column and
  line numbers, its renderers and its driver.
- `wrap`, `unicode`: the calls into `textwrap`, `unicode-segmentation` and
  `unicode-display-width`, each behind a function whose contract is trusted.

`app/` holds what works with floating-point numbers (column definitions with
width weights, the quantile estimator, width distribution under table-width
constraints) and writing a rendered table to an output stream.
