[package]
name = "table_gen"
version = "0.1.0"
edition = "2021"
publish = false

[dependencies]
unicode-segmentation = "1"
unicode-display-width = "0.3"
textwrap = "0.16"
smallvec = "1"
seq-macro = "0.3"
bitflags = "2"
