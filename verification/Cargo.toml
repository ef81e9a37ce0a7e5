[package]
name = "data_analyzer"
version = "0.1.0"
edition = "2021"
publish = false

[dependencies]
crossbeam = "*"
num-traits = "*"
plotters = { version = "*", default-features = false, features = ["bitmap_backend", "bitmap_encoder", "ab_glyph", "line_series", "area_series"] }
