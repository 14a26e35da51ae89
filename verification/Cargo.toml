[package]
name = "csv_source"
version = "0.1.0"
edition = "2021"
publish = false

[dependencies]
polars-core = { version = "0.41", default-features = false }
polars-io = { version = "0.41", default-features = false, features = ["csv"] }
polars-plan = { version = "0.41", default-features = false }

[dev-dependencies]
tempfile = "3"
