[package]
name = "name_mapping"
version = "0.1.0"
edition = "2021"
publish = false

[dependencies]
arrow-schema = "57"
parquet = { version = "57", default-features = false, features = ["arrow"] }
