[package]
name = "faf_json_bench"
version = "0.1.0"
edition = "2021"
publish = false

[dependencies]
serde = { version = "*", features = ["derive"] }
serde_json = "*"
serde-json-core = "*"
nanoserde = "*"
simd-json = "*"
simd-json-derive = "*"
clap = { version = "*", features = ["derive"] }
mimalloc = "*"
