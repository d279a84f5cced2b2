[package]
name = "candle_moe"
version = "0.1.0"
edition = "2021"
publish = false

[dependencies]
candle-core = { version = "*", default-features = false }
cudarc = { version = "*", default-features = false, features = ["std", "driver", "f16", "dynamic-loading", "cuda-12080"] }
half = "*"
cudaforge = "*"

[lints.rust]
unexpected_cfgs = { level = "allow" }
