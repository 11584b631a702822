[package]
name = "async_bench"
version = "0.1.0"
edition = "2021"
publish = false

[dependencies]
serde_json = "*"
futures = "0.1"
futures-cpupool = "*"
hyper = "0.11"
tokio-core = "*"
