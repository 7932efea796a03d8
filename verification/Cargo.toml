[package]
name = "criterion-linux-perf"
version = "0.1.0"
edition = "2021"
publish = false

[dependencies]
criterion = { version = "0.5", default-features = false }
perf-event = "0.4"
