[package]
name = "criterion_decimal_throughput"
version = "0.1.0"
edition = "2021"
publish = false

[dependencies]
criterion = { version = "*", default-features = false }
