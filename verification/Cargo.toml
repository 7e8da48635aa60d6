[package]
name = "nautilus_calc"
version = "0.1.0"
edition = "2021"
publish = false
rust-version = "1.95"

[dependencies]
nautilus-model = "=0.57.0"
nautilus-core = "=0.57.0"
rust_decimal = "=1.43.0"
rust_decimal_macros = "=1.40.0"
anyhow = "=1.0.104"
