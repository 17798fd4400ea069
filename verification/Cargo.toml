[package]
name = "ts_function"
version = "0.1.0"
edition = "2021"
publish = false

[dependencies]
heck = "=0.5.0"
proc-macro2 = "=1.0.107"
quote = "=1.0.47"
syn = { version = "=3.0.9", features = ["full"] }
