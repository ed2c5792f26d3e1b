[package]
name = "axum_error_macro"
version = "0.1.0"
edition = "2021"
publish = false

[dependencies]
litrs = { version = "=0.4.2", default-features = false }
serde_json = "=1.0.154"
syn = { version = "=2.0.119", features = ["full"] }
proc-macro2 = "=1.0.107"
axum = { version = "=0.6.20", default-features = false }
hyper = "=0.14.32"
