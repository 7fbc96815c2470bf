[package]
name = "ngx_x402"
version = "0.1.0"
edition = "2021"
publish = false

[dependencies]
base64 = "*"
hex = "*"
log = "*"
prometheus = "*"
redis = "*"
reqwest = { version = "*", default-features = false, features = ["json"] }
rust_decimal = "*"
serde = { version = "*", features = ["derive"] }
serde_json = "*"
sha2 = "*"
tokio = { version = "*", features = ["rt-multi-thread", "time"] }
