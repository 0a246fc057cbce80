[package]
name = "exchange_outpost"
version = "0.1.0"
edition = "2021"
publish = false

[dependencies]
rust_decimal = "*"
serde = { version = "*", features = ["derive"] }
serde_json = "*"
extism-pdk = "*"
