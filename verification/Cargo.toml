[package]
name = "secret_account"
version = "0.1.0"
edition = "2021"
publish = false

[dependencies]
eng-wasm = "0.1.7"
eng-wasm-derive = "0.1.7"
rustc-hex = "2.1.0"
serde = { version = "1", features = ["derive"] }
