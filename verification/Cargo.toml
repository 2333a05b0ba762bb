[package]
name = "php_bindgen"
version = "0.1.0"
edition = "2021"
publish = false

[dependencies]
anyhow = "1"
camino = "1"
clap = { version = "4", features = ["derive"] }
fs-err = "2"
heck = "=0.5.0"
serde = { version = "1", features = ["derive"] }
textwrap = "=0.16.4"
toml = "0.5"
uniffi_bindgen = "=0.29.5"
uniffi_meta = "=0.29.5"
