[package]
name = "cargo-set-rust-version"
version = "0.1.0"
edition = "2021"
publish = false

[dependencies]
clap = { version = "3", features = ["derive"] }
thiserror = "1"
toml = "0.5"
toml_edit = "0.14"
ureq = "2"
