[package]
name = "cargox"
version = "0.1.0"
edition = "2021"
publish = false

[dependencies]
semver = "1"
anyhow = "1"
clap = { version = "4", features = ["derive"] }
directories = "5"

[dev-dependencies]
tempfile = "3"
