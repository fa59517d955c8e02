[package]
name = "tide"
version = "0.1.0"
edition = "2021"
publish = false

[dependencies]
chrono = "=0.4.45"
dirs-next = "=2.0.0"
open = "=5.4.5"
serde = { version = "=1.0.229", features = ["derive"] }
toml = "=0.8.23"
typst = "=0.13.1"
typst-assets = { version = "=0.13.1", features = ["fonts"] }
typst-ide = "=0.13.1"
typst-pdf = "=0.13.1"
typst-render = "=0.13.1"
typst-svg = "=0.13.1"
