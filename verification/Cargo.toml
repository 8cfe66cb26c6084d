[package]
name = "rustfall"
version = "0.1.0"
edition = "2021"
publish = false

[dependencies]
rand = { version = "0.8", features = ["small_rng"] }
rayon = "1"
ratatui = "0.26"
crossterm = "0.27"
anyhow = "1"
itertools = "0.12"
