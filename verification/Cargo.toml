[package]
name = "counter_tui"
version = "0.1.0"
edition = "2021"
publish = false

[dependencies]
crossterm = "=0.29.0"
nix = { version = "=0.31.3", features = ["fs", "poll"] }
