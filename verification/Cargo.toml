[package]
name = "c3_tui"
version = "0.1.0"
edition = "2021"
publish = false

[dependencies]
crossterm = "=0.27.0"
ratatui = "=0.30.2"
tui-textarea = "=0.4.0"
clap = { version = "=4.6.7", features = ["derive"] }
nix = { version = "=0.27.1", features = ["signal", "process"] }
