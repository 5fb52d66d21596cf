[package]
name = "ppl"
version = "0.1.0"
edition = "2021"
publish = false

[dependencies]
chrono = "=0.4.45"
interim = { version = "=0.2.1", features = ["chrono_0_4"] }
ratatui = "=0.30.2"
crossterm = "=0.29.0"
tui-input = "=0.15.5"
clap = { version = "=4.6.7", features = ["derive"] }
