[package]
name = "heyo"
version = "0.1.0"
edition = "2021"
publish = false

[dependencies]
crossterm = "0.27"
pico-args = "0.5"
ratatui = "0.24"
rev_buf_reader = "0.3"
sysinfo = "0.30"
tokio = { version = "1", features = ["full"] }
tokio-postgres = "0.7"
