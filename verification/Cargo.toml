[package]
name = "cc_switch"
version = "0.1.0"
edition = "2021"
publish = false

[dependencies]
serde = { version = "=1.0.229", features = ["derive"] }
serde_json = "=1.0.154"
toml = "=0.8.23"
toml_edit = "=0.22.27"
indexmap = { version = "=2.14.2", features = ["serde"] }
futures = "=0.3.34"
log = "=0.4.35"
ratatui = "=0.29.0"
crossterm = "=0.28.1"
