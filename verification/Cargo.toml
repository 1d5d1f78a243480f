[package]
name = "reqtui"
version = "0.1.0"
edition = "2021"
publish = false

[dependencies]
serde_json = "1"
reqwest = { version = "0.11", default-features = false }
tokio = { version = "1", features = ["rt-multi-thread", "macros", "time"] }
crossterm = "0.25"
tui = { version = "0.19", default-features = false, features = ["crossterm"] }
cli-clipboard = "0.4"
