[package]
name = "chatui"
version = "0.1.0"
edition = "2021"
publish = false

[dependencies]
crossterm = { version = "0.25", features = ["event-stream"] }
fastrand = "2"
tokio = { version = "1", features = ["macros", "rt", "time"] }
tokio-stream = "0.1"
tui = "0.19"
tui-textarea = "0.2"
