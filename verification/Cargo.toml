[package]
name = "gnirehtet"
version = "0.1.0"
edition = "2021"
publish = false

[dependencies]
log = "0.4"
socket2 = "0.5"
tokio = { version = "1", features = ["rt-multi-thread", "net", "signal", "macros"] }
