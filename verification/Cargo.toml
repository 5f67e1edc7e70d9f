[package]
name = "kvserve"
version = "0.1.0"
edition = "2021"
publish = false

[dependencies]
papaya = "*"
axum = "*"
clap = { version = "*", features = ["derive"] }
socket2 = "*"
tokio = { version = "*", features = ["rt-multi-thread", "net", "signal", "macros", "time"] }
tower = { version = "*", features = ["limit"] }
