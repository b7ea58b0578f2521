[package]
name = "offboard_hover"
version = "0.1.0"
edition = "2021"
publish = false

[dependencies]
mavlink = { version = "*", default-features = false, features = ["std", "udp", "common"] }
num-traits = "0.2"
tokio = { version = "1", features = ["rt-multi-thread", "macros", "sync", "time"] }
