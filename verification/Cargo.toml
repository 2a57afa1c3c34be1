[package]
name = "tokio-icmp-echo"
version = "0.4.0"
edition = "2021"
publish = false

[dependencies]
futures = "0.3"
parking_lot = "0.12"
rand = "0.8"
socket2 = { version = "0.5", features = ["all"] }
tokio = { version = "1", features = ["net", "rt", "time"] }
