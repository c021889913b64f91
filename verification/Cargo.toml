[package]
name = "kapacitsur"
version = "0.1.0"
edition = "2021"
publish = false

[dependencies]
bytes = "1"
integer-encoding = "3"
prost = "0.13"
tokio = { version = "1", features = ["io-util", "macros", "net", "rt", "sync"] }
