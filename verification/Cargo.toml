[package]
name = "stellar_daemon"
version = "0.1.0"
edition = "2021"
publish = false

[dependencies]
sha2 = "0.10"
hex = "0.4"
glob = "0.3"
croner = "2"
tokio = { version = "1", features = ["sync"] }
flate2 = "1"
tar = "0.4"
walkdir = "2"
