[package]
name = "osp"
version = "0.1.0"
edition = "2021"
publish = false

[dependencies]
bincode = "2"
bytes = "1"
downcast-rs = "1"
log = "0.4"
openssl = "0.10"
tokio = { version = "1", features = ["net", "io-util"] }
trust-dns-resolver = "0.23"
uuid = { version = "1", features = ["v4"] }
